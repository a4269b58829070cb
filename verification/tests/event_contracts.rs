use sentinel::alert::AlertSignificance;
use sentinel::event_contracts::{
    AlertRecord, DeliveryAttemptRecord, DeliveryAttemptStatus, SenderStatusRecord, SourceState,
    SourceStatusRecord, SystemStatusRecord, EVENT_CONTRACT_SCHEMA_VERSION,
};
use serde_json::Value;

fn alert_record() -> AlertRecord {
    AlertRecord {
        schema_version: EVENT_CONTRACT_SCHEMA_VERSION,
        record_type: "alert".to_string(),
        alert_id: "alert-123".to_string(),
        timestamp_unix_secs: 1000,
        source: "same".to_string(),
        event: "Tornado Warning".to_string(),
        significance: AlertSignificance::Warning,
        originator: "National Weather Service".to_string(),
        callsign: "KXYZ".to_string(),
        is_national: false,
        is_test: false,
        location_codes: vec!["006085".to_string()],
        location_names: vec!["Central Santa Clara".to_string()],
        message_text: "line 1\n\"quoted\"".to_string(),
    }
}

fn parsed(line: &str) -> Value {
    serde_json::from_str(line).unwrap()
}

fn text(v: &Value) -> String {
    v.as_str().unwrap().to_string()
}

fn texts(v: &Value) -> Vec<String> {
    v.as_array().unwrap().iter().map(text).collect()
}

fn number(v: &Value) -> u64 {
    v.as_u64().unwrap()
}

fn opt_number(v: &Value) -> Option<u64> {
    v.as_u64()
}

fn opt_text(v: &Value) -> Option<String> {
    v.as_str().map(|s| s.to_string())
}

fn significance(v: &Value) -> AlertSignificance {
    match v.as_str().unwrap() {
        "Test" => AlertSignificance::Test,
        "Statement" => AlertSignificance::Statement,
        "Emergency" => AlertSignificance::Emergency,
        "Watch" => AlertSignificance::Watch,
        "Warning" => AlertSignificance::Warning,
        _ => AlertSignificance::Unknown,
    }
}

fn alert_from_json_line(line: &str) -> AlertRecord {
    let v = parsed(line);
    AlertRecord {
        schema_version: number(&v["schema_version"]) as u16,
        record_type: text(&v["record_type"]),
        alert_id: text(&v["alert_id"]),
        timestamp_unix_secs: number(&v["timestamp_unix_secs"]),
        source: text(&v["source"]),
        event: text(&v["event"]),
        significance: significance(&v["significance"]),
        originator: text(&v["originator"]),
        callsign: text(&v["callsign"]),
        is_national: v["is_national"].as_bool().unwrap(),
        is_test: v["is_test"].as_bool().unwrap(),
        location_codes: texts(&v["location_codes"]),
        location_names: texts(&v["location_names"]),
        message_text: text(&v["message_text"]),
    }
}

fn delivery_from_json_line(line: &str) -> DeliveryAttemptRecord {
    let v = parsed(line);
    DeliveryAttemptRecord {
        schema_version: number(&v["schema_version"]) as u16,
        record_type: text(&v["record_type"]),
        alert_id: text(&v["alert_id"]),
        timestamp_unix_secs: number(&v["timestamp_unix_secs"]),
        sender: text(&v["sender"]),
        required: v["required"].as_bool().unwrap(),
        channel: opt_number(&v["channel"]).map(|c| c as u32),
        status: match v["status"].as_str().unwrap() {
            "Success" => DeliveryAttemptStatus::Success,
            "Failure" => DeliveryAttemptStatus::Failure,
            _ => DeliveryAttemptStatus::Skipped,
        },
        error: opt_text(&v["error"]),
    }
}

fn sender_status_from_json_line(line: &str) -> SenderStatusRecord {
    let v = parsed(line);
    SenderStatusRecord {
        schema_version: number(&v["schema_version"]) as u16,
        record_type: text(&v["record_type"]),
        timestamp_unix_secs: number(&v["timestamp_unix_secs"]),
        sender: text(&v["sender"]),
        configured: v["configured"].as_bool().unwrap(),
        required: v["required"].as_bool().unwrap(),
        ready: v["ready"].as_bool().unwrap(),
        last_success_unix_secs: opt_number(&v["last_success_unix_secs"]),
        last_failure_unix_secs: opt_number(&v["last_failure_unix_secs"]),
        error: opt_text(&v["error"]),
    }
}

fn system_status_from_json_line(line: &str) -> SystemStatusRecord {
    let v = parsed(line);
    SystemStatusRecord {
        schema_version: number(&v["schema_version"]) as u16,
        record_type: text(&v["record_type"]),
        timestamp_unix_secs: number(&v["timestamp_unix_secs"]),
        hostname: text(&v["hostname"]),
        sentinel_version: text(&v["sentinel_version"]),
        uptime_secs: opt_number(&v["uptime_secs"]),
        disk_free_bytes: opt_number(&v["disk_free_bytes"]),
        network_available: v["network_available"].as_bool(),
        notes: texts(&v["notes"]),
    }
}

#[test]
fn alert_record_serializes_to_stable_json_line() {
    let record = alert_record();

    assert_eq!(
        record.to_json_line(),
        "{\"schema_version\":1,\"record_type\":\"alert\",\"alert_id\":\"alert-123\",\"timestamp_unix_secs\":1000,\"source\":\"same\",\"event\":\"Tornado Warning\",\"significance\":\"Warning\",\"originator\":\"National Weather Service\",\"callsign\":\"KXYZ\",\"is_national\":false,\"is_test\":false,\"location_codes\":[\"006085\"],\"location_names\":[\"Central Santa Clara\"],\"message_text\":\"line 1\\n\\\"quoted\\\"\"}"
    );
    assert!(!record.to_json_line().contains('\n'));
    assert_eq!(alert_from_json_line(&record.to_json_line()), record);
}

#[test]
fn delivery_attempt_record_serializes_to_stable_json_line() {
    let record = DeliveryAttemptRecord {
        schema_version: EVENT_CONTRACT_SCHEMA_VERSION,
        record_type: "delivery_attempt".to_string(),
        alert_id: "alert-123".to_string(),
        timestamp_unix_secs: 1001,
        sender: "meshtastic".to_string(),
        required: true,
        channel: Some(0),
        status: DeliveryAttemptStatus::Success,
        error: None,
    };

    assert_eq!(
        record.to_json_line(),
        "{\"schema_version\":1,\"record_type\":\"delivery_attempt\",\"alert_id\":\"alert-123\",\"timestamp_unix_secs\":1001,\"sender\":\"meshtastic\",\"required\":true,\"channel\":0,\"status\":\"Success\",\"error\":null}"
    );
    assert!(!record.to_json_line().contains('\n'));
    assert_eq!(delivery_from_json_line(&record.to_json_line()), record);
}

#[test]
fn sender_status_record_serializes_to_stable_json_line() {
    let record = SenderStatusRecord {
        schema_version: EVENT_CONTRACT_SCHEMA_VERSION,
        record_type: "sender_status".to_string(),
        timestamp_unix_secs: 1002,
        sender: "discord".to_string(),
        configured: true,
        required: false,
        ready: false,
        last_success_unix_secs: Some(900),
        last_failure_unix_secs: Some(1001),
        error: Some("webhook unavailable".to_string()),
    };

    assert_eq!(
        record.to_json_line(),
        "{\"schema_version\":1,\"record_type\":\"sender_status\",\"timestamp_unix_secs\":1002,\"sender\":\"discord\",\"configured\":true,\"required\":false,\"ready\":false,\"last_success_unix_secs\":900,\"last_failure_unix_secs\":1001,\"error\":\"webhook unavailable\"}"
    );
    assert!(!record.to_json_line().contains('\n'));
    assert_eq!(sender_status_from_json_line(&record.to_json_line()), record);
}

#[test]
fn system_status_record_serializes_to_stable_json_line() {
    let record = SystemStatusRecord {
        schema_version: EVENT_CONTRACT_SCHEMA_VERSION,
        record_type: "system_status".to_string(),
        timestamp_unix_secs: 1003,
        hostname: "sentinel-pi".to_string(),
        sentinel_version: "0.8.0".to_string(),
        uptime_secs: Some(3600),
        disk_free_bytes: Some(1048576),
        network_available: Some(false),
        notes: vec!["offline mode".to_string()],
    };

    assert_eq!(
        record.to_json_line(),
        "{\"schema_version\":1,\"record_type\":\"system_status\",\"timestamp_unix_secs\":1003,\"hostname\":\"sentinel-pi\",\"sentinel_version\":\"0.8.0\",\"uptime_secs\":3600,\"disk_free_bytes\":1048576,\"network_available\":false,\"notes\":[\"offline mode\"]}"
    );
    assert!(!record.to_json_line().contains('\n'));
    assert_eq!(system_status_from_json_line(&record.to_json_line()), record);
}

#[test]
fn source_status_record_serializes_with_nulls_for_missing_times() {
    let record = SourceStatusRecord {
        schema_version: EVENT_CONTRACT_SCHEMA_VERSION,
        record_type: "source_status".to_string(),
        timestamp_unix_secs: 1004,
        source: "same_radio".to_string(),
        state: SourceState::Degraded,
        last_success_unix_secs: Some(500),
        last_failure_unix_secs: None,
        last_decoded_message_unix_secs: Some(500),
        last_accepted_alert_unix_secs: None,
        error: None,
    };

    assert_eq!(
        record.to_json_line(),
        "{\"schema_version\":1,\"record_type\":\"source_status\",\"timestamp_unix_secs\":1004,\"source\":\"same_radio\",\"state\":\"Degraded\",\"last_success_unix_secs\":500,\"last_failure_unix_secs\":null,\"last_decoded_message_unix_secs\":500,\"last_accepted_alert_unix_secs\":null,\"error\":null}"
    );
}

#[test]
fn absent_system_values_serialize_as_null() {
    let record = SystemStatusRecord {
        schema_version: EVENT_CONTRACT_SCHEMA_VERSION,
        record_type: "system_status".to_string(),
        timestamp_unix_secs: 1,
        hostname: "h".to_string(),
        sentinel_version: "v".to_string(),
        uptime_secs: None,
        disk_free_bytes: None,
        network_available: None,
        notes: Vec::new(),
    };

    assert_eq!(
        record.to_json_line(),
        "{\"schema_version\":1,\"record_type\":\"system_status\",\"timestamp_unix_secs\":1,\"hostname\":\"h\",\"sentinel_version\":\"v\",\"uptime_secs\":null,\"disk_free_bytes\":null,\"network_available\":null,\"notes\":[]}"
    );
}

#[test]
fn event_text_is_escaped_as_serde_json_escapes_it() {
    let mut record = alert_record();
    record.message_text = "a\u{8}b\u{c}c\u{1}d\u{7f}e\u{85}f\"g\\h".to_string();

    let line = record.to_json_line();

    let expected = format!("\"message_text\":{}}}", serde_json::to_string(&record.message_text).unwrap());
    assert!(line.ends_with(&expected));
    assert!(line.contains("a\\bb\\fc\\u0001d\u{7f}e\u{85}f"));
    assert_eq!(alert_from_json_line(&line), record);
}
