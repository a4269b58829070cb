use sentinel::alert::AlertSignificance;
use sentinel::event_contracts::{
    AlertRecord, DeliveryAttemptRecord, DeliveryAttemptStatus, SenderStatusRecord,
    EVENT_CONTRACT_SCHEMA_VERSION,
};
use sentinel::event_log_reader::{read_dashboard_lines, DashboardLine, MAX_DISPLAY_RECORDS};

fn alert_line(alert_id: &str, timestamp: u64) -> DashboardLine {
    DashboardLine::Alert(AlertRecord {
        schema_version: EVENT_CONTRACT_SCHEMA_VERSION,
        record_type: "alert".to_string(),
        alert_id: alert_id.to_string(),
        timestamp_unix_secs: timestamp,
        source: "same".to_string(),
        event: "Tornado Warning".to_string(),
        significance: AlertSignificance::Warning,
        originator: "National Weather Service".to_string(),
        callsign: "KXYZ".to_string(),
        is_national: false,
        is_test: false,
        location_codes: vec!["006085".to_string()],
        location_names: vec!["Central Santa Clara".to_string()],
        message_text: "test alert".to_string(),
    })
}

fn delivery_line(alert_id: &str, sender: &str) -> DashboardLine {
    DashboardLine::DeliveryAttempt(DeliveryAttemptRecord {
        schema_version: EVENT_CONTRACT_SCHEMA_VERSION,
        record_type: "delivery_attempt".to_string(),
        alert_id: alert_id.to_string(),
        timestamp_unix_secs: 11,
        sender: sender.to_string(),
        required: sender == "meshtastic",
        channel: Some(0),
        status: DeliveryAttemptStatus::Success,
        error: None,
    })
}

fn sender_status_line(sender: &str, ready: bool, timestamp: u64) -> DashboardLine {
    DashboardLine::SenderStatus(SenderStatusRecord {
        schema_version: EVENT_CONTRACT_SCHEMA_VERSION,
        record_type: "sender_status".to_string(),
        timestamp_unix_secs: timestamp,
        sender: sender.to_string(),
        configured: true,
        required: sender == "meshtastic",
        ready,
        last_success_unix_secs: if ready { Some(timestamp) } else { None },
        last_failure_unix_secs: if ready { None } else { Some(timestamp) },
        error: if ready {
            None
        } else {
            Some("unavailable".to_string())
        },
    })
}

#[test]
fn parses_mixed_jsonl_records() {
    let lines = vec![
        alert_line("alert-1", 10),
        delivery_line("alert-1", "meshtastic"),
        sender_status_line("meshtastic", true, 12),
    ];

    let data = read_dashboard_lines(lines, MAX_DISPLAY_RECORDS);

    assert_eq!(data.parsed_records, 3);
    assert_eq!(data.alerts.len(), 1);
    assert_eq!(data.attempts_for("alert-1").unwrap().len(), 1);
    assert_eq!(data.sender_statuses.len(), 1);
    assert_eq!(data.malformed_lines, 0);
}

#[test]
fn malformed_lines_are_skipped_and_counted() {
    let lines = vec![DashboardLine::Malformed, alert_line("alert-1", 10)];

    let data = read_dashboard_lines(lines, MAX_DISPLAY_RECORDS);

    assert_eq!(data.parsed_records, 1);
    assert_eq!(data.malformed_lines, 1);
    assert_eq!(data.alerts.len(), 1);
}

#[test]
fn delivery_attempts_are_grouped_by_alert_id() {
    let lines = vec![
        delivery_line("alert-1", "meshtastic"),
        delivery_line("alert-1", "discord"),
        delivery_line("alert-2", "lxmf"),
    ];

    let data = read_dashboard_lines(lines, MAX_DISPLAY_RECORDS);

    assert_eq!(data.attempts_for("alert-1").unwrap().len(), 2);
    assert_eq!(data.attempts_for("alert-2").unwrap().len(), 1);
    assert!(data.attempts_for("alert-3").is_none());
}

#[test]
fn latest_sender_status_wins() {
    let lines = vec![
        sender_status_line("discord", false, 10),
        sender_status_line("discord", true, 11),
    ];

    let data = read_dashboard_lines(lines, MAX_DISPLAY_RECORDS);

    assert_eq!(data.sender_statuses.len(), 1);
    assert_eq!(data.sender_statuses[0].sender, "discord");
    assert!(data.sender_statuses[0].ready);
    assert_eq!(data.sender_statuses[0].timestamp_unix_secs, 11);
}

#[test]
fn caps_displayed_records() {
    let lines = vec![alert_line("alert-1", 10), alert_line("alert-2", 11)];

    let data = read_dashboard_lines(lines, 1);

    assert_eq!(data.parsed_records, 1);
    assert_eq!(data.truncated_records, 1);
    assert_eq!(data.alerts.len(), 1);
}

#[test]
fn alerts_are_listed_latest_read_first() {
    let lines = vec![
        alert_line("alert-1", 10),
        alert_line("alert-2", 30),
        alert_line("alert-3", 20),
    ];

    let data = read_dashboard_lines(lines, MAX_DISPLAY_RECORDS);

    let ids: Vec<&str> = data.alerts.iter().map(|a| a.alert_id.as_str()).collect();
    assert_eq!(ids, vec!["alert-3", "alert-2", "alert-1"]);
}

#[test]
fn file_order_decides_over_timestamps() {
    let lines = vec![
        alert_line("alert-a", 20),
        alert_line("alert-b", 10),
        alert_line("alert-c", 30),
    ];

    let data = read_dashboard_lines(lines, MAX_DISPLAY_RECORDS);

    let ids: Vec<&str> = data.alerts.iter().map(|a| a.alert_id.as_str()).collect();
    assert_eq!(ids, vec!["alert-c", "alert-b", "alert-a"]);
}

#[test]
fn read_errors_are_counted_and_the_last_one_is_kept() {
    let lines = vec![
        DashboardLine::ReadError("first".to_string()),
        alert_line("alert-1", 10),
        DashboardLine::ReadError("second".to_string()),
    ];

    let data = read_dashboard_lines(lines, MAX_DISPLAY_RECORDS);

    assert_eq!(data.malformed_lines, 2);
    assert_eq!(data.parsed_records, 1);
    assert_eq!(data.read_error.as_deref(), Some("Unable to read event log line: second"));
}

#[test]
fn sender_statuses_keep_order_of_last_update() {
    let lines = vec![
        sender_status_line("meshtastic", true, 10),
        sender_status_line("discord", true, 11),
        sender_status_line("meshtastic", false, 12),
    ];

    let data = read_dashboard_lines(lines, MAX_DISPLAY_RECORDS);

    assert_eq!(data.sender_statuses.len(), 2);
    assert_eq!(data.sender_statuses[0].sender, "discord");
    assert_eq!(data.sender_statuses[1].sender, "meshtastic");
    assert!(!data.sender_statuses[1].ready);
}

#[test]
fn every_line_is_counted_once() {
    let lines = vec![
        alert_line("alert-1", 10),
        DashboardLine::Malformed,
        DashboardLine::ReadError("bad bytes".to_string()),
        delivery_line("alert-1", "discord"),
        sender_status_line("discord", true, 12),
        DashboardLine::Malformed,
        alert_line("alert-2", 13),
    ];
    let data = read_dashboard_lines(lines, 2);

    assert_eq!(data.parsed_records, 2);
    assert_eq!(data.malformed_lines, 2);
    assert_eq!(data.truncated_records, 3);
    assert_eq!(data.parsed_records + data.malformed_lines + data.truncated_records, 7);
    assert!(data.read_error.is_some());
}
