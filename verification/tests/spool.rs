use sentinel::alert::{Alert, AlertSignificance};
use sentinel::spool::{json_escape, SpoolRecord};

fn test_alert(message_text: String) -> Alert {
    Alert::new(
        "Tornado Warning".to_string(),
        AlertSignificance::Warning,
        "National Weather Service".to_string(),
        "KXYZ".to_string(),
        false,
        vec!["006085".to_string()],
        vec!["Central Santa Clara".to_string()],
        message_text,
    )
}

#[test]
fn spool_record_serializes_to_one_escaped_json_line() {
    let alert = test_alert("line 1\n\"quoted\" \\ path".to_string());
    let record = SpoolRecord::from_failure_at(
        "discord",
        &alert,
        2,
        "failed \"badly\"\nwithout url",
        123,
    );

    assert_eq!(
        record.to_json_line(),
        "{\"timestamp_unix_secs\":123,\"sender\":\"discord\",\"channel\":2,\"error\":\"failed \\\"badly\\\"\\nwithout url\",\"event\":\"Tornado Warning\",\"significance\":\"Warning\",\"originator\":\"National Weather Service\",\"callsign\":\"KXYZ\",\"is_national\":false,\"is_test\":false,\"location_codes\":[\"006085\"],\"location_names\":[\"Central Santa Clara\"],\"message_text\":\"line 1\\n\\\"quoted\\\" \\\\ path\"}"
    );
    assert!(!record.to_json_line().contains('\n'));
}

#[test]
fn control_characters_are_escaped_as_unicode() {
    assert_eq!(json_escape("a\u{1}b\tc\r"), "a\\u0001b\\tc\\r");
    assert_eq!(json_escape("bell\u{7f}"), "bell\\u007f");
}

#[test]
fn record_round_trips_to_its_alert() {
    let alert = test_alert("alert text".to_string());
    let record = SpoolRecord::from_failure_at("lxmf", &alert, 5, "down", 9);
    assert_eq!(record.to_alert(), alert);
    assert_eq!(record.sender, "lxmf");
    assert_eq!(record.channel, 5);
    assert_eq!(record.error, "down");
    assert_eq!(record.timestamp_unix_secs, 9);
}

#[test]
fn empty_location_lists_serialize_as_empty_arrays() {
    let alert = Alert::new(
        "Test".to_string(),
        AlertSignificance::Test,
        "o".to_string(),
        "c".to_string(),
        true,
        Vec::new(),
        Vec::new(),
        "m".to_string(),
    );
    let line = SpoolRecord::from_failure_at("meshcore", &alert, 0, "e", 0).to_json_line();
    assert!(line.contains("\"location_codes\":[],\"location_names\":[]"));
    assert!(line.contains("\"significance\":\"Test\""));
    assert!(line.contains("\"is_national\":true,\"is_test\":true"));
}
