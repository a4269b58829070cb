use sentinel::alert::AlertSignificance;
use sentinel::dashboard_view::{escape_html, option_u32, option_u64, render_dashboard, status_label};
use sentinel::event_contracts::{
    AlertRecord, DeliveryAttemptRecord, DeliveryAttemptStatus, SenderStatusRecord,
    EVENT_CONTRACT_SCHEMA_VERSION,
};
use sentinel::event_log_reader::{AttemptGroup, DashboardData};

fn alert_record(alert_id: &str, event: &str) -> AlertRecord {
    AlertRecord {
        schema_version: EVENT_CONTRACT_SCHEMA_VERSION,
        record_type: "alert".to_string(),
        alert_id: alert_id.to_string(),
        timestamp_unix_secs: 10,
        source: "same".to_string(),
        event: event.to_string(),
        significance: AlertSignificance::Warning,
        originator: "National Weather Service".to_string(),
        callsign: "KXYZ".to_string(),
        is_national: false,
        is_test: false,
        location_codes: vec!["006085".to_string()],
        location_names: vec!["Central Santa Clara".to_string()],
        message_text: "alert <text>".to_string(),
    }
}

fn delivery_attempt(alert_id: &str, sender: &str, status: DeliveryAttemptStatus) -> DeliveryAttemptRecord {
    DeliveryAttemptRecord {
        schema_version: EVENT_CONTRACT_SCHEMA_VERSION,
        record_type: "delivery_attempt".to_string(),
        alert_id: alert_id.to_string(),
        timestamp_unix_secs: 11,
        sender: sender.to_string(),
        required: sender == "meshtastic",
        channel: Some(0),
        status,
        error: if sender == "discord" {
            Some("webhook unavailable".to_string())
        } else {
            None
        },
    }
}

fn sender_status(sender: &str, ready: bool) -> SenderStatusRecord {
    SenderStatusRecord {
        schema_version: EVENT_CONTRACT_SCHEMA_VERSION,
        record_type: "sender_status".to_string(),
        timestamp_unix_secs: 12,
        sender: sender.to_string(),
        configured: true,
        required: sender == "meshtastic",
        ready,
        last_success_unix_secs: if ready { Some(12) } else { None },
        last_failure_unix_secs: if ready { None } else { Some(12) },
        error: if ready {
            None
        } else {
            Some("unavailable".to_string())
        },
    }
}

fn dashboard_data() -> DashboardData {
    DashboardData {
        alerts: vec![alert_record("alert-1", "Tornado Warning")],
        delivery_attempts_by_alert: vec![AttemptGroup {
            alert_id: "alert-1".to_string(),
            attempts: vec![
                delivery_attempt("alert-1", "meshtastic", DeliveryAttemptStatus::Success),
                delivery_attempt("alert-1", "discord", DeliveryAttemptStatus::Failure),
            ],
        }],
        sender_statuses: vec![sender_status("meshtastic", true), sender_status("discord", false)],
        malformed_lines: 0,
        parsed_records: 5,
        truncated_records: 0,
        read_error: None,
    }
}

#[test]
fn rendered_html_contains_no_external_assets() {
    let html = render_dashboard("events.jsonl", &dashboard_data());

    assert!(html.contains("Sentinel Dashboard"));
    assert!(html.contains("Tornado Warning"));
    assert!(html.contains("meshtastic"));
    assert!(html.contains("alert &lt;text&gt;"));
    assert!(!html.contains("http://"));
    assert!(!html.contains("https://"));
    assert!(!html.contains("<script"));
    assert!(!html.to_lowercase().contains("cdn"));
}

#[test]
fn summary_counts_render_correctly() {
    let html = render_dashboard("events.jsonl", &dashboard_data());

    assert!(html.contains("Operator Summary"));
    assert!(html.contains("<strong>1</strong><span>Recent Alerts</span>"));
    assert!(html.contains("<strong>1</strong><span>Senders Ready</span>"));
    assert!(html.contains("<strong>1</strong><span>Senders Not Ready</span>"));
    assert!(html.contains("<strong>1</strong><span>Delivery Success</span>"));
    assert!(html.contains("<strong>1</strong><span>Delivery Failure</span>"));
}

#[test]
fn latest_sender_status_cards_render_correctly() {
    let html = render_dashboard("events.jsonl", &dashboard_data());

    assert!(html.contains("<strong>meshtastic</strong><span class=\"ok\">ready</span>"));
    assert!(html.contains("<strong>discord</strong><span class=\"bad\">not ready</span>"));
    assert!(html.contains("required sender"));
    assert!(html.contains("best-effort sender"));
}

#[test]
fn alert_cards_include_grouped_delivery_attempts() {
    let html = render_dashboard("events.jsonl", &dashboard_data());

    assert!(html.contains("<article class=\"alert-card\">"));
    assert!(html.contains("<h3>Delivery Attempts</h3>"));
    assert!(html.contains("<td>meshtastic</td>"));
    assert!(html.contains("<td>discord</td>"));
    assert!(html.contains("webhook unavailable"));
}

#[test]
fn health_warnings_render_clearly() {
    let data = DashboardData {
        read_error: Some("Unable to read event log: missing".to_string()),
        malformed_lines: 2,
        truncated_records: 4,
        ..DashboardData::default()
    };

    let html = render_dashboard("missing.jsonl", &data);

    assert!(html.contains("Unable to read event log: missing"));
    assert!(html.contains("Malformed event log lines were skipped."));
    assert!(html.contains("Display cap reached"));
    assert!(html.contains("No alert records found."));
}

#[test]
fn auto_refresh_is_meta_refresh_only() {
    let html = render_dashboard("events.jsonl", &dashboard_data());

    assert!(html.contains("<meta http-equiv=\"refresh\" content=\"30\">"));
    assert!(!html.contains("<script"));
}

#[test]
fn escape_html_replaces_markup_characters() {
    assert_eq!(escape_html("<a href=\"x\">O'Neil & co</a>"), "&lt;a href=&quot;x&quot;&gt;O&#39;Neil &amp; co&lt;/a&gt;");
    assert_eq!(escape_html("plain text"), "plain text");
    assert_eq!(escape_html(""), "");
}

#[test]
fn optional_numbers_render_as_value_or_empty() {
    assert_eq!(option_u64(Some(42)), "42");
    assert_eq!(option_u64(None), "");
    assert_eq!(option_u32(Some(7)), "7");
    assert_eq!(option_u32(None), "");
}

#[test]
fn status_labels_carry_their_css_class() {
    assert_eq!(status_label(&DeliveryAttemptStatus::Success), "<span class=\"ok\">success</span>");
    assert_eq!(status_label(&DeliveryAttemptStatus::Failure), "<span class=\"bad\">failure</span>");
    assert_eq!(status_label(&DeliveryAttemptStatus::Skipped), "<span class=\"muted\">skipped</span>");
}

#[test]
fn event_log_path_is_escaped_in_the_page() {
    let html = render_dashboard("<events>.jsonl", &DashboardData::default());
    assert!(html.contains("&lt;events&gt;.jsonl"));
    assert!(!html.contains("<events>"));
}

#[test]
fn scripts_in_the_event_log_never_reach_the_page() {
    let mut data = dashboard_data();
    data.alerts[0].event = "<script>alert(1)</script>".to_string();
    data.alerts[0].message_text = "<script src=x>".to_string();
    data.sender_statuses[0].sender = "<script>".to_string();
    data.delivery_attempts_by_alert[0].attempts[1].error = Some("<script>".to_string());
    data.read_error = Some("<script>".to_string());
    let html = render_dashboard("<script>.jsonl", &data);

    assert!(!html.contains("<script"));
    assert!(html.contains("&lt;script&gt;alert(1)&lt;/script&gt;"));
}
