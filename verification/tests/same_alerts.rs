use sentinel::alert::{
    alert_send_channel, format_alert_message, location_filter_accepts, location_filter_allows, Alert,
    AlertMessageParts, AlertSignificance, NO_TEST_CHANNEL,
};
use sentinel::event_contracts::{
    AlertRecord, DeliveryAttemptRecord, SenderStatusRecord, SourceState, SourceStatusRecord,
};
use sentinel::event_emitter::EventEmitter;
use sentinel::same_alerts::{
    alert_id_for, emit_same_source_status, same_message_step, LocationTable, SameAction, SameHeader,
    SameState,
};

fn strings(values: &[&str]) -> Vec<String> {
    values.iter().map(|v| v.to_string()).collect()
}

fn table() -> LocationTable {
    let mut table = LocationTable::new();
    table.insert("006085".to_string(), "Santa Clara".to_string(), "CA".to_string());
    table.insert("048201".to_string(), "Harris".to_string(), "TX".to_string());
    table
}

#[derive(Default)]
struct SourceRecorder {
    statuses: Vec<SourceStatusRecord>,
}

impl EventEmitter for SourceRecorder {
    fn emit_alert(&mut self, _record: &AlertRecord) -> Result<(), String> {
        Ok(())
    }

    fn emit_delivery_attempt(&mut self, _record: &DeliveryAttemptRecord) -> Result<(), String> {
        Ok(())
    }

    fn emit_sender_status(&mut self, _record: &SenderStatusRecord) -> Result<(), String> {
        Ok(())
    }

    fn emit_source_status(&mut self, record: &SourceStatusRecord) -> Result<(), String> {
        self.statuses.push(record.clone());
        Err("disk full".to_string())
    }
}

#[test]
fn location_names_carry_the_direction_of_the_first_digit() {
    let table = table();

    assert_eq!(table.location_name("006085").as_deref(), Some("Santa Clara"));
    assert_eq!(table.location_name("506085").as_deref(), Some("Central Santa Clara"));
    assert_eq!(table.location_name("148201").as_deref(), Some("Northwest Harris"));
    assert_eq!(table.location_name("906085").as_deref(), Some("Southeast Santa Clara"));
    assert_eq!(table.location_name("012345"), None);
}

#[test]
fn search_by_code_returns_county_and_state_and_later_entries_win() {
    let mut table = table();
    assert_eq!(
        table.search_by_code("048201"),
        Some(("Harris".to_string(), "TX".to_string()))
    );
    table.insert("048201".to_string(), "Harris County".to_string(), "TX".to_string());
    assert_eq!(
        table.search_by_code("048201"),
        Some(("Harris County".to_string(), "TX".to_string()))
    );
    assert_eq!(table.search_by_code("999999"), None);
}

#[test]
fn test_alerts_go_to_the_test_channel_unless_it_is_disabled() {
    assert_eq!(alert_send_channel(AlertSignificance::Test, 1, 4), Some(4));
    assert_eq!(alert_send_channel(AlertSignificance::Test, 1, NO_TEST_CHANNEL), None);
    assert_eq!(alert_send_channel(AlertSignificance::Warning, 1, 4), Some(1));
    assert_eq!(alert_send_channel(AlertSignificance::Statement, 0, NO_TEST_CHANNEL), Some(0));
}

#[test]
fn location_filter_passes_national_alerts_and_matching_codes() {
    let filter = strings(&["006085"]);

    assert!(location_filter_allows(true, &filter, &strings(&["048201"])));
    assert!(location_filter_allows(false, &filter, &strings(&["048201", "006085"])));
    assert!(!location_filter_allows(false, &filter, &strings(&["048201"])));
    assert!(!location_filter_allows(false, &filter, &Vec::new()));
}

#[test]
fn same_alert_ids_are_prefixed_and_deterministic() {
    let alert = Alert::new(
        "Tornado Warning".to_string(),
        AlertSignificance::Warning,
        "National Weather Service".to_string(),
        "KXYZ".to_string(),
        false,
        strings(&["006085"]),
        strings(&["Central Santa Clara"]),
        "test alert".to_string(),
    );

    let id = alert_id_for(&alert, 2, 123);

    assert!(id.starts_with("same-123-2-"));
    assert_eq!(id.len(), "same-123-2-".len() + 16);
    assert_eq!(id, alert_id_for(&alert, 2, 123));
    assert_ne!(id, alert_id_for(&alert, 3, 123));
}

#[test]
fn same_source_status_is_emitted_and_write_failures_are_ignored() {
    let mut recorder = SourceRecorder::default();

    emit_same_source_status(&mut recorder, 1000, Some(950), Some(900));

    assert_eq!(recorder.statuses.len(), 1);
    let status = &recorder.statuses[0];
    assert_eq!(status.source, "same_radio");
    assert_eq!(status.timestamp_unix_secs, 1000);
    assert_eq!(status.last_decoded_message_unix_secs, Some(950));
    assert_eq!(status.last_accepted_alert_unix_secs, Some(900));
    assert_eq!(status.state, SourceState::Healthy);
}

#[test]
fn location_filter_is_only_consulted_for_regional_alerts_with_codes() {
    let filter = strings(&["006085"]);

    assert!(location_filter_accepts(false, &Vec::new(), &strings(&["048201"])));
    assert!(location_filter_accepts(false, &filter, &Vec::new()));
    assert!(location_filter_accepts(true, &filter, &strings(&["048201"])));
    assert!(location_filter_accepts(false, &filter, &strings(&["006085"])));
    assert!(!location_filter_accepts(false, &filter, &strings(&["048201"])));
}

#[test]
fn alert_message_names_event_issuer_and_places() {
    let names = strings(&["Central Santa Clara", "North Harris"]);
    let regional = format_alert_message(AlertMessageParts {
        event: "Tornado Warning",
        significance: AlertSignificance::Warning,
        originator: "National Weather Service",
        callsign: "KXYZ",
        is_national: false,
        location_names: &names,
    });
    assert_eq!(
        regional,
        "Tornado Warning (Warning) from National Weather Service (KXYZ) for Central Santa Clara, North Harris"
    );

    let none = Vec::new();
    let national = format_alert_message(AlertMessageParts {
        event: "National Periodic Test",
        significance: AlertSignificance::Test,
        originator: "Primary Entry Point System",
        callsign: "WXYZ",
        is_national: true,
        location_names: &none,
    });
    assert_eq!(
        national,
        "National Periodic Test (Test) from Primary Entry Point System (WXYZ) for the entire United States"
    );

    let nowhere = format_alert_message(AlertMessageParts {
        event: "Flood Watch",
        significance: AlertSignificance::Watch,
        originator: "National Weather Service",
        callsign: "KXYZ",
        is_national: false,
        location_names: &none,
    });
    assert_eq!(nowhere, "Flood Watch (Watch) from National Weather Service (KXYZ)");
}

fn header(significance: AlertSignificance, is_national: bool, codes: &[&str]) -> SameHeader {
    SameHeader {
        event: "Tornado Warning".to_string(),
        significance,
        originator: "National Weather Service".to_string(),
        callsign: "KXYZ".to_string(),
        is_national,
        codes: strings(codes),
    }
}

fn fresh() -> SameState {
    SameState { last_decoded_message_unix_secs: None, last_accepted_alert_unix_secs: Some(5) }
}

#[test]
fn accepted_alert_reports_status_then_record_then_send() {
    let table = table();
    let (state, actions) = same_message_step(
        fresh(),
        header(AlertSignificance::Warning, false, &["506085", "999999"]),
        2,
        NO_TEST_CHANNEL,
        &Vec::new(),
        &table,
        100,
    );

    assert_eq!(state, SameState { last_decoded_message_unix_secs: Some(100), last_accepted_alert_unix_secs: Some(100) });
    assert_eq!(actions.len(), 4);
    match &actions[0] {
        SameAction::EmitSourceStatus(r) => {
            assert_eq!(r.last_decoded_message_unix_secs, Some(100));
            assert_eq!(r.last_accepted_alert_unix_secs, Some(5));
        }
        _ => panic!("expected the decode status first"),
    }
    match &actions[1] {
        SameAction::EmitSourceStatus(r) => assert_eq!(r.last_accepted_alert_unix_secs, Some(100)),
        _ => panic!("expected the acceptance status second"),
    }
    let record_id = match &actions[2] {
        SameAction::EmitAlertRecord(r) => {
            assert_eq!(r.source, "same");
            assert_eq!(r.timestamp_unix_secs, 100);
            assert_eq!(r.location_names, vec!["Central Santa Clara"]);
            r.alert_id.clone()
        }
        _ => panic!("expected the alert record third"),
    };
    match &actions[3] {
        SameAction::Send { alert, channel, alert_id } => {
            assert_eq!(*channel, 2);
            assert_eq!(*alert_id, record_id);
            assert_eq!(alert.location_codes, strings(&["506085", "999999"]));
            assert_eq!(
                alert.message_text,
                "Tornado Warning (Warning) from National Weather Service (KXYZ) for Central Santa Clara"
            );
        }
        _ => panic!("expected the send last"),
    }
}

#[test]
fn ignored_test_alert_only_records_the_decode() {
    let (state, actions) = same_message_step(
        fresh(),
        header(AlertSignificance::Test, false, &["506085"]),
        2,
        NO_TEST_CHANNEL,
        &Vec::new(),
        &table(),
        100,
    );

    assert_eq!(state, SameState { last_decoded_message_unix_secs: Some(100), last_accepted_alert_unix_secs: Some(5) });
    assert_eq!(actions.len(), 1);
}

#[test]
fn filtered_alert_only_records_the_decode_and_national_alerts_pass() {
    let filter = strings(&["048201"]);
    let (_, dropped) = same_message_step(
        fresh(),
        header(AlertSignificance::Warning, false, &["506085"]),
        2,
        NO_TEST_CHANNEL,
        &filter,
        &table(),
        100,
    );
    assert_eq!(dropped.len(), 1);

    let (_, national) = same_message_step(
        fresh(),
        header(AlertSignificance::Warning, true, &["506085"]),
        2,
        NO_TEST_CHANNEL,
        &filter,
        &table(),
        100,
    );
    assert_eq!(national.len(), 4);
    match &national[3] {
        SameAction::Send { alert, .. } => assert!(alert.location_names.is_empty()),
        _ => panic!("expected the send last"),
    }
}
