use sentinel::event_contracts::SourceState;
use sentinel::source_health::{source_state, source_status_record, SourceHealthInput, SourceKind};

#[test]
fn api_state_is_unknown_without_success() {
    assert_eq!(source_state(1_000, None), SourceState::Unknown);
}

#[test]
fn api_state_is_healthy_for_recent_success() {
    assert_eq!(source_state(1_000, Some(760)), SourceState::Healthy);
}

#[test]
fn api_success_record_is_healthy() {
    let record = source_status_record(SourceHealthInput::nws_api_success(1_000));

    assert_eq!(record.source, "nws_api");
    assert_eq!(record.state, SourceState::Healthy);
    assert_eq!(record.last_success_unix_secs, Some(1_000));
    assert_eq!(record.error, None);
}

#[test]
fn api_state_is_degraded_after_five_minutes_without_success() {
    assert_eq!(source_state(1_000, Some(699)), SourceState::Degraded);
}

#[test]
fn api_state_is_offline_after_fifteen_minutes_without_success() {
    assert_eq!(source_state(1_000, Some(99)), SourceState::Offline);
}

#[test]
fn same_state_uses_last_decoded_message() {
    let record = source_status_record(SourceHealthInput::same_radio(1_000, Some(800), None));

    assert_eq!(record.source, "same_radio");
    assert_eq!(record.state, SourceState::Healthy);
    assert_eq!(record.last_decoded_message_unix_secs, Some(800));
}

#[test]
fn same_state_uses_last_accepted_alert_when_decode_time_is_missing() {
    let record = source_status_record(SourceHealthInput::same_radio(1_000, None, Some(500)));

    assert_eq!(record.state, SourceState::Degraded);
    assert_eq!(record.last_accepted_alert_unix_secs, Some(500));
}

#[test]
fn failure_record_preserves_error_summary() {
    let record = source_status_record(SourceHealthInput::nws_api_failure(
        1_000,
        "network down".into(),
    ));

    assert_eq!(record.source, "nws_api");
    assert_eq!(record.state, SourceState::Unknown);
    assert_eq!(record.last_failure_unix_secs, Some(1_000));
    assert_eq!(record.error.as_deref(), Some("network down"));
}

#[test]
fn state_thresholds_are_inclusive() {
    assert_eq!(source_state(1_000, Some(700)), SourceState::Healthy);
    assert_eq!(source_state(1_000, Some(100)), SourceState::Degraded);
    assert_eq!(source_state(1_000, Some(2_000)), SourceState::Healthy);
}

#[test]
fn older_observation_is_never_healthier() {
    let rank = |s: SourceState| match s {
        SourceState::Healthy => 0,
        SourceState::Degraded => 1,
        SourceState::Offline => 2,
        SourceState::Unknown => 3,
    };
    assert!(rank(source_state(1_000, Some(0))) >= rank(source_state(1_000, Some(500))));
    assert!(rank(source_state(1_000, Some(500))) >= rank(source_state(1_000, Some(900))));
}

#[test]
fn source_kind_names() {
    assert_eq!(SourceKind::NwsApi.as_str(), "nws_api");
    assert_eq!(SourceKind::SameRadio.as_str(), "same_radio");
}
