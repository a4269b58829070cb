use sentinel::alert::Alert;
use sentinel::dedup::DedupGate;
use sentinel::event_contracts::{
    AlertRecord, DeliveryAttemptRecord, DeliveryAttemptStatus, SenderStatusRecord, SourceState,
    SourceStatusRecord,
};
use sentinel::event_emitter::EventEmitter;
use sentinel::normalized_alert::NormalizedAlert;
use sentinel::nws_client::{NwsAlertCollection, NwsAlertFeature, NwsAlertProperties, NwsGeocode};
use sentinel::nws_polling::{
    process_nws_alert_collection, run_nws_polling_iterations, run_nws_polling_once,
    ActiveAlertFetcher, FanOutNwsAlertDelivery, NwsAlertDelivery, NwsPollingConfig,
    NwsPollingSummary, NwsSourceHealth, PollClock, PollSleeper, DEFAULT_NWS_POLL_SECONDS,
};
use sentinel::sender::{FanOut, Sender};
use sentinel::spool::{SpoolRecord, Spooler};
use std::cell::RefCell;
use std::rc::Rc;

fn some(value: &str) -> Option<String> {
    Some(value.to_string())
}

fn empty_properties() -> NwsAlertProperties {
    NwsAlertProperties {
        id: None,
        event: None,
        headline: None,
        description: None,
        instruction: None,
        severity: None,
        urgency: None,
        certainty: None,
        effective: None,
        expires: None,
        ends: None,
        status: None,
        message_type: None,
        area_desc: None,
        geocode: None,
    }
}

fn minimal_collection() -> NwsAlertCollection {
    NwsAlertCollection {
        features: vec![NwsAlertFeature {
            id: "https://api.weather.gov/alerts/urn:oid:1".to_string(),
            properties: NwsAlertProperties {
                id: some("urn:oid:1"),
                event: some("Tornado Warning"),
                headline: some("Tornado Warning issued June 16 at 1:00PM CDT"),
                description: some("A tornado warning is in effect."),
                instruction: some("Take shelter now."),
                severity: some("Extreme"),
                urgency: some("Immediate"),
                certainty: some("Observed"),
                effective: some("2026-06-16T13:00:00-05:00"),
                expires: some("2026-06-16T13:45:00-05:00"),
                area_desc: some("Central Harris County"),
                geocode: Some(NwsGeocode {
                    same: Some(vec!["048201".to_string()]),
                    ugc: Some(vec!["TXC201".to_string()]),
                }),
                ..empty_properties()
            },
        }],
    }
}

fn empty_collection() -> NwsAlertCollection {
    NwsAlertCollection { features: Vec::new() }
}

fn missing_event_collection() -> NwsAlertCollection {
    NwsAlertCollection {
        features: vec![NwsAlertFeature {
            id: "https://api.weather.gov/alerts/urn:oid:3".to_string(),
            properties: NwsAlertProperties { id: some("urn:oid:3"), ..empty_properties() },
        }],
    }
}

struct MockFetcher {
    responses: RefCell<Vec<Result<NwsAlertCollection, String>>>,
    calls: RefCell<usize>,
}

impl MockFetcher {
    fn new(responses: Vec<Result<NwsAlertCollection, String>>) -> Self {
        Self { responses: RefCell::new(responses), calls: RefCell::new(0) }
    }
}

impl ActiveAlertFetcher for MockFetcher {
    fn fetch_active_alerts(&self) -> Result<NwsAlertCollection, String> {
        *self.calls.borrow_mut() += 1;
        self.responses.borrow_mut().remove(0)
    }
}

struct FixedClock {
    now_unix_secs: u64,
}

impl PollClock for FixedClock {
    fn now_unix_secs(&self) -> u64 {
        self.now_unix_secs
    }
}

#[derive(Default)]
struct RecordingSleeper {
    sleeps: Vec<u64>,
}

impl PollSleeper for RecordingSleeper {
    fn sleep(&mut self, seconds: u64) {
        self.sleeps.push(seconds);
    }
}

#[derive(Default)]
struct RecordingDelivery {
    alerts: RefCell<Vec<NormalizedAlert>>,
    statuses: RefCell<Vec<SourceStatusRecord>>,
    error: Option<&'static str>,
}

impl RecordingDelivery {
    fn with_error(error: &'static str) -> Self {
        Self { error: Some(error), ..RecordingDelivery::default() }
    }
}

impl NwsAlertDelivery for RecordingDelivery {
    fn deliver_alert(&mut self, alert: &NormalizedAlert, _timestamp_unix_secs: u64) -> Result<(), String> {
        self.alerts.borrow_mut().push(alert.clone());
        match self.error {
            Some(error) => Err(error.to_string()),
            None => Ok(()),
        }
    }

    fn record_source_status(&mut self, record: &SourceStatusRecord) {
        self.statuses.borrow_mut().push(record.clone());
    }
}

struct RecordingSender {
    label: &'static str,
    calls: Rc<RefCell<Vec<&'static str>>>,
    send_error: Option<&'static str>,
}

impl RecordingSender {
    fn new(label: &'static str, calls: Rc<RefCell<Vec<&'static str>>>) -> Self {
        Self { label, calls, send_error: None }
    }

    fn with_send_error(mut self, error: &'static str) -> Self {
        self.send_error = Some(error);
        self
    }
}

impl Sender for RecordingSender {
    fn name(&self) -> &'static str {
        self.label
    }

    fn check_ready(&self) -> Result<(), String> {
        Ok(())
    }

    fn send_alert(&mut self, _alert: &Alert, _channel: u32) -> Result<(), String> {
        self.calls.borrow_mut().push(self.label);
        match self.send_error {
            Some(error) => Err(error.to_string()),
            None => Ok(()),
        }
    }
}

struct RecordingSpooler {
    records: Rc<RefCell<Vec<SpoolRecord>>>,
}

impl Spooler for RecordingSpooler {
    fn spool(&mut self, record: &SpoolRecord) -> Result<(), String> {
        self.records.borrow_mut().push(record.clone());
        Ok(())
    }
}

#[derive(Default)]
struct RecordingEventEmitter {
    alerts: Rc<RefCell<Vec<AlertRecord>>>,
    delivery_attempts: Rc<RefCell<Vec<DeliveryAttemptRecord>>>,
    source_statuses: Rc<RefCell<Vec<SourceStatusRecord>>>,
}

impl EventEmitter for RecordingEventEmitter {
    fn emit_alert(&mut self, record: &AlertRecord) -> Result<(), String> {
        self.alerts.borrow_mut().push(record.clone());
        Ok(())
    }

    fn emit_delivery_attempt(&mut self, record: &DeliveryAttemptRecord) -> Result<(), String> {
        self.delivery_attempts.borrow_mut().push(record.clone());
        Ok(())
    }

    fn emit_sender_status(&mut self, _record: &SenderStatusRecord) -> Result<(), String> {
        Ok(())
    }

    fn emit_source_status(&mut self, record: &SourceStatusRecord) -> Result<(), String> {
        self.source_statuses.borrow_mut().push(record.clone());
        Ok(())
    }
}

fn meshtastic_fanout(calls: &Rc<RefCell<Vec<&'static str>>>) -> FanOut {
    FanOut::new(vec![Box::new(RecordingSender::new("meshtastic", Rc::clone(calls)))])
}

#[test]
fn polling_config_rejects_zero_interval() {
    let error = NwsPollingConfig::new(0).unwrap_err();

    assert!(error.to_string().contains("--nws-poll-seconds must be greater than 0"));
}

#[test]
fn polling_config_accepts_default_interval() {
    let config = NwsPollingConfig::new(DEFAULT_NWS_POLL_SECONDS).unwrap();

    assert_eq!(config.poll_seconds, 60);
}

#[test]
fn api_fetch_path_is_used() {
    let fetcher = MockFetcher::new(vec![Ok(empty_collection())]);
    let clock = FixedClock { now_unix_secs: 100 };
    let mut dedup_gate = DedupGate::default();
    let mut source_health = NwsSourceHealth::default();
    let mut delivery = RecordingDelivery::default();

    let summary =
        run_nws_polling_once(&fetcher, &mut dedup_gate, &mut source_health, &clock, &mut delivery).unwrap();

    assert_eq!(*fetcher.calls.borrow(), 1);
    assert_eq!(summary.fetched_alerts, 0);
}

#[test]
fn poll_loop_delivers_accepted_alerts() {
    let fetcher = MockFetcher::new(vec![Ok(minimal_collection())]);
    let clock = FixedClock { now_unix_secs: 100 };
    let mut dedup_gate = DedupGate::default();
    let mut source_health = NwsSourceHealth::default();
    let mut delivery = RecordingDelivery::default();

    let summary =
        run_nws_polling_once(&fetcher, &mut dedup_gate, &mut source_health, &clock, &mut delivery).unwrap();

    assert_eq!(
        summary,
        NwsPollingSummary {
            fetched_alerts: 1,
            normalized_alerts: 1,
            accepted_alerts: 1,
            duplicate_alerts: 0,
            normalization_errors: 0,
            delivery_failures: 0,
        }
    );
    assert_eq!(delivery.alerts.borrow().len(), 1);
}

#[test]
fn dedup_path_suppresses_duplicate_alerts() {
    let fetcher = MockFetcher::new(vec![Ok(minimal_collection()), Ok(minimal_collection())]);
    let clock = FixedClock { now_unix_secs: 100 };
    let mut sleeper = RecordingSleeper::default();
    let config = NwsPollingConfig::new(60).unwrap();
    let mut dedup_gate = DedupGate::default();
    let mut source_health = NwsSourceHealth::default();
    let mut delivery = RecordingDelivery::default();

    let summaries = run_nws_polling_iterations(
        &fetcher,
        &mut dedup_gate,
        &mut source_health,
        &config,
        &clock,
        &mut sleeper,
        &mut delivery,
        2,
    )
    .unwrap();

    assert_eq!(summaries[0].accepted_alerts, 1);
    assert_eq!(summaries[0].duplicate_alerts, 0);
    assert_eq!(summaries[1].accepted_alerts, 0);
    assert_eq!(summaries[1].duplicate_alerts, 1);
    assert_eq!(delivery.alerts.borrow().len(), 1);
}

#[test]
fn poll_loop_uses_configured_sleep_between_iterations() {
    let fetcher = MockFetcher::new(vec![Ok(empty_collection()), Ok(empty_collection())]);
    let clock = FixedClock { now_unix_secs: 100 };
    let mut sleeper = RecordingSleeper::default();
    let config = NwsPollingConfig::new(12).unwrap();
    let mut dedup_gate = DedupGate::default();
    let mut source_health = NwsSourceHealth::default();
    let mut delivery = RecordingDelivery::default();

    let summaries = run_nws_polling_iterations(
        &fetcher,
        &mut dedup_gate,
        &mut source_health,
        &config,
        &clock,
        &mut sleeper,
        &mut delivery,
        2,
    )
    .unwrap();

    assert_eq!(summaries.len(), 2);
    assert_eq!(sleeper.sleeps.as_slice(), &[12]);
}

#[test]
fn normalization_errors_are_counted_without_stopping_poll_processing() {
    let fetcher = MockFetcher::new(vec![Ok(missing_event_collection())]);
    let clock = FixedClock { now_unix_secs: 100 };
    let mut dedup_gate = DedupGate::default();
    let mut source_health = NwsSourceHealth::default();
    let mut delivery = RecordingDelivery::default();

    let summary =
        run_nws_polling_once(&fetcher, &mut dedup_gate, &mut source_health, &clock, &mut delivery).unwrap();

    assert_eq!(summary.fetched_alerts, 1);
    assert_eq!(summary.normalized_alerts, 0);
    assert_eq!(summary.accepted_alerts, 0);
    assert_eq!(summary.normalization_errors, 1);
    assert!(delivery.alerts.borrow().is_empty());
}

#[test]
fn fetch_failure_returns_clear_error() {
    let fetcher = MockFetcher::new(vec![Err("network unavailable".to_string())]);
    let clock = FixedClock { now_unix_secs: 100 };
    let mut dedup_gate = DedupGate::default();
    let mut source_health = NwsSourceHealth::default();
    let mut delivery = RecordingDelivery::default();

    let error =
        run_nws_polling_once(&fetcher, &mut dedup_gate, &mut source_health, &clock, &mut delivery).unwrap_err();

    assert!(error.to_string().contains("network unavailable"));
    assert!(delivery.alerts.borrow().is_empty());
}

#[test]
fn api_success_emits_healthy_source_status_when_events_are_enabled() {
    let calls = Rc::new(RefCell::new(Vec::new()));
    let source_statuses = Rc::new(RefCell::new(Vec::new()));
    let emitter = RecordingEventEmitter {
        source_statuses: Rc::clone(&source_statuses),
        ..RecordingEventEmitter::default()
    };
    let fetcher = MockFetcher::new(vec![Ok(empty_collection())]);
    let clock = FixedClock { now_unix_secs: 100 };
    let mut dedup_gate = DedupGate::default();
    let mut source_health = NwsSourceHealth::default();
    let mut delivery = FanOutNwsAlertDelivery::new(meshtastic_fanout(&calls), 2, Some(Box::new(emitter)));

    let summary =
        run_nws_polling_once(&fetcher, &mut dedup_gate, &mut source_health, &clock, &mut delivery).unwrap();

    assert_eq!(summary.fetched_alerts, 0);
    let statuses = source_statuses.borrow();
    assert_eq!(statuses.len(), 1);
    assert_eq!(statuses[0].source, "nws_api");
    assert_eq!(statuses[0].state, SourceState::Healthy);
    assert_eq!(statuses[0].last_success_unix_secs, Some(100));
}

#[test]
fn api_failure_emits_source_status_without_delivery() {
    let calls = Rc::new(RefCell::new(Vec::new()));
    let source_statuses = Rc::new(RefCell::new(Vec::new()));
    let emitter = RecordingEventEmitter {
        source_statuses: Rc::clone(&source_statuses),
        ..RecordingEventEmitter::default()
    };
    let fetcher = MockFetcher::new(vec![Err("network unavailable".to_string())]);
    let clock = FixedClock { now_unix_secs: 100 };
    let mut dedup_gate = DedupGate::default();
    let mut source_health = NwsSourceHealth::default();
    let mut delivery = FanOutNwsAlertDelivery::new(meshtastic_fanout(&calls), 2, Some(Box::new(emitter)));

    let error =
        run_nws_polling_once(&fetcher, &mut dedup_gate, &mut source_health, &clock, &mut delivery).unwrap_err();

    assert!(error.to_string().contains("network unavailable"));
    assert!(calls.borrow().is_empty());
    let statuses = source_statuses.borrow();
    assert_eq!(statuses.len(), 1);
    assert_eq!(statuses[0].source, "nws_api");
    assert_eq!(statuses[0].last_failure_unix_secs, Some(100));
    assert_eq!(statuses[0].error.as_deref(), Some("network unavailable"));
}

#[test]
fn delivery_failure_is_counted_without_stopping_poll_processing() {
    let fetcher = MockFetcher::new(vec![Ok(minimal_collection())]);
    let clock = FixedClock { now_unix_secs: 100 };
    let mut dedup_gate = DedupGate::default();
    let mut source_health = NwsSourceHealth::default();
    let mut delivery = RecordingDelivery::with_error("delivery unavailable");

    let summary =
        run_nws_polling_once(&fetcher, &mut dedup_gate, &mut source_health, &clock, &mut delivery).unwrap();

    assert_eq!(summary.accepted_alerts, 1);
    assert_eq!(summary.delivery_failures, 1);
    assert_eq!(delivery.alerts.borrow().len(), 1);
}

#[test]
fn api_accepted_alert_sends_through_fanout() {
    let calls = Rc::new(RefCell::new(Vec::new()));
    let mut delivery = FanOutNwsAlertDelivery::new(meshtastic_fanout(&calls), 2, None);
    let mut dedup_gate = DedupGate::default();

    let summary = process_nws_alert_collection(minimal_collection(), &mut dedup_gate, 100, &mut delivery);

    assert_eq!(summary.accepted_alerts, 1);
    assert_eq!(summary.delivery_failures, 0);
    assert_eq!(*calls.borrow(), vec!["meshtastic"]);
}

#[test]
fn duplicate_api_alert_is_suppressed_before_fanout() {
    let calls = Rc::new(RefCell::new(Vec::new()));
    let mut delivery = FanOutNwsAlertDelivery::new(meshtastic_fanout(&calls), 2, None);
    let mut dedup_gate = DedupGate::default();

    let first = process_nws_alert_collection(minimal_collection(), &mut dedup_gate, 100, &mut delivery);
    let second = process_nws_alert_collection(minimal_collection(), &mut dedup_gate, 101, &mut delivery);

    assert_eq!(first.accepted_alerts, 1);
    assert_eq!(second.accepted_alerts, 0);
    assert_eq!(second.duplicate_alerts, 1);
    assert_eq!(*calls.borrow(), vec!["meshtastic"]);
}

#[test]
fn required_sender_failure_is_reported_as_delivery_failure() {
    let calls = Rc::new(RefCell::new(Vec::new()));
    let fanout = FanOut::new(vec![Box::new(
        RecordingSender::new("meshtastic", Rc::clone(&calls)).with_send_error("required unavailable"),
    )]);
    let mut delivery = FanOutNwsAlertDelivery::new(fanout, 2, None);
    let mut dedup_gate = DedupGate::default();

    let summary = process_nws_alert_collection(minimal_collection(), &mut dedup_gate, 100, &mut delivery);

    assert_eq!(summary.accepted_alerts, 1);
    assert_eq!(summary.delivery_failures, 1);
    assert_eq!(*calls.borrow(), vec!["meshtastic"]);
}

#[test]
fn best_effort_sender_failure_does_not_fail_api_delivery_and_is_spooled() {
    let calls = Rc::new(RefCell::new(Vec::new()));
    let spooled = Rc::new(RefCell::new(Vec::new()));
    let fanout = FanOut::with_best_effort(
        vec![Box::new(RecordingSender::new("meshtastic", Rc::clone(&calls)))],
        vec![Box::new(
            RecordingSender::new("discord", Rc::clone(&calls)).with_send_error("webhook unavailable"),
        )],
    )
    .with_spooler(Box::new(RecordingSpooler { records: Rc::clone(&spooled) }));
    let mut delivery = FanOutNwsAlertDelivery::new(fanout, 2, None);
    let mut dedup_gate = DedupGate::default();

    let summary = process_nws_alert_collection(minimal_collection(), &mut dedup_gate, 100, &mut delivery);

    assert_eq!(summary.delivery_failures, 0);
    assert_eq!(*calls.borrow(), vec!["meshtastic", "discord"]);
    let records = spooled.borrow();
    assert_eq!(records.len(), 1);
    assert_eq!(records[0].sender, "discord");
    assert_eq!(records[0].channel, 2);
    assert_eq!(records[0].error, "webhook unavailable");
}

#[test]
fn event_emission_records_nws_api_source_when_enabled() {
    let calls = Rc::new(RefCell::new(Vec::new()));
    let alerts = Rc::new(RefCell::new(Vec::new()));
    let attempts = Rc::new(RefCell::new(Vec::new()));
    let emitter = RecordingEventEmitter {
        alerts: Rc::clone(&alerts),
        delivery_attempts: Rc::clone(&attempts),
        source_statuses: Rc::new(RefCell::new(Vec::new())),
    };
    let mut delivery = FanOutNwsAlertDelivery::new(meshtastic_fanout(&calls), 2, Some(Box::new(emitter)));
    let mut dedup_gate = DedupGate::default();

    let summary = process_nws_alert_collection(minimal_collection(), &mut dedup_gate, 100, &mut delivery);

    assert_eq!(summary.delivery_failures, 0);
    let alerts = alerts.borrow();
    assert_eq!(alerts.len(), 1);
    assert_eq!(alerts[0].source, "nws_api");
    assert!(alerts[0].alert_id.starts_with("nws-api-100-2-"));
    let attempts = attempts.borrow();
    assert_eq!(attempts.len(), 1);
    assert_eq!(attempts[0].sender, "meshtastic");
    assert!(attempts[0].required);
    assert_eq!(attempts[0].status, DeliveryAttemptStatus::Success);
    assert_eq!(attempts[0].alert_id, alerts[0].alert_id);
}

#[test]
fn api_delivery_without_event_emitter_emits_no_event_records() {
    let calls = Rc::new(RefCell::new(Vec::new()));
    let mut delivery = FanOutNwsAlertDelivery::new(meshtastic_fanout(&calls), 2, None);
    let mut dedup_gate = DedupGate::default();

    let summary = process_nws_alert_collection(minimal_collection(), &mut dedup_gate, 100, &mut delivery);

    assert_eq!(summary.delivery_failures, 0);
    assert_eq!(*calls.borrow(), vec!["meshtastic"]);
}

#[test]
fn failed_poll_stops_iterations_and_returns_the_error() {
    let fetcher = MockFetcher::new(vec![Ok(empty_collection()), Err("down".to_string()), Ok(empty_collection())]);
    let clock = FixedClock { now_unix_secs: 100 };
    let mut sleeper = RecordingSleeper::default();
    let config = NwsPollingConfig::new(5).unwrap();
    let mut dedup_gate = DedupGate::default();
    let mut source_health = NwsSourceHealth::default();
    let mut delivery = RecordingDelivery::default();

    let error = run_nws_polling_iterations(
        &fetcher,
        &mut dedup_gate,
        &mut source_health,
        &config,
        &clock,
        &mut sleeper,
        &mut delivery,
        3,
    )
    .unwrap_err();

    assert_eq!(error, "down");
    assert_eq!(*fetcher.calls.borrow(), 2);
    assert_eq!(delivery.statuses.borrow().len(), 2);
    assert_eq!(sleeper.sleeps.as_slice(), &[5]);
}

#[test]
fn three_polls_wait_twice_and_not_after_the_last() {
    let fetcher = MockFetcher::new(vec![Ok(empty_collection()), Ok(empty_collection()), Ok(empty_collection())]);
    let clock = FixedClock { now_unix_secs: 100 };
    let mut sleeper = RecordingSleeper::default();
    let config = NwsPollingConfig::new(7).unwrap();
    let mut dedup_gate = DedupGate::default();
    let mut source_health = NwsSourceHealth::default();
    let mut delivery = RecordingDelivery::default();

    let summaries = run_nws_polling_iterations(
        &fetcher,
        &mut dedup_gate,
        &mut source_health,
        &config,
        &clock,
        &mut sleeper,
        &mut delivery,
        3,
    )
    .unwrap();

    assert_eq!(summaries.len(), 3);
    assert_eq!(sleeper.sleeps.as_slice(), &[7, 7]);
}
