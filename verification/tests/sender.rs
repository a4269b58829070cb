use sentinel::alert::{Alert, AlertSignificance};
use sentinel::event_contracts::{
    AlertRecord, DeliveryAttemptRecord, DeliveryAttemptStatus, SenderStatusRecord,
    SourceStatusRecord,
};
use sentinel::event_emitter::EventEmitter;
use sentinel::sender::{FanOut, Sender};
use sentinel::spool::{SpoolRecord, Spooler};
use std::cell::{Cell, RefCell};
use std::rc::Rc;

struct RecordingSender {
    label: &'static str,
    calls: Rc<RefCell<Vec<&'static str>>>,
    ready_error: Option<&'static str>,
    send_error: Option<&'static str>,
    send_count: Rc<Cell<u32>>,
}

impl RecordingSender {
    fn new(label: &'static str, calls: Rc<RefCell<Vec<&'static str>>>) -> Self {
        Self {
            label,
            calls,
            ready_error: None,
            send_error: None,
            send_count: Rc::new(Cell::new(0)),
        }
    }

    fn with_send_error(mut self, error: &'static str) -> Self {
        self.send_error = Some(error);
        self
    }

    fn with_ready_error(mut self, error: &'static str) -> Self {
        self.ready_error = Some(error);
        self
    }
}

impl Sender for RecordingSender {
    fn name(&self) -> &'static str {
        self.label
    }

    fn check_ready(&self) -> Result<(), String> {
        match self.ready_error {
            Some(error) => Err(error.to_string()),
            None => Ok(()),
        }
    }

    fn send_alert(&mut self, _alert: &Alert, _channel: u32) -> Result<(), String> {
        self.calls.borrow_mut().push(self.label);
        self.send_count.set(self.send_count.get() + 1);
        match self.send_error {
            Some(error) => Err(error.to_string()),
            None => Ok(()),
        }
    }
}

struct RecordingSpooler {
    records: Rc<RefCell<Vec<SpoolRecord>>>,
    error: Option<&'static str>,
}

impl Spooler for RecordingSpooler {
    fn spool(&mut self, record: &SpoolRecord) -> Result<(), String> {
        self.records.borrow_mut().push(record.clone());
        match self.error {
            Some(error) => Err(error.to_string()),
            None => Ok(()),
        }
    }
}

struct RecordingEventEmitter {
    delivery_attempts: Rc<RefCell<Vec<DeliveryAttemptRecord>>>,
    sender_statuses: Rc<RefCell<Vec<SenderStatusRecord>>>,
    error: Option<&'static str>,
}

impl RecordingEventEmitter {
    fn new(
        delivery_attempts: Rc<RefCell<Vec<DeliveryAttemptRecord>>>,
        sender_statuses: Rc<RefCell<Vec<SenderStatusRecord>>>,
    ) -> Self {
        Self {
            delivery_attempts,
            sender_statuses,
            error: None,
        }
    }

    fn with_error(mut self, error: &'static str) -> Self {
        self.error = Some(error);
        self
    }

    fn result(&self) -> Result<(), String> {
        match self.error {
            Some(error) => Err(error.to_string()),
            None => Ok(()),
        }
    }
}

impl EventEmitter for RecordingEventEmitter {
    fn emit_alert(&mut self, _record: &AlertRecord) -> Result<(), String> {
        self.result()
    }

    fn emit_delivery_attempt(&mut self, record: &DeliveryAttemptRecord) -> Result<(), String> {
        self.delivery_attempts.borrow_mut().push(record.clone());
        self.result()
    }

    fn emit_sender_status(&mut self, record: &SenderStatusRecord) -> Result<(), String> {
        self.sender_statuses.borrow_mut().push(record.clone());
        self.result()
    }

    fn emit_source_status(&mut self, _record: &SourceStatusRecord) -> Result<(), String> {
        self.result()
    }
}

fn test_alert() -> Alert {
    Alert::new(
        "Tornado Warning".to_string(),
        AlertSignificance::Warning,
        "National Weather Service".to_string(),
        "KXYZ".to_string(),
        false,
        Vec::new(),
        Vec::new(),
        "test alert".to_string(),
    )
}

#[test]
fn required_sender_failure_returns_error() {
    let calls = Rc::new(RefCell::new(Vec::new()));
    let mut fanout = FanOut::new(vec![Box::new(
        RecordingSender::new("required", Rc::clone(&calls)).with_send_error("required failed"),
    )]);

    assert!(fanout.send_alert(&test_alert(), 0).is_err());
    assert_eq!(*calls.borrow(), vec!["required"]);
}

#[test]
fn best_effort_sender_failure_does_not_block_required_sender() {
    let calls = Rc::new(RefCell::new(Vec::new()));
    let mut fanout = FanOut::with_best_effort(
        vec![Box::new(RecordingSender::new("required", Rc::clone(&calls)))],
        vec![Box::new(
            RecordingSender::new("best-effort", Rc::clone(&calls))
                .with_send_error("optional failed"),
        )],
    );

    assert!(fanout.send_alert(&test_alert(), 0).is_ok());
    assert_eq!(*calls.borrow(), vec!["required", "best-effort"]);
}

#[test]
fn best_effort_readiness_failure_does_not_fail_startup() {
    let calls = Rc::new(RefCell::new(Vec::new()));
    let fanout = FanOut::with_best_effort(
        vec![Box::new(RecordingSender::new("required", Rc::clone(&calls)))],
        vec![Box::new(
            RecordingSender::new("best-effort", Rc::clone(&calls))
                .with_ready_error("optional unavailable"),
        )],
    );

    assert!(fanout.check_ready().is_ok());
}

#[test]
fn best_effort_sender_failure_is_spooled_when_configured() {
    let calls = Rc::new(RefCell::new(Vec::new()));
    let spooled = Rc::new(RefCell::new(Vec::new()));
    let mut fanout = FanOut::with_best_effort(
        vec![Box::new(RecordingSender::new("required", Rc::clone(&calls)))],
        vec![Box::new(
            RecordingSender::new("discord", Rc::clone(&calls)).with_send_error("optional failed"),
        )],
    )
    .with_spooler(Box::new(RecordingSpooler {
        records: Rc::clone(&spooled),
        error: None,
    }));

    assert!(fanout.send_alert(&test_alert(), 4).is_ok());

    let records = spooled.borrow();
    assert_eq!(records.len(), 1);
    assert_eq!(records[0].sender, "discord");
    assert_eq!(records[0].channel, 4);
    assert_eq!(records[0].error, "optional failed");
    assert_eq!(records[0].message_text, "test alert");
}

#[test]
fn spool_write_failure_does_not_block_fanout_completion() {
    let calls = Rc::new(RefCell::new(Vec::new()));
    let spooled = Rc::new(RefCell::new(Vec::new()));
    let mut fanout = FanOut::with_best_effort(
        vec![Box::new(RecordingSender::new("required", Rc::clone(&calls)))],
        vec![Box::new(
            RecordingSender::new("discord", Rc::clone(&calls)).with_send_error("optional failed"),
        )],
    )
    .with_spooler(Box::new(RecordingSpooler {
        records: Rc::clone(&spooled),
        error: Some("disk unavailable"),
    }));

    assert!(fanout.send_alert(&test_alert(), 0).is_ok());
    assert_eq!(spooled.borrow().len(), 1);
}

#[test]
fn required_sender_failure_is_not_spooled() {
    let calls = Rc::new(RefCell::new(Vec::new()));
    let spooled = Rc::new(RefCell::new(Vec::new()));
    let mut fanout = FanOut::new(vec![Box::new(
        RecordingSender::new("required", Rc::clone(&calls)).with_send_error("required failed"),
    )])
    .with_spooler(Box::new(RecordingSpooler {
        records: Rc::clone(&spooled),
        error: None,
    }));

    assert!(fanout.send_alert(&test_alert(), 0).is_err());
    assert!(spooled.borrow().is_empty());
}

#[test]
fn delivery_attempt_records_are_emitted_for_sender_success_and_failure() {
    let calls = Rc::new(RefCell::new(Vec::new()));
    let attempts = Rc::new(RefCell::new(Vec::new()));
    let statuses = Rc::new(RefCell::new(Vec::new()));
    let mut emitter = RecordingEventEmitter::new(Rc::clone(&attempts), Rc::clone(&statuses));
    let mut fanout = FanOut::with_best_effort(
        vec![Box::new(RecordingSender::new("meshtastic", Rc::clone(&calls)))],
        vec![Box::new(
            RecordingSender::new("discord", Rc::clone(&calls)).with_send_error("optional failed"),
        )],
    );

    assert!(fanout
        .send_alert_with_events(&test_alert(), 4, "alert-123", &mut emitter)
        .is_ok());

    let attempts = attempts.borrow();
    assert_eq!(attempts.len(), 2);
    assert_eq!(attempts[0].sender, "meshtastic");
    assert!(attempts[0].required);
    assert_eq!(attempts[0].status, DeliveryAttemptStatus::Success);
    assert_eq!(attempts[0].alert_id, "alert-123");
    assert_eq!(attempts[0].channel, Some(4));
    assert_eq!(attempts[1].sender, "discord");
    assert!(!attempts[1].required);
    assert_eq!(attempts[1].status, DeliveryAttemptStatus::Failure);
    assert_eq!(attempts[1].error.as_deref(), Some("optional failed"));
}

#[test]
fn event_write_failure_does_not_fail_fanout() {
    let calls = Rc::new(RefCell::new(Vec::new()));
    let attempts = Rc::new(RefCell::new(Vec::new()));
    let statuses = Rc::new(RefCell::new(Vec::new()));
    let mut emitter = RecordingEventEmitter::new(Rc::clone(&attempts), Rc::clone(&statuses))
        .with_error("disk unavailable");
    let mut fanout = FanOut::with_best_effort(
        vec![Box::new(RecordingSender::new("meshtastic", Rc::clone(&calls)))],
        vec![Box::new(RecordingSender::new("discord", Rc::clone(&calls)))],
    );

    assert!(fanout
        .send_alert_with_events(&test_alert(), 0, "alert-123", &mut emitter)
        .is_ok());
    assert_eq!(*calls.borrow(), vec!["meshtastic", "discord"]);
    assert_eq!(attempts.borrow().len(), 2);
}

#[test]
fn no_event_records_are_emitted_when_emitter_is_absent() {
    let calls = Rc::new(RefCell::new(Vec::new()));
    let mut fanout = FanOut::new(vec![Box::new(RecordingSender::new(
        "meshtastic",
        Rc::clone(&calls),
    ))]);

    assert!(fanout.send_alert(&test_alert(), 0).is_ok());
    assert_eq!(*calls.borrow(), vec!["meshtastic"]);
}

#[test]
fn sender_status_records_are_emitted_after_readiness_checks() {
    let calls = Rc::new(RefCell::new(Vec::new()));
    let attempts = Rc::new(RefCell::new(Vec::new()));
    let statuses = Rc::new(RefCell::new(Vec::new()));
    let mut emitter = RecordingEventEmitter::new(Rc::clone(&attempts), Rc::clone(&statuses));
    let fanout = FanOut::with_best_effort(
        vec![Box::new(RecordingSender::new("meshtastic", Rc::clone(&calls)))],
        vec![Box::new(
            RecordingSender::new("discord", Rc::clone(&calls))
                .with_ready_error("optional unavailable"),
        )],
    );

    assert!(fanout.check_ready_with_events(&mut emitter).is_ok());

    let statuses = statuses.borrow();
    assert_eq!(statuses.len(), 2);
    assert_eq!(statuses[0].sender, "meshtastic");
    assert!(statuses[0].required);
    assert!(statuses[0].ready);
    assert_eq!(statuses[1].sender, "discord");
    assert!(!statuses[1].required);
    assert!(!statuses[1].ready);
    assert_eq!(statuses[1].error.as_deref(), Some("optional unavailable"));
}

#[test]
fn required_failure_stops_later_required_senders() {
    let calls = Rc::new(RefCell::new(Vec::new()));
    let mut fanout = FanOut::with_best_effort(
        vec![
            Box::new(RecordingSender::new("first", Rc::clone(&calls)).with_send_error("down")),
            Box::new(RecordingSender::new("second", Rc::clone(&calls))),
        ],
        vec![Box::new(RecordingSender::new("optional", Rc::clone(&calls)))],
    );

    assert_eq!(fanout.send_alert(&test_alert(), 0), Err("down".to_string()));
    assert_eq!(*calls.borrow(), vec!["first"]);
}

#[test]
fn required_readiness_failure_is_returned() {
    let calls = Rc::new(RefCell::new(Vec::new()));
    let fanout = FanOut::new(vec![Box::new(
        RecordingSender::new("meshtastic", Rc::clone(&calls)).with_ready_error("no radio"),
    )]);
    assert_eq!(fanout.check_ready(), Err("no radio".to_string()));
}

#[test]
fn counts_and_spooler_presence_are_reported() {
    let calls = Rc::new(RefCell::new(Vec::new()));
    let fanout = FanOut::with_best_effort(
        vec![Box::new(RecordingSender::new("meshtastic", Rc::clone(&calls)))],
        vec![
            Box::new(RecordingSender::new("discord", Rc::clone(&calls))),
            Box::new(RecordingSender::new("lxmf", Rc::clone(&calls))),
        ],
    );
    assert_eq!(fanout.required_sender_count(), 1);
    assert_eq!(fanout.best_effort_sender_count(), 2);
    assert!(!fanout.has_spooler());
}
