use sentinel::alert::{Alert, AlertSignificance};
use sentinel::replay::{replay_spool_lines, spool_line_text, ReplaySummary, SpoolLine};
use sentinel::sender::Sender;
use sentinel::spool::{SpoolRecord, Spooler};
use std::cell::RefCell;
use std::rc::Rc;

struct RecordingSender {
    label: &'static str,
    calls: Rc<RefCell<Vec<(String, u32)>>>,
    send_error: Option<&'static str>,
}

impl RecordingSender {
    fn new(label: &'static str, calls: Rc<RefCell<Vec<(String, u32)>>>) -> Self {
        Self {
            label,
            calls,
            send_error: None,
        }
    }

    fn with_send_error(mut self, error: &'static str) -> Self {
        self.send_error = Some(error);
        self
    }
}

impl Sender for RecordingSender {
    fn name(&self) -> &'static str {
        self.label
    }

    fn check_ready(&self) -> Result<(), String> {
        Ok(())
    }

    fn send_alert(&mut self, alert: &Alert, channel: u32) -> Result<(), String> {
        self.calls
            .borrow_mut()
            .push((alert.message_text.clone(), channel));
        match self.send_error {
            Some(error) => Err(error.to_string()),
            None => Ok(()),
        }
    }
}

struct RecordingSpooler {
    records: Rc<RefCell<Vec<SpoolRecord>>>,
}

impl Spooler for RecordingSpooler {
    fn spool(&mut self, record: &SpoolRecord) -> Result<(), String> {
        self.records.borrow_mut().push(record.clone());
        Ok(())
    }
}

fn test_alert(message_text: &str) -> Alert {
    Alert::new(
        "Tornado Warning".to_string(),
        AlertSignificance::Warning,
        "National Weather Service".to_string(),
        "KXYZ".to_string(),
        false,
        vec!["006085".to_string()],
        vec!["Central Santa Clara".to_string()],
        message_text.to_string(),
    )
}

fn record(sender: &str, message_text: &str, channel: u32) -> SpoolRecord {
    SpoolRecord::from_failure_at(sender, &test_alert(message_text), channel, "failed", 123)
}

fn lines(values: Vec<SpoolLine>) -> Vec<Result<SpoolLine, String>> {
    values.into_iter().map(Ok).collect()
}

#[test]
fn malformed_spool_lines_are_skipped_without_crashing() {
    let calls = Rc::new(RefCell::new(Vec::new()));
    let discord = record("discord", "good alert", 1);

    let summary = replay_spool_lines(
        lines(vec![SpoolLine::Malformed, SpoolLine::Record(discord)]),
        vec![Box::new(RecordingSender::new("discord", Rc::clone(&calls)))],
        None,
    )
    .unwrap();

    assert_eq!(summary.malformed_lines, 1);
    assert_eq!(summary.replayed_records, 1);
    assert_eq!(*calls.borrow(), vec![("good alert".to_string(), 1)]);
}

#[test]
fn replays_discord_records_only_when_discord_sender_is_configured() {
    let calls = Rc::new(RefCell::new(Vec::new()));
    let discord = record("discord", "discord alert", 2);

    let skipped =
        replay_spool_lines(lines(vec![SpoolLine::Record(discord.clone())]), Vec::new(), None)
            .unwrap();
    assert_eq!(skipped.skipped_unconfigured_records, 1);

    let replayed = replay_spool_lines(
        lines(vec![SpoolLine::Record(discord)]),
        vec![Box::new(RecordingSender::new("discord", Rc::clone(&calls)))],
        None,
    )
    .unwrap();

    assert_eq!(replayed.replayed_records, 1);
    assert_eq!(*calls.borrow(), vec![("discord alert".to_string(), 2)]);
}

#[test]
fn replays_lxmf_records_only_when_lxmf_sender_is_configured() {
    let calls = Rc::new(RefCell::new(Vec::new()));
    let lxmf = record("lxmf", "lxmf alert", 3);

    let skipped =
        replay_spool_lines(lines(vec![SpoolLine::Record(lxmf.clone())]), Vec::new(), None)
            .unwrap();
    assert_eq!(skipped.skipped_unconfigured_records, 1);

    let replayed = replay_spool_lines(
        lines(vec![SpoolLine::Record(lxmf)]),
        vec![Box::new(RecordingSender::new("lxmf", Rc::clone(&calls)))],
        None,
    )
    .unwrap();

    assert_eq!(replayed.replayed_records, 1);
    assert_eq!(*calls.borrow(), vec![("lxmf alert".to_string(), 3)]);
}

#[test]
fn replays_meshcore_records_only_when_meshcore_sender_is_configured() {
    let calls = Rc::new(RefCell::new(Vec::new()));
    let meshcore = record("meshcore", "meshcore alert", 4);

    let skipped =
        replay_spool_lines(lines(vec![SpoolLine::Record(meshcore.clone())]), Vec::new(), None)
            .unwrap();
    assert_eq!(skipped.skipped_unconfigured_records, 1);

    let replayed = replay_spool_lines(
        lines(vec![SpoolLine::Record(meshcore)]),
        vec![Box::new(RecordingSender::new("meshcore", Rc::clone(&calls)))],
        None,
    )
    .unwrap();

    assert_eq!(replayed.replayed_records, 1);
    assert_eq!(*calls.borrow(), vec![("meshcore alert".to_string(), 4)]);
}

#[test]
fn meshtastic_records_are_never_replayed() {
    let calls = Rc::new(RefCell::new(Vec::new()));
    let meshtastic = record("meshtastic", "mesh alert", 0);

    let summary = replay_spool_lines(
        lines(vec![SpoolLine::Record(meshtastic)]),
        vec![Box::new(RecordingSender::new("meshtastic", Rc::clone(&calls)))],
        None,
    )
    .unwrap();

    assert_eq!(summary.skipped_meshtastic_records, 1);
    assert!(calls.borrow().is_empty());
}

#[test]
fn replay_failure_does_not_stop_later_records() {
    let calls = Rc::new(RefCell::new(Vec::new()));
    let first = record("discord", "first alert", 0);
    let second = record("lxmf", "second alert", 0);

    let summary = replay_spool_lines(
        lines(vec![SpoolLine::Record(first), SpoolLine::Record(second)]),
        vec![
            Box::new(
                RecordingSender::new("discord", Rc::clone(&calls)).with_send_error("discord down"),
            ),
            Box::new(RecordingSender::new("lxmf", Rc::clone(&calls))),
        ],
        None,
    )
    .unwrap();

    assert_eq!(summary.failed_records, 1);
    assert_eq!(summary.replayed_records, 1);
    assert_eq!(
        *calls.borrow(),
        vec![
            ("first alert".to_string(), 0),
            ("second alert".to_string(), 0)
        ]
    );
}

#[test]
fn failed_replay_records_are_written_when_spooler_is_configured() {
    let calls = Rc::new(RefCell::new(Vec::new()));
    let spooled = Rc::new(RefCell::new(Vec::new()));
    let discord = record("discord", "discord alert", 0);
    let mut spooler = RecordingSpooler {
        records: Rc::clone(&spooled),
    };

    let summary = replay_spool_lines(
        lines(vec![SpoolLine::Record(discord)]),
        vec![Box::new(
            RecordingSender::new("discord", Rc::clone(&calls)).with_send_error("discord down"),
        )],
        Some(&mut spooler),
    )
    .unwrap();

    assert_eq!(summary.failed_records, 1);
    assert_eq!(spooled.borrow().len(), 1);
    assert_eq!(spooled.borrow()[0].sender, "discord");
    assert_eq!(spooled.borrow()[0].error, "Replay failed: discord down");
}

#[test]
fn unknown_senders_and_blank_lines_are_counted() {
    let summary = replay_spool_lines(
        lines(vec![
            SpoolLine::Blank,
            SpoolLine::Record(record("pager", "x", 0)),
            SpoolLine::Malformed,
        ]),
        Vec::new(),
        None,
    )
    .unwrap();
    assert_eq!(
        summary,
        ReplaySummary {
            parsed_records: 1,
            replayed_records: 0,
            failed_records: 0,
            malformed_lines: 1,
            skipped_meshtastic_records: 0,
            skipped_unconfigured_records: 0,
            skipped_unknown_sender_records: 1,
        }
    );
}

#[test]
fn read_error_stops_the_replay() {
    let calls = Rc::new(RefCell::new(Vec::new()));
    let result = replay_spool_lines(
        vec![
            Ok(SpoolLine::Record(record("discord", "before", 0))),
            Err("disk error".to_string()),
            Ok(SpoolLine::Record(record("discord", "after", 0))),
        ],
        vec![Box::new(RecordingSender::new("discord", Rc::clone(&calls)))],
        None,
    );
    assert_eq!(result, Err("disk error".to_string()));
    assert_eq!(*calls.borrow(), vec![("before".to_string(), 0)]);
}

#[test]
fn spool_line_text_trims_and_detects_blank_lines() {
    assert_eq!(spool_line_text("   \t "), None);
    assert_eq!(spool_line_text("  {\"a\":1}\r"), Some("{\"a\":1}".to_string()));
}
