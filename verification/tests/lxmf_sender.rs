use sentinel::alert::{Alert, AlertSignificance};
use sentinel::helper_command::{CommandStatus, HelperCommandRunner};
use sentinel::lxmf_sender::{LxmfConfig, LxmfSender};
use sentinel::sender::{FanOut, Sender};
use sentinel::spool::{SpoolRecord, Spooler};
use std::cell::RefCell;
use std::rc::Rc;

#[derive(Debug, PartialEq, Eq)]
struct RecordedCommand {
    program: String,
    args: Vec<String>,
    stdin_text: String,
}

struct RecordingRunner {
    commands: Rc<RefCell<Vec<RecordedCommand>>>,
    status: CommandStatus,
}

impl HelperCommandRunner for RecordingRunner {
    fn run_with_stdin(
        &mut self,
        program: &str,
        args: &Vec<String>,
        stdin_text: &str,
    ) -> Result<CommandStatus, String> {
        self.commands.borrow_mut().push(RecordedCommand {
            program: program.to_string(),
            args: args.clone(),
            stdin_text: stdin_text.to_string(),
        });
        Ok(self.status)
    }
}

struct FailingRunner;

impl HelperCommandRunner for FailingRunner {
    fn run_with_stdin(
        &mut self,
        _program: &str,
        _args: &Vec<String>,
        _stdin_text: &str,
    ) -> Result<CommandStatus, String> {
        Err("No such file or directory".to_string())
    }
}

struct RequiredSender {
    calls: Rc<RefCell<Vec<&'static str>>>,
}

impl Sender for RequiredSender {
    fn name(&self) -> &'static str {
        "required"
    }

    fn check_ready(&self) -> Result<(), String> {
        Ok(())
    }

    fn send_alert(&mut self, _alert: &Alert, _channel: u32) -> Result<(), String> {
        self.calls.borrow_mut().push("required");
        Ok(())
    }
}

struct RecordingSpooler {
    records: Rc<RefCell<Vec<SpoolRecord>>>,
}

impl Spooler for RecordingSpooler {
    fn spool(&mut self, record: &SpoolRecord) -> Result<(), String> {
        self.records.borrow_mut().push(record.clone());
        Ok(())
    }
}

fn test_alert(message_text: String) -> Alert {
    Alert::new(
        "Tornado Warning".to_string(),
        AlertSignificance::Warning,
        "National Weather Service".to_string(),
        "KXYZ".to_string(),
        false,
        Vec::new(),
        Vec::new(),
        message_text,
    )
}

fn config(with_config: bool) -> LxmfConfig {
    LxmfConfig {
        command: "lxmf-send".to_string(),
        destination: "dest-123".to_string(),
        config: if with_config {
            Some("reticulum-config".to_string())
        } else {
            None
        },
    }
}

fn runner(commands: &Rc<RefCell<Vec<RecordedCommand>>>, success: bool, code: Option<i32>) -> Box<RecordingRunner> {
    Box::new(RecordingRunner {
        commands: Rc::clone(commands),
        status: CommandStatus { success, code },
    })
}

#[test]
fn lxmf_sender_send_args_include_destination_and_optional_config() {
    let commands = Rc::new(RefCell::new(Vec::new()));
    let sender = LxmfSender::new(config(true), runner(&commands, true, Some(0)));

    assert_eq!(
        sender.send_args(),
        vec!["--destination", "dest-123", "--config", "reticulum-config"]
    );
}

#[test]
fn lxmf_sender_alert_message_is_passed_to_helper_stdin() {
    let commands = Rc::new(RefCell::new(Vec::new()));
    let mut sender = LxmfSender::new(config(false), runner(&commands, true, Some(0)));

    sender
        .send_alert(&test_alert("alert body\nsecond line".to_string()), 0)
        .unwrap();

    assert_eq!(
        *commands.borrow(),
        vec![RecordedCommand {
            program: "lxmf-send".to_string(),
            args: vec!["--destination", "dest-123"]
                .into_iter()
                .map(String::from)
                .collect(),
            stdin_text: "alert body\nsecond line".to_string(),
        }]
    );
}

#[test]
fn lxmf_sender_non_zero_helper_exit_is_a_send_failure() {
    let commands = Rc::new(RefCell::new(Vec::new()));
    let mut sender = LxmfSender::new(config(false), runner(&commands, false, Some(2)));

    let error = sender
        .send_alert(&test_alert("alert body".to_string()), 0)
        .unwrap_err();

    assert_eq!(error, "LXMF helper failed with exit code 2");
    assert_eq!(commands.borrow().len(), 1);
}

#[test]
fn lxmf_failure_does_not_block_required_sender() {
    let required_calls = Rc::new(RefCell::new(Vec::new()));
    let commands = Rc::new(RefCell::new(Vec::new()));
    let sender = LxmfSender::new(config(false), runner(&commands, false, Some(1)));
    let mut fanout = FanOut::with_best_effort(
        vec![Box::new(RequiredSender {
            calls: Rc::clone(&required_calls),
        })],
        vec![Box::new(sender)],
    );

    assert!(fanout
        .send_alert(&test_alert("alert body".to_string()), 0)
        .is_ok());
    assert_eq!(*required_calls.borrow(), vec!["required"]);
    assert_eq!(commands.borrow().len(), 1);
}

#[test]
fn lxmf_failure_is_spooled_when_spooler_is_configured() {
    let required_calls = Rc::new(RefCell::new(Vec::new()));
    let commands = Rc::new(RefCell::new(Vec::new()));
    let spooled = Rc::new(RefCell::new(Vec::new()));
    let sender = LxmfSender::new(config(false), runner(&commands, false, Some(1)));
    let mut fanout = FanOut::with_best_effort(
        vec![Box::new(RequiredSender {
            calls: Rc::clone(&required_calls),
        })],
        vec![Box::new(sender)],
    )
    .with_spooler(Box::new(RecordingSpooler {
        records: Rc::clone(&spooled),
    }));

    assert!(fanout
        .send_alert(&test_alert("alert body".to_string()), 3)
        .is_ok());

    let records = spooled.borrow();
    assert_eq!(records.len(), 1);
    assert_eq!(records[0].sender, "lxmf");
    assert_eq!(records[0].channel, 3);
    assert_eq!(records[0].message_text, "alert body");
    assert_eq!(records[0].error, "LXMF helper failed with exit code 1");
}

#[test]
fn lxmf_helper_without_exit_code_or_not_started_fails_clearly() {
    let commands = Rc::new(RefCell::new(Vec::new()));
    let mut killed = LxmfSender::new(config(false), runner(&commands, false, None));
    assert_eq!(
        killed.send_alert(&test_alert("x".to_string()), 0),
        Err("LXMF helper failed".to_string())
    );
    let mut missing = LxmfSender::new(config(false), Box::new(FailingRunner));
    assert_eq!(
        missing.send_alert(&test_alert("x".to_string()), 0),
        Err("LXMF helper execution failed: No such file or directory".to_string())
    );
    let mut negative = LxmfSender::new(config(false), runner(&commands, false, Some(-3)));
    assert_eq!(
        negative.send_alert(&test_alert("x".to_string()), 0),
        Err("LXMF helper failed with exit code -3".to_string())
    );
}
