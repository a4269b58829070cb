use sentinel::alert::{Alert, AlertSignificance};
use sentinel::meshtastic_sender::{readiness_from_stdout, CommandRunner, MeshtasticConfig, MeshtasticSender};
use sentinel::sender::Sender;
use std::cell::RefCell;
use std::rc::Rc;

#[derive(Debug, PartialEq, Eq)]
struct RecordedCommand {
    program: String,
    args: Vec<String>,
}

struct RecordingCommandRunner {
    commands: Rc<RefCell<Vec<RecordedCommand>>>,
    stdout: Vec<u8>,
    spawn_failures: u32,
    sleeps: Rc<RefCell<Vec<u64>>>,
}

impl RecordingCommandRunner {
    fn new(commands: &Rc<RefCell<Vec<RecordedCommand>>>, stdout: &[u8]) -> Self {
        Self {
            commands: Rc::clone(commands),
            stdout: stdout.to_vec(),
            spawn_failures: 0,
            sleeps: Rc::new(RefCell::new(Vec::new())),
        }
    }
}

impl CommandRunner for RecordingCommandRunner {
    fn output(&self, program: &str, args: &Vec<String>) -> Result<Vec<u8>, String> {
        self.commands.borrow_mut().push(RecordedCommand {
            program: program.to_string(),
            args: args.clone(),
        });
        Ok(self.stdout.clone())
    }

    fn spawn(&mut self, program: &str, args: &Vec<String>) -> Result<(), String> {
        self.commands.borrow_mut().push(RecordedCommand {
            program: program.to_string(),
            args: args.clone(),
        });
        if self.spawn_failures > 0 {
            self.spawn_failures -= 1;
            Err("radio busy".to_string())
        } else {
            Ok(())
        }
    }

    fn now_millis(&self) -> u64 {
        0
    }

    fn sleep_millis(&mut self, millis: u64) {
        self.sleeps.borrow_mut().push(millis);
    }
}

fn sender_with(config: MeshtasticConfig, stdout: &[u8]) -> (MeshtasticSender, Rc<RefCell<Vec<RecordedCommand>>>) {
    let commands = Rc::new(RefCell::new(Vec::new()));
    let sender = MeshtasticSender::new(config, Box::new(RecordingCommandRunner::new(&commands, stdout)));
    (sender, commands)
}

fn alert(message_text: &str) -> Alert {
    Alert::new(
        "Tornado Warning".to_string(),
        AlertSignificance::Warning,
        "National Weather Service".to_string(),
        "KXYZ".to_string(),
        false,
        vec!["006085".to_string()],
        vec!["Central Santa Clara".to_string()],
        message_text.to_string(),
    )
}

#[test]
fn info_args_include_host_and_port_when_configured() {
    let (sender, _) = sender_with(
        MeshtasticConfig {
            host: Some("192.0.2.1:4403".to_string()),
            port: Some("/dev/ttyUSB0".to_string()),
        },
        b"",
    );

    assert_eq!(
        sender.info_args(),
        vec!["--host", "192.0.2.1:4403", "--port", "/dev/ttyUSB0", "--info"]
    );
}

#[test]
fn send_args_match_existing_meshtastic_cli_flags() {
    let (sender, _) = sender_with(MeshtasticConfig { host: None, port: None }, b"");

    assert_eq!(
        sender.send_args(2, "alert text"),
        vec![
            "--no-nodes",
            "--no-time",
            "--ch-index",
            "2",
            "--sendtext",
            "alert text",
            "--ack"
        ]
    );
}

#[test]
fn send_args_append_optional_host_and_port() {
    let (sender, _) = sender_with(
        MeshtasticConfig {
            host: Some("mesh.local:4403".to_string()),
            port: Some("/dev/ttyUSB0".to_string()),
        },
        b"",
    );

    assert_eq!(
        sender.send_args(1, "alert text"),
        vec![
            "--no-nodes",
            "--no-time",
            "--ch-index",
            "1",
            "--sendtext",
            "alert text",
            "--ack",
            "--host",
            "mesh.local:4403",
            "--port",
            "/dev/ttyUSB0"
        ]
    );
}

#[test]
fn check_ready_runs_meshtastic_info_without_real_cli() {
    let (sender, commands) = sender_with(
        MeshtasticConfig {
            host: Some("mesh.local:4403".to_string()),
            port: None,
        },
        b"Connected to radio\n",
    );

    sender.check_ready().unwrap();

    assert_eq!(
        *commands.borrow(),
        vec![RecordedCommand {
            program: "meshtastic".to_string(),
            args: vec!["--host", "mesh.local:4403", "--info"]
                .into_iter()
                .map(String::from)
                .collect(),
        }]
    );
}

#[test]
fn send_alert_runs_meshtastic_send_without_real_cli() {
    let (mut sender, commands) = sender_with(
        MeshtasticConfig {
            host: None,
            port: Some("/dev/ttyUSB0".to_string()),
        },
        b"",
    );

    sender.send_alert(&alert("short alert"), 3).unwrap();

    assert_eq!(
        *commands.borrow(),
        vec![RecordedCommand {
            program: "meshtastic".to_string(),
            args: vec![
                "--no-nodes",
                "--no-time",
                "--ch-index",
                "3",
                "--sendtext",
                "short alert",
                "--ack",
                "--port",
                "/dev/ttyUSB0",
            ]
            .into_iter()
            .map(String::from)
            .collect(),
        }]
    );
}

#[test]
fn readiness_reports_errors_and_unexpected_first_lines() {
    assert_eq!(readiness_from_stdout("Connected to radio\r\nOwner: x"), Ok(()));
    assert_eq!(
        readiness_from_stdout("Error: no device"),
        Err("Received error output: Error: no device".to_string())
    );
    assert_eq!(
        readiness_from_stdout(""),
        Err("Output from meshtastic --info was empty.".to_string())
    );
    assert_eq!(
        readiness_from_stdout("Waiting for radio\nConnected to radio"),
        Err("Failed to connect to the radio. First line: Waiting for radio".to_string())
    );
}

#[test]
fn failed_start_is_retried_after_the_delay() {
    let commands = Rc::new(RefCell::new(Vec::new()));
    let mut runner = RecordingCommandRunner::new(&commands, b"");
    runner.spawn_failures = 2;
    let sleeps = Rc::clone(&runner.sleeps);
    let mut sender = MeshtasticSender::new(MeshtasticConfig { host: None, port: None }, Box::new(runner));

    assert!(sender.send_message_with_retry(0, "hello", 3, 5000).is_ok());
    assert_eq!(commands.borrow().len(), 3);
    assert_eq!(*sleeps.borrow(), vec![5000, 5000]);
}

#[test]
fn send_fails_after_all_retries() {
    let commands = Rc::new(RefCell::new(Vec::new()));
    let mut runner = RecordingCommandRunner::new(&commands, b"");
    runner.spawn_failures = 10;
    let mut sender = MeshtasticSender::new(MeshtasticConfig { host: None, port: None }, Box::new(runner));

    assert_eq!(
        sender.send_message_with_retry(0, "hello", 3, 5000),
        Err("Failed to send message: radio busy".to_string())
    );
    assert_eq!(commands.borrow().len(), 4);
}

#[test]
fn long_alerts_are_sent_in_chunks_spaced_apart() {
    let commands = Rc::new(RefCell::new(Vec::new()));
    let runner = RecordingCommandRunner::new(&commands, b"");
    let sleeps = Rc::clone(&runner.sleeps);
    let mut sender = MeshtasticSender::new(MeshtasticConfig { host: None, port: None }, Box::new(runner));
    let text = format!("{} {} {}", "a".repeat(70), "b".repeat(10), "c".repeat(10));

    sender.send_alert(&alert(&text), 0).unwrap();

    let commands = commands.borrow();
    assert_eq!(commands.len(), 2);
    assert_eq!(commands[0].args[5], "a".repeat(70));
    assert_eq!(commands[1].args[5], format!(" {} {}", "b".repeat(10), "c".repeat(10)));
    assert_eq!(*sleeps.borrow(), vec![20000]);
}

#[test]
fn invalid_utf8_in_info_output_is_replaced_before_checking() {
    let (sender, _commands) = sender_with(
        MeshtasticConfig { host: None, port: None },
        b"Connected\xff to radio\nmore",
    );

    assert_eq!(
        sender.check_ready(),
        Err("Failed to connect to the radio. First line: Connected\u{FFFD} to radio".to_string())
    );
}
