use sentinel::alert::{Alert, AlertSignificance};
use sentinel::cli::{
    best_effort_plan, build_event_emitter, build_fanout, build_nws_client_config,
    build_nws_polling_config, dashboard_mode_enabled, nws_mode_enabled, replay_mode_enabled,
    select_channel, Args, BestEffortSender, RuntimeFactory, DEFAULT_DASHBOARD_BIND,
};
use sentinel::discord_sender::DiscordHttpClient;
use sentinel::event_contracts::{
    AlertRecord, DeliveryAttemptRecord, SenderStatusRecord, SourceStatusRecord,
    EVENT_CONTRACT_SCHEMA_VERSION,
};
use sentinel::event_emitter::EventEmitter;
use sentinel::helper_command::{CommandStatus, HelperCommandRunner};
use sentinel::meshtastic_sender::CommandRunner;
use sentinel::same_alerts::{alert_id_for, alert_record_from_alert_at, emit_alert_record};
use sentinel::spool::{SpoolRecord, Spooler};
use std::cell::RefCell;
use std::rc::Rc;

struct NullDiscordClient;

impl DiscordHttpClient for NullDiscordClient {
    fn post_json(&mut self, _url: &str, _body: &str) -> Result<(), String> {
        Ok(())
    }
}

struct NullHelperRunner;

impl HelperCommandRunner for NullHelperRunner {
    fn run_with_stdin(&mut self, _program: &str, _args: &Vec<String>, _stdin_text: &str) -> Result<CommandStatus, String> {
        Err("not run in tests".to_string())
    }
}

struct NullCommandRunner;

impl CommandRunner for NullCommandRunner {
    fn output(&self, _program: &str, _args: &Vec<String>) -> Result<Vec<u8>, String> {
        Err("not run in tests".to_string())
    }

    fn spawn(&mut self, _program: &str, _args: &Vec<String>) -> Result<(), String> {
        Err("not run in tests".to_string())
    }

    fn now_millis(&self) -> u64 {
        0
    }

    fn sleep_millis(&mut self, _millis: u64) {}
}

struct PathSpooler {
    _path: String,
}

impl Spooler for PathSpooler {
    fn spool(&mut self, _record: &SpoolRecord) -> Result<(), String> {
        Ok(())
    }
}

struct PathEmitter {
    _path: String,
}

impl EventEmitter for PathEmitter {
    fn emit_alert(&mut self, _record: &AlertRecord) -> Result<(), String> {
        Ok(())
    }

    fn emit_delivery_attempt(&mut self, _record: &DeliveryAttemptRecord) -> Result<(), String> {
        Ok(())
    }

    fn emit_sender_status(&mut self, _record: &SenderStatusRecord) -> Result<(), String> {
        Ok(())
    }

    fn emit_source_status(&mut self, _record: &SourceStatusRecord) -> Result<(), String> {
        Ok(())
    }
}

#[derive(Default)]
struct TestFactory {
    spool_paths: Vec<String>,
    event_paths: Vec<String>,
}

impl RuntimeFactory for TestFactory {
    type DiscordClient = NullDiscordClient;
    type HelperRunner = NullHelperRunner;
    type MeshtasticRunner = NullCommandRunner;
    type FileSpooler = PathSpooler;
    type FileEmitter = PathEmitter;

    fn discord_client(&mut self) -> NullDiscordClient {
        NullDiscordClient
    }

    fn helper_runner(&mut self) -> NullHelperRunner {
        NullHelperRunner
    }

    fn meshtastic_runner(&mut self) -> NullCommandRunner {
        NullCommandRunner
    }

    fn file_spooler(&mut self, path: String) -> PathSpooler {
        self.spool_paths.push(path.clone());
        PathSpooler { _path: path }
    }

    fn file_event_emitter(&mut self, path: String) -> PathEmitter {
        self.event_paths.push(path.clone());
        PathEmitter { _path: path }
    }
}

struct RecordingEventEmitter {
    alerts: Rc<RefCell<Vec<AlertRecord>>>,
    error: Option<&'static str>,
}

impl RecordingEventEmitter {
    fn new(alerts: Rc<RefCell<Vec<AlertRecord>>>) -> Self {
        Self { alerts, error: None }
    }

    fn with_error(mut self, error: &'static str) -> Self {
        self.error = Some(error);
        self
    }
}

impl EventEmitter for RecordingEventEmitter {
    fn emit_alert(&mut self, record: &AlertRecord) -> Result<(), String> {
        self.alerts.borrow_mut().push(record.clone());
        match self.error {
            Some(error) => Err(error.to_string()),
            None => Ok(()),
        }
    }

    fn emit_delivery_attempt(&mut self, _record: &DeliveryAttemptRecord) -> Result<(), String> {
        Ok(())
    }

    fn emit_sender_status(&mut self, _record: &SenderStatusRecord) -> Result<(), String> {
        Ok(())
    }

    fn emit_source_status(&mut self, _record: &SourceStatusRecord) -> Result<(), String> {
        Ok(())
    }
}

fn args() -> Args {
    Args::default()
}

fn s(value: &str) -> Option<String> {
    Some(value.to_string())
}

fn fanout_counts(args: &Args) -> (usize, usize) {
    let fanout = build_fanout(args, &mut TestFactory::default()).unwrap();
    (fanout.required_sender_count(), fanout.best_effort_sender_count())
}

fn fanout_error(args: &Args) -> String {
    build_fanout(args, &mut TestFactory::default()).err().unwrap()
}

fn test_alert(codes: Vec<String>, names: Vec<String>) -> Alert {
    Alert::new(
        "Tornado Warning".to_string(),
        AlertSignificance::Warning,
        "National Weather Service".to_string(),
        "KXYZ".to_string(),
        false,
        codes,
        names,
        "test alert".to_string(),
    )
}

#[test]
fn fanout_registers_only_meshtastic_without_discord_webhook() {
    assert_eq!(fanout_counts(&args()), (1, 0));
}

#[test]
fn fanout_registers_discord_as_best_effort_when_webhook_is_provided() {
    let args = Args { discord_webhook_url: s("https://discord.example/webhook"), ..args() };

    assert_eq!(fanout_counts(&args), (1, 1));
}

#[test]
fn replay_mode_is_disabled_without_replay_spool() {
    assert!(!replay_mode_enabled(&args()));
}

#[test]
fn replay_mode_is_enabled_with_replay_spool() {
    let args = Args { replay_spool: s("failures.jsonl"), ..args() };

    assert!(replay_mode_enabled(&args));
}

#[test]
fn dashboard_mode_is_disabled_without_dashboard_event_log() {
    let args = args();

    assert!(!dashboard_mode_enabled(&args));
    assert_eq!(args.dashboard_bind, DEFAULT_DASHBOARD_BIND);
}

#[test]
fn dashboard_mode_is_enabled_with_dashboard_event_log() {
    let args = Args { dashboard_event_log: s("events.jsonl"), ..args() };

    assert!(dashboard_mode_enabled(&args));
    assert_eq!(args.dashboard_bind, DEFAULT_DASHBOARD_BIND);
}

#[test]
fn dashboard_bind_can_be_overridden() {
    let args = Args {
        dashboard_event_log: s("events.jsonl"),
        dashboard_bind: "127.0.0.1:9090".to_string(),
        ..args()
    };

    assert!(dashboard_mode_enabled(&args));
    assert_eq!(args.dashboard_bind, "127.0.0.1:9090");
}

#[test]
fn nws_mode_is_disabled_without_nws_api_flag() {
    assert!(!nws_mode_enabled(&args()));
}

#[test]
fn nws_mode_is_enabled_with_nws_api_flag() {
    let args = Args { nws_api: true, nws_user_agent: s("Project-Sentinel test@example.com"), ..args() };

    assert!(nws_mode_enabled(&args));
}

#[test]
fn nws_user_agent_is_required_when_nws_api_is_enabled() {
    let args = Args { nws_api: true, ..args() };

    let error = build_nws_client_config(&args).unwrap_err();

    assert_eq!(error.to_string(), "--nws-user-agent is required when --nws-api is enabled");
}

#[test]
fn nws_area_and_zone_are_mutually_exclusive() {
    let args = Args {
        nws_api: true,
        nws_user_agent: s("Project-Sentinel test@example.com"),
        nws_area: s("TX"),
        nws_zone: s("TXC201"),
        ..args()
    };

    let error = build_nws_client_config(&args).unwrap_err();

    assert_eq!(error.to_string(), "configure either NWS area or NWS zone, not both");
}

#[test]
fn nws_client_config_uses_area_filter() {
    let args = Args {
        nws_api: true,
        nws_user_agent: s("Project-Sentinel test@example.com"),
        nws_area: s("TX"),
        ..args()
    };

    let config = build_nws_client_config(&args).unwrap();

    assert_eq!(config.user_agent, "Project-Sentinel test@example.com");
    assert_eq!(config.area.as_deref(), Some("TX"));
    assert_eq!(config.zone, None);
}

#[test]
fn nws_client_config_uses_zone_filter() {
    let args = Args {
        nws_api: true,
        nws_user_agent: s("Project-Sentinel test@example.com"),
        nws_zone: s("TXC201"),
        ..args()
    };

    let config = build_nws_client_config(&args).unwrap();

    assert_eq!(config.user_agent, "Project-Sentinel test@example.com");
    assert_eq!(config.area, None);
    assert_eq!(config.zone.as_deref(), Some("TXC201"));
}

#[test]
fn nws_polling_config_defaults_to_sixty_seconds() {
    let config = build_nws_polling_config(&args()).unwrap();

    assert_eq!(config.poll_seconds, 60);
}

#[test]
fn nws_polling_config_can_be_overridden() {
    let args = Args { nws_poll_seconds: 30, ..args() };

    let config = build_nws_polling_config(&args).unwrap();

    assert_eq!(config.poll_seconds, 30);
}

#[test]
fn nws_polling_config_rejects_zero_seconds() {
    let args = Args { nws_poll_seconds: 0, ..args() };

    let error = build_nws_polling_config(&args).unwrap_err();

    assert_eq!(error.to_string(), "--nws-poll-seconds must be greater than 0");
}

#[test]
fn event_emitter_is_not_configured_without_event_log_path() {
    assert!(build_event_emitter(&args(), &mut TestFactory::default()).is_none());
}

#[test]
fn event_log_path_configures_event_emitter() {
    let args = Args { event_log_path: s("events.jsonl"), ..args() };
    let mut factory = TestFactory::default();

    assert!(build_event_emitter(&args, &mut factory).is_some());
    assert_eq!(factory.event_paths, vec!["events.jsonl".to_string()]);
}

#[test]
fn alert_record_is_built_for_accepted_alerts() {
    let alert = test_alert(vec!["006085".to_string()], vec!["Central Santa Clara".to_string()]);

    let record = alert_record_from_alert_at(&alert, 2, 123);

    assert_eq!(record.schema_version, EVENT_CONTRACT_SCHEMA_VERSION);
    assert_eq!(record.record_type, "alert");
    assert_eq!(record.alert_id, alert_id_for(&alert, 2, 123));
    assert_eq!(record.timestamp_unix_secs, 123);
    assert_eq!(record.source, "same");
    assert_eq!(record.event, "Tornado Warning");
    assert_eq!(record.significance, AlertSignificance::Warning);
    assert_eq!(record.originator, "National Weather Service");
    assert_eq!(record.callsign, "KXYZ");
    assert!(!record.is_national);
    assert!(!record.is_test);
    assert_eq!(record.location_codes, vec!["006085"]);
    assert_eq!(record.location_names, vec!["Central Santa Clara"]);
    assert_eq!(record.message_text, "test alert");
    assert!(!record.to_json_line().contains('\n'));
}

#[test]
fn alert_record_is_emitted_for_accepted_alerts() {
    let alerts = Rc::new(RefCell::new(Vec::new()));
    let mut emitter = RecordingEventEmitter::new(Rc::clone(&alerts));
    let alert = test_alert(vec!["006085".to_string()], vec!["Central Santa Clara".to_string()]);
    let record = alert_record_from_alert_at(&alert, 2, 123);

    emit_alert_record(&mut emitter, &record);

    assert_eq!(*alerts.borrow(), vec![record]);
}

#[test]
fn alert_event_write_failure_does_not_panic() {
    let alerts = Rc::new(RefCell::new(Vec::new()));
    let mut emitter = RecordingEventEmitter::new(Rc::clone(&alerts)).with_error("disk unavailable");
    let alert = test_alert(Vec::new(), Vec::new());
    let record = alert_record_from_alert_at(&alert, 0, 123);

    emit_alert_record(&mut emitter, &record);

    assert_eq!(*alerts.borrow(), vec![record]);
}

#[test]
fn fanout_has_no_spooler_without_spool_path() {
    let fanout = build_fanout(&args(), &mut TestFactory::default()).unwrap();

    assert!(!fanout.has_spooler());
}

#[test]
fn fanout_configures_spooler_when_spool_path_is_provided() {
    let args = Args { spool_path: s("failed-sends.jsonl"), ..args() };
    let mut factory = TestFactory::default();
    let fanout = build_fanout(&args, &mut factory).unwrap();

    assert!(fanout.has_spooler());
    assert_eq!(fanout.required_sender_count(), 1);
    assert_eq!(fanout.best_effort_sender_count(), 0);
    assert_eq!(factory.spool_paths, vec!["failed-sends.jsonl".to_string()]);
}

#[test]
fn fanout_registers_no_lxmf_sender_without_lxmf_flags() {
    assert_eq!(fanout_counts(&args()), (1, 0));
}

#[test]
fn fanout_registers_lxmf_as_best_effort_when_required_flags_are_provided() {
    let args = Args { lxmf_command: s("lxmf-send"), lxmf_destination: s("dest-123"), ..args() };

    assert_eq!(fanout_counts(&args), (1, 1));
}

#[test]
fn fanout_registers_discord_and_lxmf_as_best_effort_when_both_are_configured() {
    let args = Args {
        discord_webhook_url: s("https://discord.example/webhook"),
        lxmf_command: s("lxmf-send"),
        lxmf_destination: s("dest-123"),
        ..args()
    };

    assert_eq!(fanout_counts(&args), (1, 2));
}

#[test]
fn fanout_registers_no_meshcore_sender_without_meshcore_flags() {
    assert_eq!(fanout_counts(&args()), (1, 0));
}

#[test]
fn fanout_registers_meshcore_as_best_effort_when_required_flags_are_provided() {
    let args = Args { meshcore_command: s("meshcore-send"), meshcore_destination: s("room-123"), ..args() };

    assert_eq!(fanout_counts(&args), (1, 1));
}

#[test]
fn fanout_registers_discord_lxmf_and_meshcore_as_best_effort_when_configured() {
    let args = Args {
        discord_webhook_url: s("https://discord.example/webhook"),
        lxmf_command: s("lxmf-send"),
        lxmf_destination: s("dest-123"),
        meshcore_command: s("meshcore-send"),
        meshcore_destination: s("room-123"),
        ..args()
    };

    assert_eq!(fanout_counts(&args), (1, 3));
}

#[test]
fn partial_lxmf_config_returns_clear_error() {
    let command_only = Args { lxmf_command: s("lxmf-send"), ..args() };
    assert_eq!(fanout_error(&command_only), "--lxmf-command requires --lxmf-destination");

    let destination_only = Args { lxmf_destination: s("dest-123"), ..args() };
    assert_eq!(fanout_error(&destination_only), "--lxmf-destination requires --lxmf-command");

    let config_only = Args { lxmf_config: s("reticulum-config"), ..args() };
    assert_eq!(
        fanout_error(&config_only),
        "--lxmf-config requires --lxmf-command and --lxmf-destination"
    );
}

#[test]
fn partial_meshcore_config_returns_clear_error() {
    let command_only = Args { meshcore_command: s("meshcore-send"), ..args() };
    assert_eq!(fanout_error(&command_only), "--meshcore-command requires --meshcore-destination");

    let destination_only = Args { meshcore_destination: s("room-123"), ..args() };
    assert_eq!(fanout_error(&destination_only), "--meshcore-destination requires --meshcore-command");

    let config_only = Args { meshcore_config: s("meshcore-config"), ..args() };
    assert_eq!(
        fanout_error(&config_only),
        "--meshcore-config requires --meshcore-command and --meshcore-destination"
    );
}

#[test]
fn best_effort_plan_lists_senders_in_order() {
    let args = Args {
        discord_webhook_url: s("https://discord.example/webhook"),
        meshcore_command: s("meshcore-send"),
        meshcore_destination: s("room-123"),
        meshcore_config: s("cfg"),
        ..args()
    };

    let plan = best_effort_plan(&args).unwrap();

    assert_eq!(plan.len(), 2);
    assert_eq!(plan[0], BestEffortSender::Discord("https://discord.example/webhook".to_string()));
    match &plan[1] {
        BestEffortSender::MeshCore(config) => {
            assert_eq!(config.command, "meshcore-send");
            assert_eq!(config.destination, "room-123");
            assert_eq!(config.config.as_deref(), Some("cfg"));
        }
        other => panic!("unexpected sender {:?}", other),
    }
}

#[test]
fn nws_client_config_needs_the_nws_api_flag_and_trims_the_user_agent() {
    let off = Args { nws_user_agent: s("agent"), ..args() };
    assert_eq!(build_nws_client_config(&off).unwrap_err(), "--nws-api is required for NOAA polling mode");

    let blank = Args { nws_api: true, nws_user_agent: s("   "), ..args() };
    assert_eq!(
        build_nws_client_config(&blank).unwrap_err(),
        "--nws-user-agent is required when --nws-api is enabled"
    );

    let padded = Args { nws_api: true, nws_user_agent: s("  agent  "), ..args() };
    let config = build_nws_client_config(&padded).unwrap();
    assert_eq!(config.user_agent, "agent");
    assert_eq!(config.base_url, "https://api.weather.gov");
}

#[test]
fn channel_options_default_and_reject_values_above_seven() {
    assert_eq!(select_channel(None, 3, "bad"), Ok(3));
    assert_eq!(select_channel(Some(7), 3, "bad"), Ok(7));
    assert_eq!(select_channel(Some(8), 3, "bad"), Err("bad".to_string()));
}
