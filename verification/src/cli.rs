//! Run configuration from the command line: which mode runs, and which
//! senders, spooler and event emitter are configured.
use vstd::prelude::*;
use crate::discord_sender::{DiscordHttpClient, DiscordSender};
use crate::event_emitter::EventEmitter;
use crate::helper_command::HelperCommandRunner;
use crate::lxmf_sender::LxmfSender;
use crate::meshcore_sender::MeshCoreSender;
use crate::meshtastic_sender::{CommandRunner, MeshtasticSender};
use crate::lxmf_sender::LxmfConfig;
use crate::meshcore_sender::MeshCoreConfig;
use crate::meshtastic_sender::MeshtasticConfig;
use crate::nws_client::{clone_option, config_error, NwsClientConfig, DEFAULT_NWS_API_BASE_URL};
use crate::nws_polling::{NwsPollingConfig, DEFAULT_NWS_POLL_SECONDS};
use crate::sender::{FanOut, Sender};
use crate::spool::Spooler;
use crate::text::{trim, trimmed};

verus! {

/// Default address and port of the dashboard.
pub const DEFAULT_DASHBOARD_BIND: &'static str = "127.0.0.1:8080";

/// Default audio sample rate.
pub const DEFAULT_SAMPLE_RATE: u32 = 48000;

/// The command-line options.
#[derive(Debug, Clone, PartialEq, Eq)]
pub struct Args {
    pub alert_channel: Option<u32>,
    pub test_channel: Option<u32>,
    pub host: Option<String>,
    pub port: Option<String>,
    pub rate: u32,
    pub locations: Vec<String>,
    pub discord_webhook_url: Option<String>,
    pub spool_path: Option<String>,
    pub lxmf_command: Option<String>,
    pub lxmf_destination: Option<String>,
    pub lxmf_config: Option<String>,
    pub meshcore_command: Option<String>,
    pub meshcore_destination: Option<String>,
    pub meshcore_config: Option<String>,
    pub replay_spool: Option<String>,
    pub replay_failed_output: Option<String>,
    pub event_log_path: Option<String>,
    pub dashboard_event_log: Option<String>,
    pub dashboard_bind: String,
    pub nws_api: bool,
    pub nws_user_agent: Option<String>,
    pub nws_area: Option<String>,
    pub nws_zone: Option<String>,
    pub nws_poll_seconds: u64,
}

impl Default for Args {
    /// The options when none is given.
    fn default() -> (a: Self)
        ensures
            a.alert_channel is None,
            a.test_channel is None,
            a.host is None,
            a.port is None,
            a.rate == DEFAULT_SAMPLE_RATE,
            a.locations@.len() == 0,
            a.discord_webhook_url is None,
            a.spool_path is None,
            a.lxmf_command is None,
            a.lxmf_destination is None,
            a.lxmf_config is None,
            a.meshcore_command is None,
            a.meshcore_destination is None,
            a.meshcore_config is None,
            a.replay_spool is None,
            a.replay_failed_output is None,
            a.event_log_path is None,
            a.dashboard_event_log is None,
            a.dashboard_bind@ == DEFAULT_DASHBOARD_BIND@,
            !a.nws_api,
            a.nws_user_agent is None,
            a.nws_area is None,
            a.nws_zone is None,
            a.nws_poll_seconds == DEFAULT_NWS_POLL_SECONDS,
    {
        Args {
            alert_channel: None,
            test_channel: None,
            host: None,
            port: None,
            rate: DEFAULT_SAMPLE_RATE,
            locations: Vec::new(),
            discord_webhook_url: None,
            spool_path: None,
            lxmf_command: None,
            lxmf_destination: None,
            lxmf_config: None,
            meshcore_command: None,
            meshcore_destination: None,
            meshcore_config: None,
            replay_spool: None,
            replay_failed_output: None,
            event_log_path: None,
            dashboard_event_log: None,
            dashboard_bind: DEFAULT_DASHBOARD_BIND.to_owned(),
            nws_api: false,
            nws_user_agent: None,
            nws_area: None,
            nws_zone: None,
            nws_poll_seconds: DEFAULT_NWS_POLL_SECONDS,
        }
    }
}

/// A best-effort sender to set up.
#[derive(Debug, Clone, PartialEq, Eq)]
pub enum BestEffortSender {
    Discord(String),
    Lxmf(LxmfConfig),
    MeshCore(MeshCoreConfig),
}

/// Makes what the senders, the spooler and the event log run on: HTTP
/// clients, program runners and files.
pub trait RuntimeFactory {
    type DiscordClient: DiscordHttpClient + 'static;

    type HelperRunner: HelperCommandRunner + 'static;

    type MeshtasticRunner: CommandRunner + 'static;

    type FileSpooler: Spooler + 'static;

    type FileEmitter: EventEmitter + 'static;

    fn discord_client(&mut self) -> Self::DiscordClient;

    fn helper_runner(&mut self) -> Self::HelperRunner;

    fn meshtastic_runner(&mut self) -> Self::MeshtasticRunner;

    fn file_spooler(&mut self, path: String) -> Self::FileSpooler;

    fn file_event_emitter(&mut self, path: String) -> Self::FileEmitter;
}

/// The helper sender configured by a command, a destination and an optional
/// configuration path, named `flag` on the command line: none when none of
/// the three is given; an error when only some are.
pub open spec fn helper_plan(
    flag: Seq<char>,
    command: Option<String>,
    destination: Option<String>,
    config: Option<String>,
) -> Result<Option<(String, String, Option<String>)>, Seq<char>> {
    match (command, destination) {
        (Some(c), Some(d)) => Ok(Some((c, d, config))),
        (None, None) => if config is Some {
            Err("--"@ + flag + "-config requires --"@ + flag + "-command and --"@ + flag
                + "-destination"@)
        } else {
            Ok(None)
        },
        (Some(_), None) => Err("--"@ + flag + "-command requires --"@ + flag + "-destination"@),
        (None, Some(_)) => Err("--"@ + flag + "-destination requires --"@ + flag + "-command"@),
    }
}

/// The best-effort senders the options ask for, in order Discord, LXMF,
/// MeshCore, or the first configuration error.
pub open spec fn best_effort_plan_spec(a: Args) -> Result<Seq<BestEffortSender>, Seq<char>> {
    let discord: Seq<BestEffortSender> = match a.discord_webhook_url {
        Some(u) => seq![BestEffortSender::Discord(u)],
        None => seq![],
    };
    match helper_plan("lxmf"@, a.lxmf_command, a.lxmf_destination, a.lxmf_config) {
        Err(e) => Err(e),
        Ok(l) => match helper_plan(
            "meshcore"@,
            a.meshcore_command,
            a.meshcore_destination,
            a.meshcore_config,
        ) {
            Err(e) => Err(e),
            Ok(m) => Ok(discord + match l {
                Some((c, d, cfg)) => seq![
                    BestEffortSender::Lxmf(LxmfConfig { command: c, destination: d, config: cfg }),
                ],
                None => seq![],
            } + match m {
                Some((c, d, cfg)) => seq![
                    BestEffortSender::MeshCore(MeshCoreConfig { command: c, destination: d, config: cfg }),
                ],
                None => seq![],
            }),
        },
    }
}

/// Checks one helper's options; `flag` is its command-line prefix.
fn helper_options(
    flag: &str,
    command: &Option<String>,
    destination: &Option<String>,
    config: &Option<String>,
) -> (r: Result<Option<(String, String, Option<String>)>, String>)
    ensures
        match helper_plan(flag@, *command, *destination, *config) {
            Ok(p) => r == Ok::<Option<(String, String, Option<String>)>, String>(p),
            Err(e) => r matches Err(m) && m@ == e,
        },
{
    match (command, destination) {
        (Some(c), Some(d)) => Ok(Some((c.clone(), d.clone(), clone_option(config)))),
        (None, None) => {
            if config.is_some() {
                let mut m = String::new();
                crate::text::push_str(&mut m, "--");
                crate::text::push_str(&mut m, flag);
                crate::text::push_str(&mut m, "-config requires --");
                crate::text::push_str(&mut m, flag);
                crate::text::push_str(&mut m, "-command and --");
                crate::text::push_str(&mut m, flag);
                crate::text::push_str(&mut m, "-destination");
                Err(m)
            } else {
                Ok(None)
            }
        },
        (Some(_), None) => {
            let mut m = String::new();
            crate::text::push_str(&mut m, "--");
            crate::text::push_str(&mut m, flag);
            crate::text::push_str(&mut m, "-command requires --");
            crate::text::push_str(&mut m, flag);
            crate::text::push_str(&mut m, "-destination");
            Err(m)
        },
        (None, Some(_)) => {
            let mut m = String::new();
            crate::text::push_str(&mut m, "--");
            crate::text::push_str(&mut m, flag);
            crate::text::push_str(&mut m, "-destination requires --");
            crate::text::push_str(&mut m, flag);
            crate::text::push_str(&mut m, "-command");
            Err(m)
        },
    }
}

/// The best-effort senders the options ask for, in order Discord, LXMF,
/// MeshCore; a partial LXMF or MeshCore configuration is an error.
pub fn best_effort_plan(args: &Args) -> (r: Result<Vec<BestEffortSender>, String>)
    ensures
        match best_effort_plan_spec(*args) {
            Ok(p) => r matches Ok(v) && v@ == p,
            Err(e) => r matches Err(m) && m@ == e,
        },
{
    let mut plan: Vec<BestEffortSender> = Vec::new();
    if let Some(url) = &args.discord_webhook_url {
        plan.push(BestEffortSender::Discord(url.clone()));
    }
    let lxmf = helper_options("lxmf", &args.lxmf_command, &args.lxmf_destination, &args.lxmf_config)?;
    let meshcore = helper_options(
        "meshcore",
        &args.meshcore_command,
        &args.meshcore_destination,
        &args.meshcore_config,
    )?;
    if let Some((command, destination, config)) = lxmf {
        plan.push(BestEffortSender::Lxmf(LxmfConfig { command, destination, config }));
    }
    if let Some((command, destination, config)) = meshcore {
        plan.push(BestEffortSender::MeshCore(MeshCoreConfig { command, destination, config }));
    }
    proof {
        if let Ok(p) = best_effort_plan_spec(*args) {
            assert(plan@ =~= p);
        }
    }
    Ok(plan)
}

fn boxed_sender<S: Sender + 'static>(s: S) -> Box<dyn Sender> {
    Box::new(s)
}

fn boxed_discord_client<C: DiscordHttpClient + 'static>(c: C) -> Box<dyn DiscordHttpClient> {
    Box::new(c)
}

fn boxed_helper_runner<R: HelperCommandRunner + 'static>(r: R) -> Box<dyn HelperCommandRunner> {
    Box::new(r)
}

/// Adds the sender of one plan item to `senders`.
fn push_best_effort_sender<F: RuntimeFactory>(
    plan: BestEffortSender,
    factory: &mut F,
    senders: &mut Vec<Box<dyn Sender>>,
)
    ensures
        final(senders)@.len() == old(senders)@.len() + 1,
{
    let s: Box<dyn Sender> = match plan {
        BestEffortSender::Discord(url) => {
            let client = boxed_discord_client(factory.discord_client());
            boxed_sender(DiscordSender::new(url, client))
        },
        BestEffortSender::Lxmf(config) => {
            let runner = boxed_helper_runner(factory.helper_runner());
            boxed_sender(LxmfSender::new(config, runner))
        },
        BestEffortSender::MeshCore(config) => {
            let runner = boxed_helper_runner(factory.helper_runner());
            boxed_sender(MeshCoreSender::new(config, runner))
        },
    };
    let ghost before = senders@;
    let ghost pushed = s;
    senders.push(s);
    proof {
        vstd::seq::axiom_seq_push_len(before, pushed);
    }
}

/// The best-effort senders the options ask for (see `best_effort_plan`):
/// one per plan item, in plan order (Discord, LXMF, MeshCore); a partial
/// LXMF or MeshCore configuration is an error.
pub fn build_best_effort_senders<F: RuntimeFactory>(args: &Args, factory: &mut F) -> (r: Result<
    Vec<Box<dyn Sender>>,
    String,
>)
    ensures
        match best_effort_plan_spec(*args) {
            Ok(p) => r matches Ok(v) && v@.len() == p.len(),
            Err(e) => r matches Err(m) && m@ == e,
        },
{
    let plan = best_effort_plan(args)?;
    let ghost n = plan@.len();
    let mut senders: Vec<Box<dyn Sender>> = Vec::new();
    let mut plan = plan;
    let mut rev: Vec<BestEffortSender> = Vec::new();
    while plan.len() > 0
        invariant
            plan@.len() + rev@.len() == n,
        decreases plan@.len(),
    {
        let x = plan.pop().unwrap();
        rev.push(x);
    }
    while rev.len() > 0
        invariant
            rev@.len() + senders@.len() == n,
        decreases rev@.len(),
    {
        let item = rev.pop().unwrap();
        push_best_effort_sender(item, factory, &mut senders);
    }
    Ok(senders)
}

/// The fan-out the options ask for: Meshtastic as its one required sender,
/// the configured best-effort senders, and a file spooler when a spool path
/// is given (see `build_best_effort_senders`).
pub fn build_fanout<F: RuntimeFactory>(args: &Args, factory: &mut F) -> (r: Result<FanOut, String>)
    ensures
        match best_effort_plan_spec(*args) {
            Ok(p) => r matches Ok(f) && f.required().len() == 1 && f.best_effort().len() == p.len()
                && (f.spooler_view() is Some <==> args.spool_path is Some),
            Err(e) => r matches Err(m) && m@ == e,
        },
{
    let runner: Box<dyn CommandRunner> = Box::new(factory.meshtastic_runner());
    let meshtastic: Box<dyn Sender> = Box::new(
        MeshtasticSender::new(
            MeshtasticConfig { host: clone_option(&args.host), port: clone_option(&args.port) },
            runner,
        ),
    );
    let mut required: Vec<Box<dyn Sender>> = Vec::new();
    let ghost m = meshtastic;
    required.push(meshtastic);
    proof {
        vstd::seq::axiom_seq_push_len(Seq::<Box<dyn Sender>>::empty(), m);
    }
    let best_effort = build_best_effort_senders(args, factory)?;
    let fanout = if best_effort.len() == 0 {
        FanOut::new(required)
    } else {
        FanOut::with_best_effort(required, best_effort)
    };
    match &args.spool_path {
        Some(path) => {
            let spooler: Box<dyn Spooler> = Box::new(factory.file_spooler(path.clone()));
            Ok(fanout.with_spooler(spooler))
        },
        None => Ok(fanout),
    }
}

/// The event emitter the options ask for: a file emitter when an event log
/// path is given.
pub fn build_event_emitter<F: RuntimeFactory>(args: &Args, factory: &mut F) -> (r: Option<Box<dyn EventEmitter>>)
    ensures
        r is Some <==> args.event_log_path is Some,
{
    match &args.event_log_path {
        Some(path) => {
            let e: Box<dyn EventEmitter> = Box::new(factory.file_event_emitter(path.clone()));
            Some(e)
        },
        None => None,
    }
}

/// Whether the options ask for a one-shot replay.
pub fn replay_mode_enabled(args: &Args) -> (b: bool)
    ensures
        b == args.replay_spool is Some,
{
    args.replay_spool.is_some()
}

/// Whether the options ask for the dashboard.
pub fn dashboard_mode_enabled(args: &Args) -> (b: bool)
    ensures
        b == args.dashboard_event_log is Some,
{
    args.dashboard_event_log.is_some()
}

/// Whether the options ask for NWS API polling.
pub fn nws_mode_enabled(args: &Args) -> (b: bool)
    ensures
        b == args.nws_api,
{
    args.nws_api
}

/// Why the options give no NWS client configuration, if they do not:
/// polling must be on, a User-Agent given (blank after trimming counts as
/// none), and at most one of the area and zone filters.
pub open spec fn nws_client_config_error(a: Args) -> Option<Seq<char>> {
    if !a.nws_api {
        Some("--nws-api is required for NOAA polling mode"@)
    } else if a.nws_user_agent is None || trim(a.nws_user_agent->Some_0@).len() == 0 {
        Some("--nws-user-agent is required when --nws-api is enabled"@)
    } else if a.nws_area is Some && a.nws_zone is Some {
        Some("configure either NWS area or NWS zone, not both"@)
    } else {
        None
    }
}

/// The NWS client configuration the options ask for: the default base URL,
/// the trimmed User-Agent, and the area and zone filters as given.
pub fn build_nws_client_config(args: &Args) -> (r: Result<NwsClientConfig, String>)
    ensures
        match nws_client_config_error(*args) {
            Some(e) => r matches Err(m) && m@ == e,
            None => r matches Ok(k) && k.base_url@ == DEFAULT_NWS_API_BASE_URL@ && k.user_agent@
                == trim(args.nws_user_agent->Some_0@) && k.area == args.nws_area && k.zone
                == args.nws_zone,
        },
{
    if !args.nws_api {
        return Err("--nws-api is required for NOAA polling mode".to_owned());
    }
    let user_agent = match &args.nws_user_agent {
        Some(ua) => trimmed(ua.as_str()),
        None => {
            return Err("--nws-user-agent is required when --nws-api is enabled".to_owned());
        },
    };
    if user_agent.as_str().is_empty() {
        return Err("--nws-user-agent is required when --nws-api is enabled".to_owned());
    }
    let config = NwsClientConfig {
        base_url: DEFAULT_NWS_API_BASE_URL.to_owned(),
        user_agent,
        area: clone_option(&args.nws_area),
        zone: clone_option(&args.nws_zone),
    };
    proof {
        crate::text::lemma_trim_idempotent(args.nws_user_agent->Some_0@);
    }
    config.validate()?;
    Ok(config)
}

/// The polling configuration the options ask for.
pub fn build_nws_polling_config(args: &Args) -> (r: Result<NwsPollingConfig, String>)
    ensures
        args.nws_poll_seconds == 0 <==> r is Err,
        r matches Err(e) ==> e@ == "--nws-poll-seconds must be greater than 0"@,
        r matches Ok(c) ==> c.poll_seconds == args.nws_poll_seconds,
{
    NwsPollingConfig::new(args.nws_poll_seconds)
}

/// A Meshtastic channel option: the default when not given, the value when
/// it is at most 7, else the error `error`.
pub fn select_channel(arg: Option<u32>, default: u32, error: &str) -> (r: Result<u32, String>)
    ensures
        match arg {
            None => r == Ok::<u32, String>(default),
            Some(c) => if c <= 7 {
                r == Ok::<u32, String>(c)
            } else {
                r matches Err(m) && m@ == error@
            },
        },
{
    match arg {
        None => Ok(default),
        Some(c) => {
            if c <= 7 {
                Ok(c)
            } else {
                Err(error.to_owned())
            }
        },
    }
}

} // verus!
