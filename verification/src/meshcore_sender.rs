//! Best-effort delivery over MeshCore through a helper program.
use vstd::prelude::*;
use crate::alert::{strings_view, Alert};
use crate::helper_command::{
    helper_args, helper_outcome, helper_result, helper_send_args, HelperCommandRunner, HelperRun,
};
use crate::sender::{SendAttempt, Sender};

verus! {

/// Where the MeshCore helper is and where it sends.
#[derive(Debug, Clone, PartialEq, Eq)]
pub struct MeshCoreConfig {
    pub command: String,
    pub destination: String,
    pub config: Option<String>,
}

/// Sends alerts by running the MeshCore helper with the alert text on its
/// standard input.
pub struct MeshCoreSender {
    config: MeshCoreConfig,
    runner: Box<dyn HelperCommandRunner>,
    attempts: Ghost<Seq<SendAttempt>>,
}

impl MeshCoreSender {
    /// The configuration.
    pub closed spec fn config_view(&self) -> MeshCoreConfig {
        self.config
    }

    /// The helper runs made so far.
    pub closed spec fn runs(&self) -> Seq<HelperRun> {
        self.runner.runs()
    }

    /// A sender that runs helpers through `runner`.
    pub fn new(config: MeshCoreConfig, runner: Box<dyn HelperCommandRunner>) -> (s: Self)
        ensures
            s.config_view() == config,
            s.send_attempts().len() == 0,
    {
        MeshCoreSender { config, runner, attempts: Ghost(Seq::empty()) }
    }

    /// The helper's arguments.
    pub fn send_args(&self) -> (args: Vec<String>)
        ensures
            strings_view(args@) == helper_args(self.config_view().destination@, self.config_view().config),
    {
        helper_send_args(&self.config.destination, &self.config.config)
    }
}

impl Sender for MeshCoreSender {
    open spec fn spec_name(&self) -> Seq<char> {
        "meshcore"@
    }

    closed spec fn send_attempts(&self) -> Seq<SendAttempt> {
        self.attempts@
    }

    fn name(&self) -> (n: &'static str) {
        "meshcore"
    }

    open spec fn readiness(&self, r: Result<(), String>) -> bool {
        r is Ok
    }

    /// Always ready: nothing is checked before sending.
    fn check_ready(&self) -> (r: Result<(), String>)
        ensures
            r is Ok,
    {
        Ok(())
    }

    /// Runs the helper once with the alert text on its standard input; an
    /// execution failure, or a run that did not succeed, is an error.
    fn send_alert(&mut self, alert: &Alert, channel: u32) -> (r: Result<(), String>)
        ensures
            final(self).config_view() == old(self).config_view(),
            final(self).runs().len() == old(self).runs().len() + 1,
            final(self).runs().drop_last() == old(self).runs(),
            ({
                let run = final(self).runs().last();
                &&& run.program == old(self).config_view().command@
                &&& run.args == helper_args(
                    old(self).config_view().destination@,
                    old(self).config_view().config,
                )
                &&& run.stdin_text == alert.message_text@
                &&& match helper_outcome("MeshCore"@, run.result) {
                    Ok(_) => r is Ok,
                    Err(m) => r matches Err(e) && e@ == m,
                }
            }),
    {
        let args = self.send_args();
        let res = self.runner.run_with_stdin(self.config.command.as_str(), &args, alert.message_text.as_str());
        let r = helper_result("MeshCore", res);
        proof {
            self.attempts@ = self.attempts@.push(SendAttempt { alert: *alert, channel, result: r });
            assert(self.runner.runs().drop_last() =~= old(self).runner.runs());
        }
        r
    }
}

} // verus!
