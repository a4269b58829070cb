//! Delivery through a helper program that reads the alert text on its
//! standard input (the LXMF and MeshCore senders).
use vstd::prelude::*;
use crate::alert::strings_view;
use crate::text::{decimal, push_char, push_str, write_decimal};

verus! {

/// How a helper program ended: whether it succeeded, and its exit code if
/// it has one.
#[derive(Debug, Clone, Copy, PartialEq, Eq, Structural)]
pub struct CommandStatus {
    pub success: bool,
    pub code: Option<i32>,
}

/// One run of a helper program: program, arguments, standard input text,
/// and how it ended.
pub struct HelperRun {
    pub program: Seq<char>,
    pub args: Seq<Seq<char>>,
    pub stdin_text: Seq<char>,
    pub result: Result<CommandStatus, String>,
}

/// Runs helper programs.
///
/// `runs` is the sequence of all runs so far with how each ended.
///
/// The bodies given to these ghost views are only defaults for
/// implementations that keep no such history: nothing verified relies on them.
pub trait HelperCommandRunner {
    closed spec fn runs(&self) -> Seq<HelperRun> {
        Seq::empty()
    }

    fn run_with_stdin(&mut self, program: &str, args: &Vec<String>, stdin_text: &str) -> (r: Result<
        CommandStatus,
        String,
    >)
        ensures
            final(self).runs() == old(self).runs().push(
                HelperRun {
                    program: program@,
                    args: strings_view(args@),
                    stdin_text: stdin_text@,
                    result: r,
                },
            ),
    ;
}

/// The decimal form of a signed integer, with a leading `-` when negative.
pub open spec fn signed_decimal(n: int) -> Seq<char> {
    if n < 0 {
        seq!['-'] + decimal((-n) as nat)
    } else {
        decimal(n as nat)
    }
}

/// Appends the decimal form of a signed integer.
pub fn write_signed_decimal(out: &mut String, n: i32)
    ensures
        final(out)@ == old(out)@ + signed_decimal(n as int),
{
    if n < 0 {
        push_char(out, '-');
        let m: i64 = -(n as i64);
        write_decimal(out, m as u64);
    } else {
        write_decimal(out, n as u64);
    }
}

/// What a send through helper `helper` returns for the run's outcome: an
/// execution failure, success, a failure with the exit code, or a failure
/// without one.
pub open spec fn helper_outcome(helper: Seq<char>, res: Result<CommandStatus, String>) -> Result<(), Seq<char>> {
    match res {
        Err(e) => Err(helper + " helper execution failed: "@ + e@),
        Ok(status) => if status.success {
            Ok(())
        } else {
            match status.code {
                Some(c) => Err(helper + " helper failed with exit code "@ + signed_decimal(c as int)),
                None => Err(helper + " helper failed"@),
            }
        },
    }
}

/// The result of a send through helper `helper` from the run's outcome.
pub fn helper_result(helper: &str, res: Result<CommandStatus, String>) -> (r: Result<(), String>)
    ensures
        match helper_outcome(helper@, res) {
            Ok(_) => r is Ok,
            Err(m) => r matches Err(e) && e@ == m,
        },
{
    match res {
        Err(e) => {
            let mut msg = String::new();
            push_str(&mut msg, helper);
            push_str(&mut msg, " helper execution failed: ");
            push_str(&mut msg, e.as_str());
            Err(msg)
        },
        Ok(status) => {
            if status.success {
                Ok(())
            } else {
                let mut msg = String::new();
                push_str(&mut msg, helper);
                match status.code {
                    Some(c) => {
                        push_str(&mut msg, " helper failed with exit code ");
                        write_signed_decimal(&mut msg, c);
                    },
                    None => {
                        push_str(&mut msg, " helper failed");
                    },
                }
                Err(msg)
            }
        },
    }
}

/// Helper arguments: `--destination`, the destination, and `--config` with
/// the configuration path when there is one.
pub open spec fn helper_args(destination: Seq<char>, config: Option<String>) -> Seq<Seq<char>> {
    seq!["--destination"@, destination] + match config {
        Some(c) => seq!["--config"@, c@],
        None => seq![],
    }
}

/// The helper arguments for a destination and an optional configuration.
pub fn helper_send_args(destination: &String, config: &Option<String>) -> (args: Vec<String>)
    ensures
        strings_view(args@) == helper_args(destination@, *config),
{
    let mut args: Vec<String> = Vec::new();
    args.push("--destination".to_owned());
    args.push(destination.clone());
    if let Some(c) = config {
        args.push("--config".to_owned());
        args.push(c.clone());
    }
    assert(strings_view(args@) =~= helper_args(destination@, *config));
    args
}

} // verus!
