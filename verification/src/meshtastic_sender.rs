//! Required delivery over a Meshtastic radio through the `meshtastic`
//! command-line program.
use vstd::prelude::*;
use crate::alert::{chunk_message, spec_chunk_message, strings_view, Alert};
use crate::sender::{SendAttempt, Sender};
use crate::text::{chars_of, contains_chars, contains_seq, decimal, push_str, string_of, write_decimal};

verus! {

/// Where the radio is reached: a network host and/or a serial port.
#[derive(Debug, Clone, PartialEq, Eq)]
pub struct MeshtasticConfig {
    pub host: Option<String>,
    pub port: Option<String>,
}

/// One start of a program: program, arguments, and whether it started.
pub struct SpawnedCommand {
    pub program: Seq<char>,
    pub args: Seq<Seq<char>>,
    pub result: Result<(), String>,
}

/// Runs the `meshtastic` program, and keeps time for pacing messages.
///
/// `spawned` is the sequence of all program starts so far; `slept` the
/// sequence of all waits, in milliseconds.
///
/// The bodies given to these ghost views are only defaults for
/// implementations that keep no such history: nothing verified relies on them.
pub trait CommandRunner {
    closed spec fn spawned(&self) -> Seq<SpawnedCommand> {
        Seq::empty()
    }

    closed spec fn slept(&self) -> Seq<u64> {
        Seq::empty()
    }

    /// Runs a program to completion and returns its standard output.
    fn output(&self, program: &str, args: &Vec<String>) -> Result<Vec<u8>, String>;

    /// Starts a program without waiting for it.
    fn spawn(&mut self, program: &str, args: &Vec<String>) -> (r: Result<(), String>)
        ensures
            final(self).spawned() == old(self).spawned().push(
                SpawnedCommand { program: program@, args: strings_view(args@), result: r },
            ),
            final(self).slept() == old(self).slept(),
    ;

    /// A monotonic clock, in milliseconds.
    fn now_millis(&self) -> u64;

    /// Waits `millis` milliseconds.
    fn sleep_millis(&mut self, millis: u64)
        ensures
            final(self).slept() == old(self).slept().push(millis),
            final(self).spawned() == old(self).spawned(),
    ;
}

/// The text of a byte string, with invalid UTF-8 sequences replaced by
/// U+FFFD (`String::from_utf8_lossy`).
pub uninterp spec fn utf8_lossy(bytes: Seq<u8>) -> Seq<char>;

/// `String::from_utf8_lossy`: the text of the bytes, invalid sequences
/// replaced by U+FFFD; its result is named `utf8_lossy`.
#[verifier::external_body]
fn utf8_lossy_string(bytes: &Vec<u8>) -> (s: String)
    ensures
        s@ == utf8_lossy(bytes@),
{
    String::from_utf8_lossy(bytes.as_slice()).into_owned()
}

/// Index of the first newline of `s`, or -1.
pub open spec fn first_newline(s: Seq<char>) -> int
    decreases s.len(),
{
    if s.len() == 0 {
        -1
    } else if s[0] == '\n' {
        0
    } else if first_newline(s.drop_first()) < 0 {
        -1
    } else {
        1 + first_newline(s.drop_first())
    }
}

/// The first line of `s` (`str::lines`): none for an empty text; else the
/// text up to the first newline, without a carriage return just before it,
/// or the whole text when there is no newline.
pub open spec fn first_line(s: Seq<char>) -> Option<Seq<char>> {
    if s.len() == 0 {
        None
    } else if first_newline(s) < 0 {
        Some(s)
    } else {
        let l = s.take(first_newline(s));
        if l.len() > 0 && l.last() == '\r' {
            Some(l.drop_last())
        } else {
            Some(l)
        }
    }
}

/// What the `--info` output says of the radio: an error when it mentions
/// `Error`; ready when its first line is `Connected to radio`; else an error
/// naming the first line, or saying that the output was empty.
pub open spec fn readiness_of(stdout: Seq<char>) -> Result<(), Seq<char>> {
    if contains_seq(stdout, "Error"@) {
        Err("Received error output: "@ + stdout)
    } else {
        match first_line(stdout) {
            None => Err("Output from meshtastic --info was empty."@),
            Some(l) => if l == "Connected to radio"@ {
                Ok(())
            } else {
                Err("Failed to connect to the radio. First line: "@ + l)
            },
        }
    }
}

proof fn lemma_first_newline(s: Seq<char>)
    ensures
        -1 <= first_newline(s) < s.len(),
        first_newline(s) >= 0 ==> s[first_newline(s)] == '\n',
        forall|k: int| 0 <= k < s.len() && (first_newline(s) < 0 || k < first_newline(s)) ==> s[k] != '\n',
    decreases s.len(),
{
    if s.len() > 0 {
        lemma_first_newline(s.drop_first());
        assert forall|k: int| 0 <= k < s.len() && (first_newline(s) < 0 || k < first_newline(s)) implies s[k] != '\n' by {
            if k > 0 {
                assert(s[k] == s.drop_first()[k - 1]);
            }
        }
    }
}

proof fn lemma_first_newline_at(s: Seq<char>, n: int)
    requires
        0 <= n <= s.len(),
        forall|k: int| 0 <= k < n ==> s[k] != '\n',
        n == s.len() || s[n] == '\n',
    ensures
        first_newline(s) == if n == s.len() {
            -1
        } else {
            n
        },
    decreases n,
{
    if n > 0 {
        let t = s.drop_first();
        assert forall|k: int| 0 <= k < n - 1 implies t[k] != '\n' by {
            assert(t[k] == s[k + 1]);
        }
        if n < s.len() {
            assert(t[n - 1] == s[n]);
        }
        lemma_first_newline_at(t, n - 1);
    }
}

/// Whether the radio is ready, from the text of `meshtastic --info`.
pub fn readiness_from_stdout(stdout: &str) -> (r: Result<(), String>)
    ensures
        match readiness_of(stdout@) {
            Ok(_) => r is Ok,
            Err(m) => r matches Err(e) && e@ == m,
        },
{
    let cs = chars_of(stdout);
    let needle = chars_of("Error");
    if contains_chars(&cs, &needle) {
        let mut msg = String::new();
        push_str(&mut msg, "Received error output: ");
        push_str(&mut msg, stdout);
        return Err(msg);
    }
    if cs.len() == 0 {
        return Err("Output from meshtastic --info was empty.".to_owned());
    }
    let mut n: usize = 0;
    while n < cs.len() && cs[n] != '\n'
        invariant
            n <= cs@.len(),
            forall|k: int| 0 <= k < n ==> cs@[k] != '\n',
        decreases cs@.len() - n,
    {
        n = n + 1;
    }
    proof {
        lemma_first_newline_at(cs@, n as int);
    }
    let mut end = n;
    if n < cs.len() && n > 0 && cs[n - 1] == '\r' {
        end = n - 1;
    }
    let line = string_of(&cs, 0, end);
    proof {
        if n < cs@.len() {
            assert(cs@.take(n as int).len() == n);
            if n > 0 && cs@[n - 1] == '\r' {
                assert(cs@.subrange(0, end as int) =~= cs@.take(n as int).drop_last());
            } else {
                assert(cs@.subrange(0, end as int) =~= cs@.take(n as int));
            }
        } else {
            assert(cs@.subrange(0, end as int) =~= cs@);
        }
    }
    if crate::text::chars_equal(line.as_str(), "Connected to radio") {
        Ok(())
    } else {
        let mut msg = String::new();
        push_str(&mut msg, "Failed to connect to the radio. First line: ");
        push_str(&mut msg, line.as_str());
        Err(msg)
    }
}

/// The arguments of `meshtastic --info`: host and port when configured,
/// then `--info`.
pub open spec fn info_args_spec(c: MeshtasticConfig) -> Seq<Seq<char>> {
    host_port_args(c) + seq!["--info"@]
}

/// `--host` and `--port` with their values, for those configured.
pub open spec fn host_port_args(c: MeshtasticConfig) -> Seq<Seq<char>> {
    (match c.host {
        Some(h) => seq!["--host"@, h@],
        None => seq![],
    }) + (match c.port {
        Some(p) => seq!["--port"@, p@],
        None => seq![],
    })
}

/// The arguments that send `message` on channel `chan` with an
/// acknowledgement, then host and port when configured.
pub open spec fn send_args_spec(c: MeshtasticConfig, chan: u32, message: Seq<char>) -> Seq<Seq<char>> {
    seq!["--no-nodes"@, "--no-time"@, "--ch-index"@, decimal(chan as nat), "--sendtext"@, message, "--ack"@]
        + host_port_args(c)
}

/// Minimum time between two messages, in milliseconds.
pub const MESSAGE_SPACING_MILLIS: u64 = 20000;

/// Sends alerts through the `meshtastic` program.
pub struct MeshtasticSender {
    config: MeshtasticConfig,
    last_message_millis: Option<u64>,
    runner: Box<dyn CommandRunner>,
    attempts: Ghost<Seq<SendAttempt>>,
}

/// `new` holds the starts made by one send of `message` on `chan` with up to
/// `retries` retries: one or more starts of `meshtastic` with the send
/// arguments, every start but the last failed, and the result is that of
/// the last start, failing with `Failed to send message: ` and its error
/// after `retries + 1` failed starts.
pub open spec fn sent_with_retry(
    new: Seq<SpawnedCommand>,
    c: MeshtasticConfig,
    chan: u32,
    message: Seq<char>,
    retries: u32,
    r: Result<(), String>,
) -> bool {
    &&& 1 <= new.len() <= retries + 1
    &&& forall|k: int|
        0 <= k < new.len() ==> (#[trigger] new[k]).program == "meshtastic"@ && new[k].args
            == send_args_spec(c, chan, message)
    &&& forall|k: int| 0 <= k < new.len() - 1 ==> (#[trigger] new[k]).result is Err
    &&& match new.last().result {
        Ok(_) => r is Ok,
        Err(e) => new.len() == retries + 1 && (r matches Err(m) && m@ == "Failed to send message: "@ + e@),
    }
}

/// The waits of one send made of `starts` program starts: first, when a
/// message was sent before, possibly one wait of at most
/// `MESSAGE_SPACING_MILLIS` to space messages apart; then one wait of
/// `delay` before each retry.
pub open spec fn retry_waits(waits: Seq<u64>, sent_before: bool, starts: nat, delay: u64) -> bool {
    let retries = Seq::new((starts - 1) as nat, |i: int| delay);
    ||| waits == retries
    ||| sent_before && waits.len() == retries.len() + 1 && 0 < waits[0] <= MESSAGE_SPACING_MILLIS
        && waits.skip(1) == retries
}

impl MeshtasticSender {
    /// The configuration.
    pub closed spec fn config_view(&self) -> MeshtasticConfig {
        self.config
    }

    /// The program starts made so far.
    pub closed spec fn spawned(&self) -> Seq<SpawnedCommand> {
        self.runner.spawned()
    }

    /// The waits made so far, in milliseconds.
    pub closed spec fn slept(&self) -> Seq<u64> {
        self.runner.slept()
    }

    /// Whether a message was sent already.
    pub closed spec fn sent_before(&self) -> bool {
        self.last_message_millis is Some
    }

    /// A sender that runs `meshtastic` through `runner`.
    pub fn new(config: MeshtasticConfig, runner: Box<dyn CommandRunner>) -> (s: Self)
        ensures
            s.config_view() == config,
            s.send_attempts().len() == 0,
    {
        MeshtasticSender { config, last_message_millis: None, runner, attempts: Ghost(Seq::empty()) }
    }

    /// The arguments of `meshtastic --info`.
    pub fn info_args(&self) -> (args: Vec<String>)
        ensures
            strings_view(args@) == info_args_spec(self.config_view()),
    {
        let mut args: Vec<String> = Vec::new();
        if let Some(host) = &self.config.host {
            args.push("--host".to_owned());
            args.push(host.clone());
        }
        if let Some(port) = &self.config.port {
            args.push("--port".to_owned());
            args.push(port.clone());
        }
        args.push("--info".to_owned());
        assert(strings_view(args@) =~= info_args_spec(self.config));
        args
    }

    /// The arguments that send `message` on channel `chan`.
    pub fn send_args(&self, chan: u32, message: &str) -> (args: Vec<String>)
        ensures
            strings_view(args@) == send_args_spec(self.config_view(), chan, message@),
    {
        let mut args: Vec<String> = Vec::new();
        args.push("--no-nodes".to_owned());
        args.push("--no-time".to_owned());
        args.push("--ch-index".to_owned());
        args.push(crate::text::decimal_string(chan as u64));
        args.push("--sendtext".to_owned());
        args.push(message.to_owned());
        args.push("--ack".to_owned());
        if let Some(host) = &self.config.host {
            args.push("--host".to_owned());
            args.push(host.clone());
        }
        if let Some(port) = &self.config.port {
            args.push("--port".to_owned());
            args.push(port.clone());
        }
        assert(strings_view(args@) =~= send_args_spec(self.config, chan, message@));
        args
    }

    /// Sends one message, waiting first until `MESSAGE_SPACING_MILLIS` have
    /// passed since the last message sent, and retrying a failed start up to
    /// `retries` times, `delay_millis` apart.
    pub fn send_message_with_retry(&mut self, chan: u32, message: &str, retries: u32, delay_millis: u64) -> (r: Result<
        (),
        String,
    >)
        ensures
            final(self).config_view() == old(self).config_view(),
            final(self).send_attempts() == old(self).send_attempts(),
            final(self).spawned().len() > old(self).spawned().len(),
            final(self).spawned().take(old(self).spawned().len() as int) == old(self).spawned(),
            sent_with_retry(
                final(self).spawned().skip(old(self).spawned().len() as int),
                old(self).config_view(),
                chan,
                message@,
                retries,
                r,
            ),
            final(self).slept().take(old(self).slept().len() as int) == old(self).slept(),
            retry_waits(
                final(self).slept().skip(old(self).slept().len() as int),
                old(self).sent_before(),
                (final(self).spawned().len() - old(self).spawned().len()) as nat,
                delay_millis,
            ),
            r is Ok ==> final(self).sent_before(),
            r is Err ==> final(self).sent_before() == old(self).sent_before(),
    {
        let ghost s0 = self.runner.spawned();
        let ghost w0 = self.runner.slept();
        if let Some(last) = self.last_message_millis {
            let now = self.runner.now_millis();
            let elapsed = now.saturating_sub(last);
            if elapsed < MESSAGE_SPACING_MILLIS {
                self.runner.sleep_millis(MESSAGE_SPACING_MILLIS - elapsed);
            }
        }
        let ghost pre = self.runner.slept().skip(w0.len() as int);
        assert(self.runner.slept() =~= w0 + pre);
        let args = self.send_args(chan, message);
        let mut attempt: u32 = 0;
        assert(self.runner.spawned().take(s0.len() as int) =~= s0);
        loop
            invariant
                attempt <= retries,
                self.config == old(self).config,
                self.attempts == old(self).attempts,
                self.last_message_millis == old(self).last_message_millis,
                w0 == old(self).runner.slept(),
                pre.len() <= 1,
                pre.len() == 1 ==> old(self).last_message_millis is Some && 0 < pre[0] <= MESSAGE_SPACING_MILLIS,
                self.runner.slept() == w0 + pre + Seq::new(attempt as nat, |i: int| delay_millis),
                strings_view(args@) == send_args_spec(self.config, chan, message@),
                self.runner.spawned().len() == s0.len() + attempt,
                self.runner.spawned().take(s0.len() as int) == s0,
                s0 == old(self).runner.spawned(),
                forall|k: int|
                    s0.len() <= k < self.runner.spawned().len() ==> (#[trigger] self.runner.spawned()[k]).program
                        == "meshtastic"@ && self.runner.spawned()[k].args == send_args_spec(
                        self.config,
                        chan,
                        message@,
                    ) && self.runner.spawned()[k].result is Err,
            decreases retries - attempt,
        {
            let ghost before = self.runner.spawned();
            let result = self.runner.spawn("meshtastic", &args);
            proof {
                let after = self.runner.spawned();
                assert(after.take(s0.len() as int) =~= before.take(s0.len() as int));
                let new = after.skip(s0.len() as int);
                assert forall|k: int| 0 <= k < new.len() implies (#[trigger] new[k]).program == "meshtastic"@
                    && new[k].args == send_args_spec(self.config, chan, message@) by {
                    assert(new[k] == after[s0.len() + k]);
                }
                assert forall|k: int| 0 <= k < new.len() - 1 implies (#[trigger] new[k]).result is Err by {
                    assert(new[k] == after[s0.len() + k]);
                }
                assert(new.last() == after.last());
            }
            proof {
                let waits = self.runner.slept().skip(w0.len() as int);
                let retried = Seq::new(attempt as nat, |i: int| delay_millis);
                assert(self.runner.slept().take(w0.len() as int) =~= w0);
                assert(waits =~= pre + retried);
                if pre.len() == 1 {
                    assert(waits.skip(1) =~= retried);
                } else {
                    assert(pre =~= Seq::<u64>::empty());
                }
            }
            match result {
                Ok(()) => {
                    let now = self.runner.now_millis();
                    self.last_message_millis = Some(now);
                    return Ok(());
                },
                Err(e) => {
                    if attempt < retries {
                        self.runner.sleep_millis(delay_millis);
                        proof {
                            assert(Seq::new((attempt + 1) as nat, |i: int| delay_millis) =~= Seq::new(
                                attempt as nat,
                                |i: int| delay_millis,
                            ).push(delay_millis));
                            assert(self.runner.slept() =~= w0 + pre + Seq::new(
                                (attempt + 1) as nat,
                                |i: int| delay_millis,
                            ));
                        }
                        attempt = attempt + 1;
                    } else {
                        let mut msg = String::new();
                        push_str(&mut msg, "Failed to send message: ");
                        push_str(&mut msg, e.as_str());
                        return Err(msg);
                    }
                },
            }
        }
    }
}

/// What the readiness check returns for the outcome of running
/// `meshtastic --info`: an execution failure, or what its output says.
pub open spec fn ready_outcome(out: Result<Seq<u8>, String>) -> Result<(), Seq<char>> {
    match out {
        Err(e) => Err("Failed to execute meshtastic --info: "@ + e@),
        Ok(b) => readiness_of(utf8_lossy(b)),
    }
}

/// `r` is what a readiness check returns for the outcome `v`.
pub open spec fn ready_verdict(v: Result<(), Seq<char>>, r: Result<(), String>) -> bool {
    match v {
        Ok(_) => r is Ok,
        Err(m) => r matches Err(e) && e@ == m,
    }
}

/// The texts sent by the successful starts among `s`, in order.
pub open spec fn sent_texts(s: Seq<SpawnedCommand>) -> Seq<Seq<char>>
    decreases s.len(),
{
    if s.len() == 0 {
        seq![]
    } else {
        sent_texts(s.drop_last()) + if s.last().result is Ok {
            seq![s.last().args[5]]
        } else {
            seq![]
        }
    }
}

proof fn lemma_sent_texts_append(a: Seq<SpawnedCommand>, b: Seq<SpawnedCommand>)
    ensures
        sent_texts(a + b) == sent_texts(a) + sent_texts(b),
    decreases b.len(),
{
    if b.len() == 0 {
        assert(a + b =~= a);
    } else {
        lemma_sent_texts_append(a, b.drop_last());
        assert((a + b).drop_last() =~= a + b.drop_last());
    }
}

proof fn lemma_sent_texts_retry(
    new: Seq<SpawnedCommand>,
    c: MeshtasticConfig,
    chan: u32,
    message: Seq<char>,
    retries: u32,
    r: Result<(), String>,
)
    requires
        sent_with_retry(new, c, chan, message, retries, r),
    ensures
        sent_texts(new) == if r is Ok {
            seq![message]
        } else {
            seq![]
        },
{
    assert forall|k: int| 0 <= k <= new.len() - 1 implies sent_texts(#[trigger] new.take(k)) == Seq::<Seq<char>>::empty() by {
        lemma_sent_texts_none(new, k);
    }
    assert(new.take(new.len() - 1) == new.drop_last());
    assert(sent_texts(new.drop_last()) == Seq::<Seq<char>>::empty());
}

proof fn lemma_sent_texts_none(new: Seq<SpawnedCommand>, k: int)
    requires
        0 <= k <= new.len(),
        forall|j: int| 0 <= j < k ==> (#[trigger] new[j]).result is Err,
    ensures
        sent_texts(new.take(k)) == Seq::<Seq<char>>::empty(),
    decreases k,
{
    if k > 0 {
        assert(new.take(k).drop_last() =~= new.take(k - 1));
        lemma_sent_texts_none(new, k - 1);
    }
}

impl Sender for MeshtasticSender {
    open spec fn spec_name(&self) -> Seq<char> {
        "meshtastic"@
    }

    closed spec fn send_attempts(&self) -> Seq<SendAttempt> {
        self.attempts@
    }

    fn name(&self) -> (n: &'static str) {
        "meshtastic"
    }

    /// A readiness check gives the verdict on some outcome of running
    /// `meshtastic --info`.
    open spec fn readiness(&self, r: Result<(), String>) -> bool {
        exists|out: Result<Seq<u8>, String>| #[trigger] ready_verdict(ready_outcome(out), r)
    }

    /// Runs `meshtastic --info` and checks what it says.
    fn check_ready(&self) -> (r: Result<(), String>)
        ensures
            exists|out: Result<Seq<u8>, String>| #[trigger] ready_verdict(ready_outcome(out), r),
    {
        let args = self.info_args();
        match self.runner.output("meshtastic", &args) {
            Err(e) => {
                let mut msg = String::new();
                push_str(&mut msg, "Failed to execute meshtastic --info: ");
                push_str(&mut msg, e.as_str());
                assert(ready_outcome(Err::<Seq<u8>, String>(e)) == Err::<(), Seq<char>>(msg@));
                assert(ready_verdict(ready_outcome(Err::<Seq<u8>, String>(e)), Err::<(), String>(msg)));
                Err(msg)
            },
            Ok(bytes) => {
                let text = utf8_lossy_string(&bytes);
                let r = readiness_from_stdout(text.as_str());
                assert(ready_outcome(Ok::<Seq<u8>, String>(bytes@)) == readiness_of(text@));
                assert(ready_verdict(ready_outcome(Ok::<Seq<u8>, String>(bytes@)), r));
                r
            },
        }
    }

    /// Sends the alert's message in chunks of at most 75 bytes where spaces
    /// allow, in order, each with up to 3 retries 5 seconds apart; the first
    /// chunk that cannot be sent stops the send and its error is returned.
    fn send_alert(&mut self, alert: &Alert, channel: u32) -> (r: Result<(), String>)
        ensures
            final(self).config_view() == old(self).config_view(),
            final(self).spawned().take(old(self).spawned().len() as int) == old(self).spawned(),
            ({
                let texts = sent_texts(final(self).spawned().skip(old(self).spawned().len() as int));
                let chunks = spec_chunk_message(alert.message_text@, 75);
                &&& r is Ok ==> texts == chunks
                &&& r is Err ==> texts.len() < chunks.len() && texts == chunks.take(texts.len() as int)
            }),
    {
        let ghost s0 = self.runner.spawned();
        let chunks = chunk_message(alert.message_text.as_str(), 75);
        let ghost cv = strings_view(chunks@);
        let mut i: usize = 0;
        assert(self.runner.spawned().take(s0.len() as int) =~= s0);
        assert(self.runner.spawned().skip(s0.len() as int) =~= Seq::<SpawnedCommand>::empty());
        while i < chunks.len()
            invariant
                i <= chunks@.len(),
                cv == strings_view(chunks@),
                cv == spec_chunk_message(alert.message_text@, 75),
                s0 == old(self).runner.spawned(),
                self.config == old(self).config,
                self.attempts == old(self).attempts,
                self.runner.spawned().len() >= s0.len(),
                self.runner.spawned().take(s0.len() as int) == s0,
                sent_texts(self.runner.spawned().skip(s0.len() as int)) == cv.take(i as int),
            decreases chunks@.len() - i,
        {
            let ghost before = self.runner.spawned();
            let res = self.send_message_with_retry(channel, chunks[i].as_str(), 3, 5000);
            proof {
                let after = self.runner.spawned();
                let grp = after.skip(before.len() as int);
                lemma_sent_texts_retry(grp, self.config, channel, chunks@[i as int]@, 3, res);
                assert(after.skip(s0.len() as int) =~= before.skip(s0.len() as int) + grp);
                lemma_sent_texts_append(before.skip(s0.len() as int), grp);
                assert(after.take(s0.len() as int) =~= before.take(s0.len() as int));
                assert(cv.take(i + 1) =~= cv.take(i as int).push(cv[i as int]));
            }
            if let Err(e) = res {
                proof {
                    self.attempts@ = self.attempts@.push(SendAttempt { alert: *alert, channel, result: Err(e) });
                }
                return Err(e);
            }
            i = i + 1;
        }
        proof {
            self.attempts@ = self.attempts@.push(SendAttempt { alert: *alert, channel, result: Ok(()) });
            assert(cv.take(cv.len() as int) =~= cv);
        }
        Ok(())
    }
}

} // verus!
