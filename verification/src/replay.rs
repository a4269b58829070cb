//! One-shot replay of spooled best-effort failures through the senders that
//! are configured now.
use vstd::prelude::*;
use crate::sender::{SendAttempt, Sender};
use crate::spool::{SpoolRecord, Spooler};
use crate::text::{chars_equal, push_str, trim, trimmed};

verus! {

/// One line of a spool file, as read.
pub enum SpoolLine {
    /// A line with nothing but whitespace.
    Blank,
    /// A line that is not a spool record.
    Malformed,
    /// A spool record.
    Record(SpoolRecord),
}

/// Counts of what a replay did with the lines of a spool file.
#[derive(Debug, PartialEq, Eq, Structural)]
pub struct ReplaySummary {
    pub parsed_records: usize,
    pub replayed_records: usize,
    pub failed_records: usize,
    pub malformed_lines: usize,
    pub skipped_meshtastic_records: usize,
    pub skipped_unconfigured_records: usize,
    pub skipped_unknown_sender_records: usize,
}

impl Default for ReplaySummary {
    fn default() -> (s: Self)
        ensures
            s == empty_summary(),
    {
        ReplaySummary {
            parsed_records: 0,
            replayed_records: 0,
            failed_records: 0,
            malformed_lines: 0,
            skipped_meshtastic_records: 0,
            skipped_unconfigured_records: 0,
            skipped_unknown_sender_records: 0,
        }
    }
}

/// All counts zero.
pub open spec fn empty_summary() -> ReplaySummary {
    ReplaySummary {
        parsed_records: 0,
        replayed_records: 0,
        failed_records: 0,
        malformed_lines: 0,
        skipped_meshtastic_records: 0,
        skipped_unconfigured_records: 0,
        skipped_unknown_sender_records: 0,
    }
}

/// The text of a spool line that holds something: the line without leading
/// and trailing whitespace, or `None` for a blank line.
pub fn spool_line_text(line: &str) -> (r: Option<String>)
    ensures
        r is None <==> trim(line@).len() == 0,
        r matches Some(t) ==> t@ == trim(line@),
{
    let t = trimmed(line);
    if t.as_str().is_empty() {
        None
    } else {
        Some(t)
    }
}

/// Senders whose failures can be replayed.
pub open spec fn is_replayable(name: Seq<char>) -> bool {
    name == "discord"@ || name == "lxmf"@ || name == "meshcore"@
}

/// Index of the last name equal to `name`, or -1.
pub open spec fn last_named(names: Seq<Seq<char>>, name: Seq<char>) -> int
    decreases names.len(),
{
    if names.len() == 0 {
        -1
    } else if names.last() == name {
        names.len() - 1
    } else {
        last_named(names.drop_last(), name)
    }
}

/// Where a record from sender `name` goes: -1 for a Meshtastic record
/// (never replayed), -2 for a sender that cannot be replayed, -3 for a
/// replayable sender that is not configured, else the index of the configured
/// sender of that name (the last one when several share it).
pub open spec fn route(name: Seq<char>, names: Seq<Seq<char>>) -> int {
    if name == "meshtastic"@ {
        -1
    } else if !is_replayable(name) {
        -2
    } else if last_named(names, name) < 0 {
        -3
    } else {
        last_named(names, name)
    }
}

/// `f` is `rec` with its error replaced by `"Replay failed: "` and `e`.
pub open spec fn replay_failure_of(f: SpoolRecord, rec: SpoolRecord, e: String) -> bool {
    &&& f.error@ == "Replay failed: "@ + e@
    &&& f.timestamp_unix_secs == rec.timestamp_unix_secs
    &&& f.sender == rec.sender
    &&& f.channel == rec.channel
    &&& f.event == rec.event
    &&& f.significance == rec.significance
    &&& f.originator == rec.originator
    &&& f.callsign == rec.callsign
    &&& f.is_national == rec.is_national
    &&& f.is_test == rec.is_test
    &&& f.location_codes == rec.location_codes
    &&& f.location_names == rec.location_names
    &&& f.message_text == rec.message_text
}

/// A send attempt that carries the alert of `rec` on its channel.
pub open spec fn attempt_for(a: SendAttempt, rec: SpoolRecord) -> bool {
    &&& a.channel == rec.channel
    &&& a.alert.event == rec.event
    &&& a.alert.significance == rec.significance
    &&& a.alert.originator == rec.originator
    &&& a.alert.callsign == rec.callsign
    &&& a.alert.is_national == rec.is_national
    &&& a.alert.is_test == rec.is_test
    &&& a.alert.location_codes@ == rec.location_codes@
    &&& a.alert.location_names@ == rec.location_names@
    &&& a.alert.message_text == rec.message_text
}

/// `(n + 1)` as a count.
pub open spec fn bump(n: usize) -> usize {
    (n + 1) as usize
}

/// The summary `s` with one more malformed line.
pub open spec fn add_malformed(s: ReplaySummary) -> ReplaySummary {
    ReplaySummary { malformed_lines: bump(s.malformed_lines), ..s }
}

/// The summary `s` with one more parsed record that went to `k` (see
/// `route`) and, for a replay, returned `res`.
pub open spec fn add_record(s: ReplaySummary, k: int, res: Result<(), String>) -> ReplaySummary {
    let p = ReplaySummary { parsed_records: bump(s.parsed_records), ..s };
    if k == -1 {
        ReplaySummary { skipped_meshtastic_records: bump(p.skipped_meshtastic_records), ..p }
    } else if k == -2 {
        ReplaySummary { skipped_unknown_sender_records: bump(p.skipped_unknown_sender_records), ..p }
    } else if k == -3 {
        ReplaySummary { skipped_unconfigured_records: bump(p.skipped_unconfigured_records), ..p }
    } else if res is Ok {
        ReplaySummary { replayed_records: bump(p.replayed_records), ..p }
    } else {
        ReplaySummary { failed_records: bump(p.failed_records), ..p }
    }
}

/// The replay of `lines` by senders named `names` whose new send attempts
/// are `logs` (one sequence per sender): the summary, and the records
/// written for failed replays, in line order. Each replayed record takes the
/// result of its sender's next attempt.
pub open spec fn replay_fold(
    lines: Seq<SpoolLine>,
    names: Seq<Seq<char>>,
    logs: Seq<Seq<SendAttempt>>,
) -> (ReplaySummary, Seq<(SpoolRecord, String)>)
    decreases lines.len(),
{
    if lines.len() == 0 {
        (empty_summary(), seq![])
    } else {
        let rest = lines.drop_last();
        match lines.last() {
            SpoolLine::Blank => replay_fold(rest, names, logs),
            SpoolLine::Malformed => {
                let (s, f) = replay_fold(rest, names, logs);
                (add_malformed(s), f)
            },
            SpoolLine::Record(rec) => {
                let k = route(rec.sender@, names);
                if k < 0 {
                    let (s, f) = replay_fold(rest, names, logs);
                    (add_record(s, k, Ok(())), f)
                } else {
                    let res = logs[k].last().result;
                    let (s, f) = replay_fold(rest, names, logs.update(k, logs[k].drop_last()));
                    (add_record(s, k, res), match res {
                        Ok(_) => f,
                        Err(e) => f.push((rec, e)),
                    })
                }
            },
        }
    }
}

/// The records among `lines` that go to sender `k`, in order.
pub open spec fn routed_to(lines: Seq<SpoolLine>, names: Seq<Seq<char>>, k: int) -> Seq<SpoolRecord>
    decreases lines.len(),
{
    if lines.len() == 0 {
        seq![]
    } else {
        let rest = routed_to(lines.drop_last(), names, k);
        match lines.last() {
            SpoolLine::Record(rec) => if route(rec.sender@, names) == k {
                rest.push(rec)
            } else {
                rest
            },
            _ => rest,
        }
    }
}

/// The spool lines of `lines` before the first read error.
pub open spec fn lines_before_error(lines: Seq<Result<SpoolLine, String>>) -> Seq<SpoolLine>
    decreases lines.len(),
{
    if lines.len() == 0 {
        seq![]
    } else {
        match lines[0] {
            Ok(l) => seq![l] + lines_before_error(lines.drop_first()),
            Err(_) => seq![],
        }
    }
}

/// The first read error among `lines`, if any.
pub open spec fn first_read_error(lines: Seq<Result<SpoolLine, String>>) -> Option<String>
    decreases lines.len(),
{
    if lines.len() == 0 {
        None
    } else {
        match lines[0] {
            Ok(_) => first_read_error(lines.drop_first()),
            Err(e) => Some(e),
        }
    }
}

/// `fin` are the senders `s0` after a replay: each keeps its name and has
/// the attempts `logs[j]` added to its own, and nothing else.
pub open spec fn senders_replayed(
    s0: Seq<Box<dyn Sender>>,
    fin: Seq<Box<dyn Sender>>,
    logs: Seq<Seq<SendAttempt>>,
) -> bool {
    &&& fin.len() == s0.len()
    &&& forall|j: int|
        0 <= j < s0.len() ==> #[trigger] fin[j].spec_name() == s0[j].spec_name()
            && fin[j].send_attempts() == s0[j].send_attempts() + logs[j]
}

/// Names of the senders.
pub open spec fn sender_names(s: Seq<Box<dyn Sender>>) -> Seq<Seq<char>> {
    s.map_values(|b: Box<dyn Sender>| b.spec_name())
}

proof fn lemma_last_named(names: Seq<Seq<char>>, name: Seq<char>)
    ensures
        -1 <= last_named(names, name) < names.len(),
        last_named(names, name) >= 0 ==> names[last_named(names, name)] == name,
    decreases names.len(),
{
    if names.len() > 0 {
        lemma_last_named(names.drop_last(), name);
    }
}

/// Number of lines that are not blank.
pub open spec fn nonblank_count(lines: Seq<SpoolLine>) -> nat
    decreases lines.len(),
{
    if lines.len() == 0 {
        0
    } else {
        nonblank_count(lines.drop_last()) + if lines.last() is Blank {
            0nat
        } else {
            1nat
        }
    }
}

/// Number of records that go to a configured sender.
pub open spec fn sent_count(lines: Seq<SpoolLine>, names: Seq<Seq<char>>) -> nat
    decreases lines.len(),
{
    if lines.len() == 0 {
        0
    } else {
        sent_count(lines.drop_last(), names) + match lines.last() {
            SpoolLine::Record(rec) => if route(rec.sender@, names) >= 0 {
                1nat
            } else {
                0nat
            },
            _ => 0nat,
        }
    }
}

/// The replay's counts add up: every line that is not blank is a malformed
/// line or a parsed record; every parsed record was replayed, failed, or
/// skipped for exactly one reason; the records replayed or failed are those
/// that went to a configured sender (each sent once); and one failure record
/// is kept per failed replay.
pub proof fn law_replay_counts_add_up(lines: Seq<SpoolLine>, names: Seq<Seq<char>>, logs: Seq<Seq<SendAttempt>>)
    requires
        lines.len() <= usize::MAX,
    ensures
        ({
            let (s, f) = replay_fold(lines, names, logs);
            &&& s.malformed_lines + s.parsed_records == nonblank_count(lines)
            &&& s.parsed_records == s.replayed_records + s.failed_records + s.skipped_meshtastic_records
                + s.skipped_unconfigured_records + s.skipped_unknown_sender_records
            &&& s.replayed_records + s.failed_records == sent_count(lines, names)
            &&& f.len() == s.failed_records
            &&& nonblank_count(lines) <= lines.len()
        }),
    decreases lines.len(),
{
    if lines.len() > 0 {
        let rest = lines.drop_last();
        match lines.last() {
            SpoolLine::Blank => {
                law_replay_counts_add_up(rest, names, logs);
            },
            SpoolLine::Malformed => {
                law_replay_counts_add_up(rest, names, logs);
            },
            SpoolLine::Record(rec) => {
                let k = route(rec.sender@, names);
                if k < 0 {
                    law_replay_counts_add_up(rest, names, logs);
                } else {
                    law_replay_counts_add_up(rest, names, logs.update(k, logs[k].drop_last()));
                }
            },
        }
    }
}

/// Total length of the first `m` attempt logs.
pub open spec fn logs_total(logs: Seq<Seq<SendAttempt>>, m: int) -> nat
    decreases m,
{
    if m <= 0 {
        0
    } else {
        logs_total(logs, m - 1) + logs[m - 1].len()
    }
}

/// Number of records of `lines` that go to one of the first `m` senders.
pub open spec fn routed_total(lines: Seq<SpoolLine>, names: Seq<Seq<char>>, m: int) -> nat
    decreases m,
{
    if m <= 0 {
        0
    } else {
        routed_total(lines, names, m - 1) + routed_to(lines, names, m - 1).len()
    }
}

proof fn lemma_routed_total_push(lines: Seq<SpoolLine>, names: Seq<Seq<char>>, l: SpoolLine, m: int)
    ensures
        routed_total(lines.push(l), names, m) == routed_total(lines, names, m) + match l {
            SpoolLine::Record(rec) => if 0 <= route(rec.sender@, names) < m {
                1nat
            } else {
                0nat
            },
            _ => 0nat,
        },
    decreases m,
{
    if m > 0 {
        lemma_routed_total_push(lines, names, l, m - 1);
        lemma_routed_push(lines, names, l, m - 1);
    }
}

proof fn lemma_routed_total(lines: Seq<SpoolLine>, names: Seq<Seq<char>>)
    ensures
        routed_total(lines, names, names.len() as int) == sent_count(lines, names),
    decreases lines.len(),
{
    if lines.len() == 0 {
        lemma_routed_total_empty(names, names.len() as int);
        assert(lines =~= Seq::<SpoolLine>::empty());
    } else {
        let rest = lines.drop_last();
        lemma_routed_total(rest, names);
        assert(rest.push(lines.last()) =~= lines);
        lemma_routed_total_push(rest, names, lines.last(), names.len() as int);
        assert(routed_total(lines, names, names.len() as int) == routed_total(
            rest.push(lines.last()),
            names,
            names.len() as int,
        ));
        if let SpoolLine::Record(rec) = lines.last() {
            lemma_last_named(names, rec.sender@);
            assert(route(rec.sender@, names) < names.len());
        }
    }
}

proof fn lemma_routed_total_empty(names: Seq<Seq<char>>, m: int)
    ensures
        routed_total(Seq::<SpoolLine>::empty(), names, m) == 0,
    decreases m,
{
    if m > 0 {
        lemma_routed_total_empty(names, m - 1);
    }
}

proof fn lemma_logs_total(lines: Seq<SpoolLine>, names: Seq<Seq<char>>, logs: Seq<Seq<SendAttempt>>, m: int)
    requires
        replay_consistent(lines, names, logs),
        0 <= m <= names.len(),
    ensures
        logs_total(logs, m) == routed_total(lines, names, m),
    decreases m,
{
    if m > 0 {
        lemma_logs_total(lines, names, logs, m - 1);
        assert(logs[m - 1].len() == routed_to(lines, names, m - 1).len());
    }
}

/// The records that go to sender `k` are records of that sender's name,
/// and that name is one whose failures can be replayed.
proof fn lemma_routed_names(lines: Seq<SpoolLine>, names: Seq<Seq<char>>, k: int)
    requires
        0 <= k,
    ensures
        forall|m: int|
            0 <= m < routed_to(lines, names, k).len() ==> (#[trigger] routed_to(lines, names, k)[m]).sender@
                == names[k] && is_replayable(names[k]),
    decreases lines.len(),
{
    if lines.len() > 0 {
        lemma_routed_names(lines.drop_last(), names, k);
        if let SpoolLine::Record(rec) = lines.last() {
            lemma_last_named(names, rec.sender@);
        }
    }
}

/// A replay makes one send per record it replays or fails, and no other:
/// the senders' new attempts together number the replayed plus the failed
/// records, each sender only receives records of its own name, which is
/// Discord, LXMF or MeshCore, and one failure record is written per failed
/// replay.
pub proof fn law_replay_sends_add_up(lines: Seq<SpoolLine>, names: Seq<Seq<char>>, logs: Seq<Seq<SendAttempt>>)
    requires
        lines.len() <= usize::MAX,
        replay_consistent(lines, names, logs),
    ensures
        logs_total(logs, names.len() as int) == replay_fold(lines, names, logs).0.replayed_records + replay_fold(
            lines,
            names,
            logs,
        ).0.failed_records,
        replay_fold(lines, names, logs).1.len() == replay_fold(lines, names, logs).0.failed_records,
        forall|k: int, m: int|
            0 <= k < names.len() && 0 <= m < logs[k].len() ==> attempt_for(
                #[trigger] logs[k][m],
                routed_to(lines, names, k)[m],
            ) && routed_to(lines, names, k)[m].sender@ == names[k] && is_replayable(names[k]),
{
    law_replay_counts_add_up(lines, names, logs);
    lemma_routed_total(lines, names);
    lemma_logs_total(lines, names, logs, names.len() as int);
    assert forall|k: int, m: int| 0 <= k < names.len() && 0 <= m < logs[k].len() implies attempt_for(
        #[trigger] logs[k][m],
        routed_to(lines, names, k)[m],
    ) && routed_to(lines, names, k)[m].sender@ == names[k] && is_replayable(names[k]) by {
        lemma_routed_names(lines, names, k);
        assert(logs[k].len() == routed_to(lines, names, k).len());
        assert(attempt_for(logs[k][m], routed_to(lines, names, k)[m]));
        assert(routed_to(lines, names, k)[m].sender@ == names[k]);
        assert(is_replayable(names[k]));
    }
}

/// A Meshtastic record is never replayed: no record of `lines` that goes to
/// a configured sender is a Meshtastic record.
pub proof fn law_meshtastic_records_never_replayed(lines: Seq<SpoolLine>, names: Seq<Seq<char>>, k: int)
    requires
        0 <= k,
    ensures
        forall|m: int| 0 <= m < routed_to(lines, names, k).len() ==> (#[trigger] routed_to(lines, names, k)[m]).sender@
            != "meshtastic"@,
    decreases lines.len(),
{
    if lines.len() > 0 {
        law_meshtastic_records_never_replayed(lines.drop_last(), names, k);
    }
}

/// Index of the last name in `names` equal to `name`.
fn find_last(names: &Vec<&'static str>, name: &str) -> (r: Option<usize>)
    ensures
        match r {
            Some(k) => k as int == last_named(names@.map_values(|n: &str| n@), name@),
            None => last_named(names@.map_values(|n: &str| n@), name@) < 0,
        },
        r matches Some(k) ==> k < names@.len(),
{
    let ghost view = names@.map_values(|n: &str| n@);
    let mut i: usize = names.len();
    assert(view.take(i as int) =~= view);
    while i > 0
        invariant
            i <= names@.len(),
            view == names@.map_values(|n: &str| n@),
            last_named(view, name@) == last_named(view.take(i as int), name@),
        decreases i,
    {
        let ghost pre = view.take(i as int);
        assert(pre.drop_last() =~= view.take(i - 1));
        if chars_equal(names[i - 1], name) {
            proof {
                lemma_last_named(view.take(i as int), name@);
            }
            return Some(i - 1);
        }
        i = i - 1;
    }
    assert(view.take(0) =~= Seq::<Seq<char>>::empty());
    None
}

proof fn lemma_lines_before_error(lines: Seq<Result<SpoolLine, String>>, p: int)
    requires
        0 <= p <= lines.len(),
        forall|j: int| 0 <= j < p ==> (#[trigger] lines[j]) is Ok,
        p == lines.len() || lines[p] is Err,
    ensures
        lines_before_error(lines) == lines.take(p).map_values(|r: Result<SpoolLine, String>| r->Ok_0),
        first_read_error(lines) == if p == lines.len() {
            None
        } else {
            Some(lines[p]->Err_0)
        },
    decreases lines.len(),
{
    if lines.len() == 0 {
        assert(lines.take(p).map_values(|r: Result<SpoolLine, String>| r->Ok_0) =~= Seq::<SpoolLine>::empty());
    } else if p == 0 {
        assert(lines.take(p).map_values(|r: Result<SpoolLine, String>| r->Ok_0) =~= Seq::<SpoolLine>::empty());
    } else {
        let d = lines.drop_first();
        assert forall|j: int| 0 <= j < p - 1 implies (#[trigger] d[j]) is Ok by {
            assert(d[j] == lines[j + 1]);
        }
        lemma_lines_before_error(d, p - 1);
        assert(lines.take(p).map_values(|r: Result<SpoolLine, String>| r->Ok_0) =~= seq![lines[0]->Ok_0]
            + d.take(p - 1).map_values(|r: Result<SpoolLine, String>| r->Ok_0));
    }
}

/// Each sender's new attempts `logs[k]` carry, in order, the records of
/// `lines` that go to it.
pub open spec fn replay_consistent(
    lines: Seq<SpoolLine>,
    names: Seq<Seq<char>>,
    logs: Seq<Seq<SendAttempt>>,
) -> bool {
    &&& logs.len() == names.len()
    &&& forall|k: int|
        0 <= k < names.len() ==> {
            &&& (#[trigger] logs[k]).len() == routed_to(lines, names, k).len()
            &&& forall|m: int|
                0 <= m < logs[k].len() ==> attempt_for(logs[k][m], routed_to(lines, names, k)[m])
        }
}

/// The spooler log `post` is `pre` followed by one record per failure in
/// `failures`, in order, each the failed record with its replay error.
pub open spec fn spooled_as(
    post: Seq<SpoolRecord>,
    pre: Seq<SpoolRecord>,
    failures: Seq<(SpoolRecord, String)>,
) -> bool {
    &&& post.len() == pre.len() + failures.len()
    &&& post.take(pre.len() as int) == pre
    &&& forall|m: int|
        0 <= m < failures.len() ==> replay_failure_of(
            #[trigger] post[pre.len() + m],
            failures[m].0,
            failures[m].1,
        )
}

proof fn lemma_routed_push(lines: Seq<SpoolLine>, names: Seq<Seq<char>>, l: SpoolLine, k: int)
    ensures
        routed_to(lines.push(l), names, k) == match l {
            SpoolLine::Record(rec) => if route(rec.sender@, names) == k {
                routed_to(lines, names, k).push(rec)
            } else {
                routed_to(lines, names, k)
            },
            _ => routed_to(lines, names, k),
        },
{
    assert(lines.push(l).drop_last() =~= lines);
}

proof fn lemma_fold_push(
    lines: Seq<SpoolLine>,
    names: Seq<Seq<char>>,
    logs: Seq<Seq<SendAttempt>>,
    l: SpoolLine,
)
    ensures
        replay_fold(lines.push(l), names, logs) == match l {
            SpoolLine::Blank => replay_fold(lines, names, logs),
            SpoolLine::Malformed => (add_malformed(replay_fold(lines, names, logs).0), replay_fold(lines, names, logs).1),
            SpoolLine::Record(rec) => {
                let k = route(rec.sender@, names);
                if k < 0 {
                    (add_record(replay_fold(lines, names, logs).0, k, Ok(())), replay_fold(lines, names, logs).1)
                } else {
                    let res = logs[k].last().result;
                    let (s, f) = replay_fold(lines, names, logs.update(k, logs[k].drop_last()));
                    (add_record(s, k, res), match res {
                        Ok(_) => f,
                        Err(e) => f.push((rec, e)),
                    })
                }
            },
        },
{
    assert(lines.push(l).drop_last() =~= lines);
}

/// Replays every spooled record through the configured sender of its
/// sender's name.
///
/// Lines are taken in order. A read error stops the replay and is returned.
/// Blank lines are skipped; malformed lines are counted and skipped. A
/// Meshtastic record is never replayed; a record of a sender other than
/// Discord, LXMF or MeshCore, or of one that is not configured, is counted
/// and skipped. Every other record is sent once through its sender (the
/// last one of that name); a failure does not stop the replay, is counted,
/// and, when `failed_spooler` is given, is written to it with the error
/// `"Replay failed: "` and the sender's error.
///
/// The attempts `logs` of the contract are the sends each sender made
/// during the replay: every sender ends with its name unchanged and with
/// those attempts added to its own.
pub fn replay_spool_lines(
    lines: Vec<Result<SpoolLine, String>>,
    senders: Vec<Box<dyn Sender>>,
    failed_spooler: Option<&mut dyn Spooler>,
) -> (r: Result<ReplaySummary, String>)
    ensures
        first_read_error(lines@) is Some <==> r is Err,
        r matches Err(e) ==> first_read_error(lines@) == Some(e),
        exists|logs: Seq<Seq<SendAttempt>>, fin: Seq<Box<dyn Sender>>|
            #![trigger replay_consistent(lines_before_error(lines@), sender_names(senders@), logs), senders_replayed(senders@, fin, logs)]
            {
                &&& replay_consistent(
                    lines_before_error(lines@),
                    sender_names(senders@),
                    logs,
                )
                &&& senders_replayed(senders@, fin, logs)
                &&& r matches Ok(s) ==> s == replay_fold(
                    lines_before_error(lines@),
                    sender_names(senders@),
                    logs,
                ).0
                &&& failed_spooler matches Some(sp) ==> spooled_as(
                    final(sp).spool_attempts(),
                    sp.spool_attempts(),
                    replay_fold(lines_before_error(lines@), sender_names(senders@), logs).1,
                )
            },
{
    match failed_spooler {
        Some(sp) => replay_into(lines, senders, sp, true),
        None => {
            let mut discard = DiscardSpooler { log: Ghost(Seq::empty()) };
            replay_into(lines, senders, &mut discard, false)
        },
    }
}

/// A spooler that keeps nothing, for a replay without a failure output.
struct DiscardSpooler {
    log: Ghost<Seq<SpoolRecord>>,
}

impl Spooler for DiscardSpooler {
    closed spec fn spool_attempts(&self) -> Seq<SpoolRecord> {
        self.log@
    }

    fn spool(&mut self, record: &SpoolRecord) -> (r: Result<(), String>) {
        proof {
            self.log@ = self.log@.push(*record);
        }
        Ok(())
    }
}

fn replay_into<S: Spooler + ?Sized>(
    lines: Vec<Result<SpoolLine, String>>,
    senders: Vec<Box<dyn Sender>>,
    spooler: &mut S,
    spool_failures: bool,
) -> (r: Result<ReplaySummary, String>)
    ensures
        first_read_error(lines@) is Some <==> r is Err,
        r matches Err(e) ==> first_read_error(lines@) == Some(e),
        exists|logs: Seq<Seq<SendAttempt>>, fin: Seq<Box<dyn Sender>>|
            #![trigger replay_consistent(lines_before_error(lines@), sender_names(senders@), logs), senders_replayed(senders@, fin, logs)]
            {
                &&& replay_consistent(
                    lines_before_error(lines@),
                    sender_names(senders@),
                    logs,
                )
                &&& senders_replayed(senders@, fin, logs)
                &&& r matches Ok(s) ==> s == replay_fold(
                    lines_before_error(lines@),
                    sender_names(senders@),
                    logs,
                ).0
                &&& spool_failures ==> spooled_as(
                    final(spooler).spool_attempts(),
                    old(spooler).spool_attempts(),
                    replay_fold(lines_before_error(lines@), sender_names(senders@), logs).1,
                )
            },
{
    let ghost lines0 = lines@;
    let ghost s0 = senders@;
    let ghost names_v = sender_names(s0);
    let mut active = senders;
    let ghost spool0: Seq<SpoolRecord> = spooler.spool_attempts();
    // Sender names, looked up by name for each record.
    let mut names: Vec<&'static str> = Vec::new();
    let mut k: usize = 0;
    while k < active.len()
        invariant
            active@ == s0,
            names_v == sender_names(s0),
            k <= s0.len(),
            names@.len() == k,
            forall|j: int| 0 <= j < k ==> (#[trigger] names@[j])@ == names_v[j],
        decreases s0.len() - k,
    {
        names.push(active[k].name());
        k = k + 1;
    }
    assert(names@.map_values(|n: &str| n@) =~= names_v);
    // Reverse the lines so that popping yields them in order.
    let mut pending = lines;
    let mut stack: Vec<Result<SpoolLine, String>> = Vec::new();
    while pending.len() > 0
        invariant
            pending@.len() + stack@.len() == lines0.len(),
            pending@ == lines0.take(pending@.len() as int),
            forall|j: int| 0 <= j < stack@.len() ==> #[trigger] stack@[j] == lines0[lines0.len() - 1 - j],
        decreases pending@.len(),
    {
        let x = pending.pop().unwrap();
        stack.push(x);
    }
    let mut summary = ReplaySummary::default();
    let ghost mut logs: Seq<Seq<SendAttempt>> = Seq::new(s0.len(), |j: int| seq![]);
    let ghost mut done: Seq<SpoolLine> = seq![];
    let n = stack.len();
    let mut i: usize = 0;
    proof {
        assert(lines0.take(0).map_values(|r: Result<SpoolLine, String>| r->Ok_0) =~= done);
        assert(spool0.take(spool0.len() as int) =~= spool0);
        assert forall|k: int| 0 <= k < names_v.len() implies (#[trigger] logs[k]).len() == routed_to(done, names_v, k).len() by {}
        assert forall|j: int| 0 <= j < s0.len() implies (#[trigger] active@[j]).send_attempts() == s0[j].send_attempts() + logs[j] by {
            assert(s0[j].send_attempts() + logs[j] =~= s0[j].send_attempts());
        }
    }
    while i < n
        invariant
            n == lines0.len(),
            lines0 == lines@,
            s0 == senders@,
            i <= n,
            stack@.len() == n - i,
            forall|j: int| 0 <= j < stack@.len() ==> #[trigger] stack@[j] == lines0[lines0.len() - 1 - j],
            names@.map_values(|n: &str| n@) == names_v,
            names_v == sender_names(s0),
            active@.len() == s0.len(),
            forall|j: int| 0 <= j < s0.len() ==> (#[trigger] active@[j]).spec_name() == s0[j].spec_name(),
            forall|j: int| 0 <= j < s0.len() ==> (#[trigger] active@[j]).send_attempts() == s0[j].send_attempts() + logs[j],
            forall|j: int| 0 <= j < i ==> (#[trigger] lines0[j]) is Ok,
            done == lines0.take(i as int).map_values(|r: Result<SpoolLine, String>| r->Ok_0),
            replay_consistent(done, names_v, logs),
            summary == replay_fold(done, names_v, logs).0,
            summary.parsed_records <= i && summary.replayed_records <= i && summary.failed_records <= i
                && summary.malformed_lines <= i && summary.skipped_meshtastic_records <= i
                && summary.skipped_unconfigured_records <= i && summary.skipped_unknown_sender_records <= i,
            spool0 == old(spooler).spool_attempts(),
            spool_failures ==> spooled_as(spooler.spool_attempts(), spool0, replay_fold(done, names_v, logs).1),
        decreases n - i,
    {
        assert(stack@[stack@.len() - 1] == lines0[i as int]);
        let item = stack.pop().unwrap();
        assert(item == lines0[i as int]);
        let line = match item {
            Ok(line) => line,
            Err(e) => {
                proof {
                    lemma_lines_before_error(lines0, i as int);
                    assert(lines0.take(i as int).map_values(|r: Result<SpoolLine, String>| r->Ok_0) == done);
                    assert(replay_consistent(lines_before_error(lines0), names_v, logs));
                    assert(lines0[i as int] == Err::<SpoolLine, String>(e));
                    assert(first_read_error(lines0) == Some(e));
                    assert(first_read_error(lines@) == Some(e));
                    assert(senders_replayed(s0, active@, logs));
                }
                return Err(e);
            },
        };
        proof {
            assert(lines0.take(i + 1).map_values(|r: Result<SpoolLine, String>| r->Ok_0)
                =~= done.push(line));
        }
        let ghost done1 = done.push(line);
        match line {
            SpoolLine::Blank => {
                proof {
                    lemma_fold_push(done, names_v, logs, line);
                    assert forall|k: int| 0 <= k < names_v.len() implies routed_to(done1, names_v, k) == routed_to(done, names_v, k) by {
                        lemma_routed_push(done, names_v, line, k);
                    }
                }
            },
            SpoolLine::Malformed => {
                summary.malformed_lines = summary.malformed_lines + 1;
                proof {
                    lemma_fold_push(done, names_v, logs, SpoolLine::Malformed);
                    assert forall|k: int| 0 <= k < names_v.len() implies routed_to(done1, names_v, k) == routed_to(done, names_v, k) by {
                        lemma_routed_push(done, names_v, SpoolLine::Malformed, k);
                    }
                }
            },
            SpoolLine::Record(record) => {
                let ghost rec = record;
                let ghost k0 = route(rec.sender@, names_v);
                let ghost logs_b = logs;
                let ghost spooled_b = spooler.spool_attempts();
                proof {
                    lemma_last_named(names_v, rec.sender@);
                }
                summary.parsed_records = summary.parsed_records + 1;
                let sender = record.sender.as_str();
                if chars_equal(sender, "meshtastic") {
                    summary.skipped_meshtastic_records = summary.skipped_meshtastic_records + 1;
                } else if !(chars_equal(sender, "discord") || chars_equal(sender, "lxmf")
                    || chars_equal(sender, "meshcore")) {
                    summary.skipped_unknown_sender_records = summary.skipped_unknown_sender_records + 1;
                } else {
                    match find_last(&names, sender) {
                        None => {
                            summary.skipped_unconfigured_records = summary.skipped_unconfigured_records
                                + 1;
                        },
                        Some(k) => {
                            let alert = record.to_alert();
                            let res = active[k].send_alert(&alert, record.channel);
                            let ghost a = SendAttempt { alert, channel: record.channel, result: res };
                            proof {
                                assert(active@[k as int].send_attempts() =~= s0[k as int].send_attempts()
                                    + logs[k as int].push(a));
                                assert(is_replayable(rec.sender@));
                                assert(rec.sender@ != "meshtastic"@);
                                assert(k as int == last_named(names_v, rec.sender@));
                                assert(k0 == k as int);
                                logs = logs.update(k as int, logs[k as int].push(a));
                                assert(logs[k0].drop_last() =~= logs_b[k0]);
                                assert(logs.update(k0, logs[k0].drop_last()) =~= logs_b);
                                assert(attempt_for(a, rec));
                            }
                            match res {
                                Ok(()) => {
                                    summary.replayed_records = summary.replayed_records + 1;
                                },
                                Err(e) => {
                                    summary.failed_records = summary.failed_records + 1;
                                    let mut msg = String::new();
                                    push_str(&mut msg, "Replay failed: ");
                                    push_str(&mut msg, e.as_str());
                                    let mut failed_record = record;
                                    failed_record.error = msg;
                                    assert(replay_failure_of(failed_record, rec, e));
                                    if spool_failures {
                                        let _ = spooler.spool(&failed_record);
                                        proof {
                                            let post = spooler.spool_attempts();
                                            let f = replay_fold(done, names_v, logs_b).1;
                                            assert(post.take(spool0.len() as int) =~= spooled_b.take(spool0.len() as int));
                                            assert forall|m: int| 0 <= m < f.len() + 1 implies replay_failure_of(
                                                #[trigger] post[spool0.len() + m],
                                                f.push((rec, e))[m].0,
                                                f.push((rec, e))[m].1,
                                            ) by {
                                                if m < f.len() {
                                                    assert(post[spool0.len() + m] == spooled_b[spool0.len() + m]);
                                                }
                                            }
                                        }
                                    }
                                },
                            }
                        },
                    }
                }
                proof {
                    lemma_fold_push(done, names_v, logs, line);
                    assert forall|j: int| 0 <= j < names_v.len() implies routed_to(done1, names_v, j) == if j == k0 {
                        routed_to(done, names_v, j).push(rec)
                    } else {
                        routed_to(done, names_v, j)
                    } by {
                        lemma_routed_push(done, names_v, line, j);
                    }
                    assert forall|j: int| 0 <= j < names_v.len() implies {
                        &&& (#[trigger] logs[j]).len() == routed_to(done1, names_v, j).len()
                        &&& forall|m: int|
                            0 <= m < logs[j].len() ==> attempt_for(logs[j][m], routed_to(done1, names_v, j)[m])
                    } by {
                        if j != k0 {
                            assert(logs[j] == logs_b[j]);
                        } else {
                            assert forall|m: int| 0 <= m < logs[j].len() implies attempt_for(logs[j][m], routed_to(done1, names_v, j)[m]) by {
                                if m < logs_b[j].len() {
                                    assert(logs[j][m] == logs_b[j][m]);
                                }
                            }
                        }
                    }
                }
            },
        }
        proof {
            done = done1;
        }
        i = i + 1;
    }
    proof {
        assert(lines0.take(n as int) =~= lines0);
        lemma_lines_before_error(lines0, n as int);
        assert(replay_consistent(lines_before_error(lines0), names_v, logs));
        assert(lines_before_error(lines@) == done);
        assert(summary == replay_fold(lines_before_error(lines@), sender_names(senders@), logs).0);
        assert(senders_replayed(s0, active@, logs));
    }
    Ok(summary)
}

} // verus!
