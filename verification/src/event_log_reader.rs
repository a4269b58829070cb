//! Reads the local event log back into what the dashboard shows.
use vstd::prelude::*;
use crate::event_contracts::{AlertRecord, DeliveryAttemptRecord, SenderStatusRecord};
use crate::text::push_str;

verus! {

/// Most records the dashboard reads from the event log.
pub const MAX_DISPLAY_RECORDS: usize = 500;

/// One line of the event log, as read.
pub enum DashboardLine {
    /// The line could not be read; the reader's error message.
    ReadError(String),
    /// A line that is not a record the dashboard shows.
    Malformed,
    /// An alert record.
    Alert(AlertRecord),
    /// A delivery attempt record.
    DeliveryAttempt(DeliveryAttemptRecord),
    /// A sender status record.
    SenderStatus(SenderStatusRecord),
}

/// The delivery attempts recorded for one alert, in log order.
#[derive(Debug, PartialEq, Eq)]
pub struct AttemptGroup {
    pub alert_id: String,
    pub attempts: Vec<DeliveryAttemptRecord>,
}

/// What the dashboard shows of the event log.
#[derive(Debug, PartialEq, Eq)]
pub struct DashboardData {
    /// Alerts, newest first.
    pub alerts: Vec<AlertRecord>,
    /// Delivery attempts grouped by alert id, groups in order of first
    /// appearance.
    pub delivery_attempts_by_alert: Vec<AttemptGroup>,
    /// The latest status of each sender, ordered by when it was last updated.
    pub sender_statuses: Vec<SenderStatusRecord>,
    pub malformed_lines: usize,
    pub parsed_records: usize,
    pub truncated_records: usize,
    pub read_error: Option<String>,
}

impl Default for DashboardData {
    fn default() -> (d: Self)
        ensures
            d.alerts@.len() == 0,
            d.delivery_attempts_by_alert@.len() == 0,
            d.sender_statuses@.len() == 0,
            d.malformed_lines == 0,
            d.parsed_records == 0,
            d.truncated_records == 0,
            d.read_error is None,
    {
        DashboardData {
            alerts: Vec::new(),
            delivery_attempts_by_alert: Vec::new(),
            sender_statuses: Vec::new(),
            malformed_lines: 0,
            parsed_records: 0,
            truncated_records: 0,
            read_error: None,
        }
    }
}

/// Index of the group of alert `id` (the last one, should several share
/// it), or -1.
pub open spec fn find_group(g: Seq<AttemptGroup>, id: Seq<char>) -> int
    decreases g.len(),
{
    if g.len() == 0 {
        -1
    } else if g.last().alert_id@ == id {
        g.len() - 1
    } else {
        find_group(g.drop_last(), id)
    }
}

pub proof fn lemma_find_group(g: Seq<AttemptGroup>, id: Seq<char>)
    ensures
        -1 <= find_group(g, id) < g.len(),
        find_group(g, id) >= 0 ==> g[find_group(g, id)].alert_id@ == id,
    decreases g.len(),
{
    if g.len() > 0 {
        lemma_find_group(g.drop_last(), id);
    }
}

impl DashboardData {
    /// The delivery attempts recorded for alert `alert_id`, if any.
    pub fn attempts_for(&self, alert_id: &str) -> (r: Option<&Vec<DeliveryAttemptRecord>>)
        ensures
            find_group(self.delivery_attempts_by_alert@, alert_id@) < 0 <==> r is None,
            r matches Some(v) ==> *v == self.delivery_attempts_by_alert@[find_group(
                self.delivery_attempts_by_alert@,
                alert_id@,
            )].attempts,
    {
        let groups = &self.delivery_attempts_by_alert;
        let mut i: usize = groups.len();
        assert(groups@.take(i as int) =~= groups@);
        while i > 0
            invariant
                i <= groups@.len(),
                groups@ == self.delivery_attempts_by_alert@,
                find_group(groups@, alert_id@) == find_group(groups@.take(i as int), alert_id@),
            decreases i,
        {
            assert(groups@.take(i as int).drop_last() =~= groups@.take(i - 1));
            if crate::text::chars_equal(groups[i - 1].alert_id.as_str(), alert_id) {
                return Some(&groups[i - 1].attempts);
            }
            i = i - 1;
        }
        None
    }
}

/// Whether the line holds a record the dashboard shows.
pub open spec fn is_record_line(l: DashboardLine) -> bool {
    l is Alert || l is DeliveryAttempt || l is SenderStatus
}

/// The record lines that are read, in order: those that come while fewer
/// than `max` records have been read.
pub open spec fn accepted(lines: Seq<DashboardLine>, max: nat) -> Seq<DashboardLine>
    decreases lines.len(),
{
    if lines.len() == 0 {
        seq![]
    } else {
        let a = accepted(lines.drop_last(), max);
        if is_record_line(lines.last()) && a.len() < max {
            a.push(lines.last())
        } else {
            a
        }
    }
}

/// Number of readable lines that come once `max` records have been read.
pub open spec fn truncated_count(lines: Seq<DashboardLine>, max: nat) -> nat
    decreases lines.len(),
{
    if lines.len() == 0 {
        0
    } else {
        let t = truncated_count(lines.drop_last(), max);
        if !(lines.last() is ReadError) && accepted(lines.drop_last(), max).len() >= max {
            t + 1
        } else {
            t
        }
    }
}

/// Number of lines that could not be read, plus malformed lines that come
/// while fewer than `max` records have been read.
pub open spec fn malformed_count(lines: Seq<DashboardLine>, max: nat) -> nat
    decreases lines.len(),
{
    if lines.len() == 0 {
        0
    } else {
        let m = malformed_count(lines.drop_last(), max);
        if lines.last() is ReadError || (lines.last() is Malformed && accepted(
            lines.drop_last(),
            max,
        ).len() < max) {
            m + 1
        } else {
            m
        }
    }
}

/// The message of the last line that could not be read.
pub open spec fn last_read_error(lines: Seq<DashboardLine>) -> Option<Seq<char>>
    decreases lines.len(),
{
    if lines.len() == 0 {
        None
    } else {
        match lines.last() {
            DashboardLine::ReadError(e) => Some("Unable to read event log line: "@ + e@),
            _ => last_read_error(lines.drop_last()),
        }
    }
}

/// The alert records among `lines`, in order.
pub open spec fn alerts_of(lines: Seq<DashboardLine>) -> Seq<AlertRecord>
    decreases lines.len(),
{
    if lines.len() == 0 {
        seq![]
    } else {
        match lines.last() {
            DashboardLine::Alert(r) => alerts_of(lines.drop_last()).push(r),
            _ => alerts_of(lines.drop_last()),
        }
    }
}

/// The delivery attempt records among `lines`, in order.
pub open spec fn attempts_of(lines: Seq<DashboardLine>) -> Seq<DeliveryAttemptRecord>
    decreases lines.len(),
{
    if lines.len() == 0 {
        seq![]
    } else {
        match lines.last() {
            DashboardLine::DeliveryAttempt(r) => attempts_of(lines.drop_last()).push(r),
            _ => attempts_of(lines.drop_last()),
        }
    }
}

/// The sender status records among `lines`, in order.
pub open spec fn statuses_of(lines: Seq<DashboardLine>) -> Seq<SenderStatusRecord>
    decreases lines.len(),
{
    if lines.len() == 0 {
        seq![]
    } else {
        match lines.last() {
            DashboardLine::SenderStatus(r) => statuses_of(lines.drop_last()).push(r),
            _ => statuses_of(lines.drop_last()),
        }
    }
}

/// Alerts newest first by their place in the event log: the alert read last
/// comes first. (The log is ordered by file position first; timestamps,
/// which offline clocks may get wrong, never reorder it.)
pub open spec fn newest_first(s: Seq<AlertRecord>) -> Seq<AlertRecord>
    decreases s.len(),
{
    if s.len() == 0 {
        seq![]
    } else {
        newest_first(s.drop_last()).insert(0, s.last())
    }
}

/// Index of the group keyed `id`, or -1.
pub open spec fn group_index(groups: Seq<(Seq<char>, Seq<DeliveryAttemptRecord>)>, id: Seq<char>) -> int
    decreases groups.len(),
{
    if groups.len() == 0 {
        -1
    } else if groups.last().0 == id {
        groups.len() - 1
    } else {
        group_index(groups.drop_last(), id)
    }
}

/// Delivery attempts grouped by alert id: groups in order of first
/// appearance, attempts of a group in order.
pub open spec fn grouped(s: Seq<DeliveryAttemptRecord>) -> Seq<(Seq<char>, Seq<DeliveryAttemptRecord>)>
    decreases s.len(),
{
    if s.len() == 0 {
        seq![]
    } else {
        let g = grouped(s.drop_last());
        let r = s.last();
        let j = group_index(g, r.alert_id@);
        if j < 0 {
            g.push((r.alert_id@, seq![r]))
        } else {
            g.update(j, (g[j].0, g[j].1.push(r)))
        }
    }
}

/// Index of the status of sender `name`, or -1.
pub open spec fn status_index(s: Seq<SenderStatusRecord>, name: Seq<char>) -> int
    decreases s.len(),
{
    if s.len() == 0 {
        -1
    } else if s.last().sender@ == name {
        s.len() - 1
    } else {
        status_index(s.drop_last(), name)
    }
}

/// The latest status of each sender, ordered by when it was last updated.
pub open spec fn latest_statuses(s: Seq<SenderStatusRecord>) -> Seq<SenderStatusRecord>
    decreases s.len(),
{
    if s.len() == 0 {
        seq![]
    } else {
        let l = latest_statuses(s.drop_last());
        let j = status_index(l, s.last().sender@);
        if j < 0 {
            l.push(s.last())
        } else {
            l.remove(j).push(s.last())
        }
    }
}

/// The groups as alert ids and attempt sequences.
pub open spec fn groups_view(v: Seq<AttemptGroup>) -> Seq<(Seq<char>, Seq<DeliveryAttemptRecord>)> {
    v.map_values(|g: AttemptGroup| (g.alert_id@, g.attempts@))
}

/// What `read_dashboard_lines(lines, max)` returns, over the lines read.
pub open spec fn dashboard_of(d: DashboardData, lines: Seq<DashboardLine>, max: nat) -> bool {
    let a = accepted(lines, max);
    &&& d.parsed_records == a.len()
    &&& d.truncated_records == truncated_count(lines, max)
    &&& d.malformed_lines == malformed_count(lines, max)
    &&& d.read_error.is_some() == last_read_error(lines).is_some()
    &&& d.read_error matches Some(e) ==> last_read_error(lines) == Some(e@)
    &&& d.alerts@ == newest_first(alerts_of(a))
    &&& groups_view(d.delivery_attempts_by_alert@) == grouped(attempts_of(a))
    &&& d.sender_statuses@ == latest_statuses(statuses_of(a))
}

/// Whether some line could not be read.
pub open spec fn has_read_error(lines: Seq<DashboardLine>) -> bool {
    exists|i: int| 0 <= i < lines.len() && #[trigger] lines[i] is ReadError
}

/// The reader's counts add up: every line is a parsed record, a malformed
/// line or a truncated one; at most `max` records are parsed, and lines are
/// truncated only once `max` records have been parsed; a read error is
/// reported exactly when some line could not be read.
pub proof fn law_dashboard_counts_add_up(lines: Seq<DashboardLine>, max: nat)
    ensures
        accepted(lines, max).len() + malformed_count(lines, max) + truncated_count(lines, max) == lines.len(),
        accepted(lines, max).len() <= max,
        truncated_count(lines, max) > 0 ==> accepted(lines, max).len() == max,
        last_read_error(lines) is Some <==> has_read_error(lines),
    decreases lines.len(),
{
    if lines.len() > 0 {
        let rest = lines.drop_last();
        law_dashboard_counts_add_up(rest, max);
        if has_read_error(rest) {
            let i = choose|i: int| 0 <= i < rest.len() && #[trigger] rest[i] is ReadError;
            assert(lines[i] == rest[i]);
        }
        if lines.last() is ReadError {
            assert(lines[lines.len() - 1] is ReadError);
        }
        if has_read_error(lines) {
            let i = choose|i: int| 0 <= i < lines.len() && #[trigger] lines[i] is ReadError;
            if i < lines.len() - 1 {
                assert(rest[i] == lines[i]);
            }
        }
    }
}

/// Sender statuses are listed once per sender: no two of them name the same
/// sender.
pub proof fn law_one_status_per_sender(s: Seq<SenderStatusRecord>)
    ensures
        forall|i: int, j: int|
            0 <= i < j < latest_statuses(s).len() ==> (#[trigger] latest_statuses(s)[i]).sender@
                != (#[trigger] latest_statuses(s)[j]).sender@,
    decreases s.len(),
{
    if s.len() > 0 {
        let l = latest_statuses(s.drop_last());
        law_one_status_per_sender(s.drop_last());
        let name = s.last().sender@;
        let j = status_index(l, name);
        lemma_status_index(l, name);
        let r = latest_statuses(s);
        if j < 0 {
            assert(r == l.push(s.last()));
            assert forall|a: int, b: int| 0 <= a < b < r.len() implies (#[trigger] r[a]).sender@
                != (#[trigger] r[b]).sender@ by {
                if b == r.len() - 1 {
                    assert(r[a] == l[a]);
                } else {
                    assert(r[a] == l[a] && r[b] == l[b]);
                }
            }
        } else {
            let m = l.remove(j);
            l.remove_ensures(j);
            assert(r == m.push(s.last()));
            assert forall|a: int, b: int| 0 <= a < b < r.len() implies (#[trigger] r[a]).sender@
                != (#[trigger] r[b]).sender@ by {
                let ia = if a < j { a } else { a + 1 };
                assert(r[a] == l[ia]);
                if b == r.len() - 1 {
                    assert(ia != j);
                    assert(l[ia].sender@ != l[j].sender@);
                } else {
                    let ib = if b < j { b } else { b + 1 };
                    assert(r[b] == l[ib]);
                    assert(ia < ib);
                }
            }
        }
    }
}

/// Delivery attempts are grouped by alert id: one group per alert id, and
/// every attempt of a group carries that group's alert id.
pub proof fn law_attempts_grouped_by_alert(s: Seq<DeliveryAttemptRecord>)
    ensures
        forall|a: int, b: int|
            0 <= a < b < grouped(s).len() ==> (#[trigger] grouped(s)[a]).0 != (#[trigger] grouped(s)[b]).0,
        forall|g: int, m: int|
            0 <= g < grouped(s).len() && 0 <= m < grouped(s)[g].1.len() ==> (#[trigger] grouped(s)[g].1[m]).alert_id@
                == grouped(s)[g].0,
    decreases s.len(),
{
    if s.len() > 0 {
        let g0 = grouped(s.drop_last());
        law_attempts_grouped_by_alert(s.drop_last());
        let r = s.last();
        let j = group_index(g0, r.alert_id@);
        lemma_group_index(g0, r.alert_id@);
        let g1 = grouped(s);
        if j < 0 {
            assert(g1 == g0.push((r.alert_id@, seq![r])));
            assert forall|a: int, b: int| 0 <= a < b < g1.len() implies (#[trigger] g1[a]).0 != (#[trigger] g1[b]).0 by {
                assert(g1[a] == g0[a]);
                if b < g0.len() {
                    assert(g1[b] == g0[b]);
                }
            }
            assert forall|g: int, m: int| 0 <= g < g1.len() && 0 <= m < g1[g].1.len() implies (#[trigger] g1[g].1[m]).alert_id@
                == g1[g].0 by {
                if g < g0.len() {
                    assert(g1[g] == g0[g]);
                }
            }
        } else {
            assert(g1 == g0.update(j, (g0[j].0, g0[j].1.push(r))));
            assert forall|a: int, b: int| 0 <= a < b < g1.len() implies (#[trigger] g1[a]).0 != (#[trigger] g1[b]).0 by {
                assert(g1[a].0 == g0[a].0);
                assert(g1[b].0 == g0[b].0);
            }
            assert forall|g: int, m: int| 0 <= g < g1.len() && 0 <= m < g1[g].1.len() implies (#[trigger] g1[g].1[m]).alert_id@
                == g1[g].0 by {
                if g != j {
                    assert(g1[g] == g0[g]);
                } else if m < g0[j].1.len() {
                    assert(g1[g].1[m] == g0[j].1[m]);
                }
            }
        }
    }
}

/// The dashboard's alerts are the alerts read, in reverse order of reading:
/// the one read last comes first.
pub proof fn law_alerts_newest_first(s: Seq<AlertRecord>)
    ensures
        newest_first(s).len() == s.len(),
        forall|i: int| 0 <= i < s.len() ==> #[trigger] newest_first(s)[i] == s[s.len() - 1 - i],
    decreases s.len(),
{
    if s.len() > 0 {
        let rest = s.drop_last();
        law_alerts_newest_first(rest);
        assert forall|i: int| 0 <= i < s.len() implies #[trigger] newest_first(s)[i] == s[s.len() - 1 - i] by {
            if i > 0 {
                assert(newest_first(s)[i] == newest_first(rest)[i - 1]);
                assert(rest[rest.len() - 1 - (i - 1)] == s[s.len() - 1 - i]);
            }
        }
    }
}

proof fn lemma_line_step(lines: Seq<DashboardLine>, l: DashboardLine, max: nat)
    ensures
        ({
            let t = lines.push(l);
            let a = accepted(lines, max);
            &&& accepted(t, max) == if is_record_line(l) && a.len() < max {
                a.push(l)
            } else {
                a
            }
            &&& truncated_count(t, max) == if !(l is ReadError) && a.len() >= max {
                truncated_count(lines, max) + 1
            } else {
                truncated_count(lines, max)
            }
            &&& malformed_count(t, max) == if l is ReadError || (l is Malformed && a.len() < max) {
                malformed_count(lines, max) + 1
            } else {
                malformed_count(lines, max)
            }
            &&& last_read_error(t) == match l {
                DashboardLine::ReadError(e) => Some("Unable to read event log line: "@ + e@),
                _ => last_read_error(lines),
            }
        }),
{
    assert(lines.push(l).drop_last() =~= lines);
}

proof fn lemma_record_step(a: Seq<DashboardLine>, l: DashboardLine)
    ensures
        alerts_of(a.push(l)) == match l {
            DashboardLine::Alert(r) => alerts_of(a).push(r),
            _ => alerts_of(a),
        },
        attempts_of(a.push(l)) == match l {
            DashboardLine::DeliveryAttempt(r) => attempts_of(a).push(r),
            _ => attempts_of(a),
        },
        statuses_of(a.push(l)) == match l {
            DashboardLine::SenderStatus(r) => statuses_of(a).push(r),
            _ => statuses_of(a),
        },
{
    assert(a.push(l).drop_last() =~= a);
}

proof fn lemma_view_step(
    a: Seq<AlertRecord>,
    r: AlertRecord,
    d: Seq<DeliveryAttemptRecord>,
    x: DeliveryAttemptRecord,
    st: Seq<SenderStatusRecord>,
    y: SenderStatusRecord,
)
    ensures
        newest_first(a.push(r)) == newest_first(a).insert(0, r),
        grouped(d.push(x)) == ({
            let g = grouped(d);
            let j = group_index(g, x.alert_id@);
            if j < 0 {
                g.push((x.alert_id@, seq![x]))
            } else {
                g.update(j, (g[j].0, g[j].1.push(x)))
            }
        }),
        latest_statuses(st.push(y)) == ({
            let l = latest_statuses(st);
            let j = status_index(l, y.sender@);
            if j < 0 {
                l.push(y)
            } else {
                l.remove(j).push(y)
            }
        }),
{
    assert(a.push(r).drop_last() =~= a);
    assert(d.push(x).drop_last() =~= d);
    assert(st.push(y).drop_last() =~= st);
}

proof fn lemma_accepted_len(lines: Seq<DashboardLine>, max: nat)
    ensures
        accepted(lines, max).len() <= max,
        accepted(lines, max).len() <= lines.len(),
        truncated_count(lines, max) <= lines.len(),
        malformed_count(lines, max) <= lines.len(),
        alerts_of(accepted(lines, max)).len() <= accepted(lines, max).len(),
    decreases lines.len(),
{
    if lines.len() > 0 {
        lemma_accepted_len(lines.drop_last(), max);
        let a = accepted(lines.drop_last(), max);
        lemma_record_step(a, lines.last());
        lemma_alerts_len(accepted(lines, max));
    }
}

proof fn lemma_alerts_len(a: Seq<DashboardLine>)
    ensures
        alerts_of(a).len() <= a.len(),
    decreases a.len(),
{
    if a.len() > 0 {
        lemma_alerts_len(a.drop_last());
    }
}

proof fn lemma_newest_first_len(s: Seq<AlertRecord>)
    ensures
        newest_first(s).len() == s.len(),
    decreases s.len(),
{
    if s.len() > 0 {
        lemma_newest_first_len(s.drop_last());
    }
}

/// Puts `r` first in `alerts`, kept newest first.
fn insert_newest_first(alerts: &mut Vec<AlertRecord>, r: AlertRecord)
    ensures
        final(alerts)@ == old(alerts)@.insert(0, r),
{
    alerts.insert(0, r);
}

proof fn lemma_group_index(groups: Seq<(Seq<char>, Seq<DeliveryAttemptRecord>)>, id: Seq<char>)
    ensures
        -1 <= group_index(groups, id) < groups.len(),
        group_index(groups, id) >= 0 ==> groups[group_index(groups, id)].0 == id,
        group_index(groups, id) < 0 ==> forall|k: int| 0 <= k < groups.len() ==> groups[k].0 != id,
        group_index(groups, id) >= 0 ==> forall|k: int|
            group_index(groups, id) < k < groups.len() ==> groups[k].0 != id,
    decreases groups.len(),
{
    if groups.len() > 0 {
        let d = groups.drop_last();
        lemma_group_index(d, id);
        assert forall|k: int| 0 <= k < d.len() implies d[k] == groups[k] by {}
    }
}

/// Adds `r` to the group of its alert id, opening a new group at the end
/// when there is none.
fn add_attempt(groups: &mut Vec<AttemptGroup>, r: DeliveryAttemptRecord)
    ensures
        ({
            let g = groups_view(old(groups)@);
            let j = group_index(g, r.alert_id@);
            groups_view(final(groups)@) == if j < 0 {
                g.push((r.alert_id@, seq![r]))
            } else {
                g.update(j, (g[j].0, g[j].1.push(r)))
            }
        }),
{
    let ghost g = groups_view(groups@);
    proof {
        lemma_group_index(g, r.alert_id@);
    }
    let mut j: usize = groups.len();
    while j > 0
        invariant
            j <= groups@.len(),
            groups@ == old(groups)@,
            g == groups_view(groups@),
            forall|k: int| j <= k < groups@.len() ==> (#[trigger] g[k]).0 != r.alert_id@,
        decreases j,
    {
        if groups[j - 1].alert_id == r.alert_id {
            let k = j - 1;
            let mut group = groups.remove(k);
            group.attempts.push(r);
            groups.insert(k, group);
            proof {
                lemma_group_index(g, r.alert_id@);
                assert(g[k as int].0 == r.alert_id@);
                let gi = group_index(g, r.alert_id@);
                if gi > k {
                    assert(g[gi].0 == r.alert_id@);
                } else if gi < k {
                    assert(g[k as int].0 != r.alert_id@);
                }
                assert(gi == k);
                assert(groups_view(groups@) =~= g.update(k as int, (g[k as int].0, g[k as int].1.push(r))));
            }
            return;
        }
        j = j - 1;
    }
    proof {
        lemma_group_index(g, r.alert_id@);
        let gi = group_index(g, r.alert_id@);
        if gi >= 0 {
            assert(g[gi].0 == r.alert_id@);
        }
    }
    let mut attempts = Vec::new();
    let id = r.alert_id.clone();
    attempts.push(r);
    groups.push(AttemptGroup { alert_id: id, attempts });
    assert(groups_view(groups@) =~= g.push((r.alert_id@, seq![r])));
}

proof fn lemma_status_index(s: Seq<SenderStatusRecord>, name: Seq<char>)
    ensures
        -1 <= status_index(s, name) < s.len(),
        status_index(s, name) >= 0 ==> s[status_index(s, name)].sender@ == name,
        status_index(s, name) < 0 ==> forall|k: int| 0 <= k < s.len() ==> s[k].sender@ != name,
        status_index(s, name) >= 0 ==> forall|k: int|
            status_index(s, name) < k < s.len() ==> s[k].sender@ != name,
    decreases s.len(),
{
    if s.len() > 0 {
        let d = s.drop_last();
        lemma_status_index(d, name);
        assert forall|k: int| 0 <= k < d.len() implies d[k] == s[k] by {}
    }
}

/// Makes `r` the latest status of its sender, at the end.
fn set_latest_status(statuses: &mut Vec<SenderStatusRecord>, r: SenderStatusRecord)
    ensures
        ({
            let l = old(statuses)@;
            let j = status_index(l, r.sender@);
            final(statuses)@ == if j < 0 {
                l.push(r)
            } else {
                l.remove(j).push(r)
            }
        }),
{
    proof {
        lemma_status_index(statuses@, r.sender@);
    }
    let mut j: usize = statuses.len();
    while j > 0
        invariant
            j <= statuses@.len(),
            statuses@ == old(statuses)@,
            forall|k: int| j <= k < statuses@.len() ==> (#[trigger] statuses@[k]).sender@ != r.sender@,
        decreases j,
    {
        if statuses[j - 1].sender == r.sender {
            proof {
                lemma_status_index(statuses@, r.sender@);
                let si = status_index(statuses@, r.sender@);
                if si > j - 1 {
                    assert(statuses@[si].sender@ == r.sender@);
                } else if si < j - 1 {
                    assert(statuses@[j - 1].sender@ != r.sender@);
                }
            }
            let _ = statuses.remove(j - 1);
            statuses.push(r);
            return;
        }
        j = j - 1;
    }
    proof {
        lemma_status_index(statuses@, r.sender@);
        let si = status_index(statuses@, r.sender@);
        if si >= 0 {
            assert(statuses@[si].sender@ == r.sender@);
        }
    }
    statuses.push(r);
}

/// Reads the dashboard's view of the event log from its lines, in order.
///
/// A line that could not be read is counted as malformed and its error is
/// kept (the last one wins). Once `max_records` records have been read,
/// every further readable line is counted as truncated and skipped. Before
/// that, a malformed line is counted and skipped, and each record is counted
/// as read: alerts are kept newest first, delivery attempts grouped by
/// alert id, and of each sender only its latest status is kept.
pub fn read_dashboard_lines(lines: Vec<DashboardLine>, max_records: usize) -> (d: DashboardData)
    ensures
        dashboard_of(d, lines@, max_records as nat),
        d.alerts@.len() <= max_records,
{
    let ghost lines0 = lines@;
    let ghost max = max_records as nat;
    let mut pending = lines;
    let mut stack: Vec<DashboardLine> = Vec::new();
    while pending.len() > 0
        invariant
            pending@.len() + stack@.len() == lines0.len(),
            pending@ == lines0.take(pending@.len() as int),
            forall|j: int| 0 <= j < stack@.len() ==> #[trigger] stack@[j] == lines0[lines0.len() - 1 - j],
        decreases pending@.len(),
    {
        let x = pending.pop().unwrap();
        stack.push(x);
    }
    let mut data = DashboardData::default();
    let ghost mut done: Seq<DashboardLine> = seq![];
    let n = stack.len();
    let mut i: usize = 0;
    proof {
        assert(lines0.take(0) =~= done);
        assert(groups_view(data.delivery_attempts_by_alert@) =~= Seq::<(Seq<char>, Seq<DeliveryAttemptRecord>)>::empty());
    }
    while i < n
        invariant
            n == lines0.len(),
            i <= n,
            stack@.len() == n - i,
            forall|j: int| 0 <= j < stack@.len() ==> #[trigger] stack@[j] == lines0[lines0.len() - 1 - j],
            done == lines0.take(i as int),
            max == max_records as nat,
            data.parsed_records == accepted(done, max).len(),
            data.truncated_records == truncated_count(done, max),
            data.malformed_lines == malformed_count(done, max),
            data.read_error.is_some() == last_read_error(done).is_some(),
            data.read_error matches Some(e) ==> last_read_error(done) == Some(e@),
            data.alerts@ == newest_first(alerts_of(accepted(done, max))),
            groups_view(data.delivery_attempts_by_alert@) == grouped(attempts_of(accepted(done, max))),
            data.sender_statuses@ == latest_statuses(statuses_of(accepted(done, max))),
        decreases n - i,
    {
        assert(stack@[stack@.len() - 1] == lines0[i as int]);
        let line = stack.pop().unwrap();
        proof {
            assert(lines0.take(i + 1) =~= done.push(line));
            lemma_line_step(done, line, max);
            lemma_record_step(accepted(done, max), line);
            lemma_accepted_len(done, max);
            assert(accepted(done, max).push(line).drop_last() =~= accepted(done, max));
        }
        match line {
            DashboardLine::ReadError(e) => {
                data.malformed_lines = data.malformed_lines + 1;
                let mut msg = String::new();
                push_str(&mut msg, "Unable to read event log line: ");
                push_str(&mut msg, e.as_str());
                data.read_error = Some(msg);
            },
            _ => {
                if data.parsed_records >= max_records {
                    data.truncated_records = data.truncated_records + 1;
                } else {
                    match line {
                        DashboardLine::Alert(r) => {
                            proof {
                                lemma_view_step(alerts_of(accepted(done, max)), r, seq![], arbitrary(), seq![], arbitrary());
                            }
                            data.parsed_records = data.parsed_records + 1;
                            insert_newest_first(&mut data.alerts, r);
                        },
                        DashboardLine::DeliveryAttempt(r) => {
                            proof {
                                lemma_view_step(seq![], arbitrary(), attempts_of(accepted(done, max)), r, seq![], arbitrary());
                            }
                            data.parsed_records = data.parsed_records + 1;
                            add_attempt(&mut data.delivery_attempts_by_alert, r);
                        },
                        DashboardLine::SenderStatus(r) => {
                            proof {
                                lemma_view_step(seq![], arbitrary(), seq![], arbitrary(), statuses_of(accepted(done, max)), r);
                            }
                            data.parsed_records = data.parsed_records + 1;
                            set_latest_status(&mut data.sender_statuses, r);
                        },
                        _ => {
                            data.malformed_lines = data.malformed_lines + 1;
                        },
                    }
                }
            },
        }
        proof {
            done = done.push(line);
        }
        i = i + 1;
    }
    proof {
        assert(lines0.take(n as int) =~= lines0);
        lemma_accepted_len(lines0, max);
        lemma_newest_first_len(alerts_of(accepted(lines0, max)));
    }
    data
}

} // verus!
