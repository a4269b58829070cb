//! Polling the NWS API: fetch active alerts, normalize them, drop
//! duplicates, hand the rest to delivery, and keep the source's health.
use vstd::prelude::*;
use crate::alert::{Alert, AlertSignificance};
use crate::dedup::{
    exact_key_text, fuzzy_key_text, has_key, live_entries, DedupGate,
};
use crate::event_contracts::{AlertRecord, SourceStatusRecord, EVENT_CONTRACT_SCHEMA_VERSION};
use crate::normalized_alert::{event_missing, normalized_from, NormalizedAlert};
use crate::nws_client::NwsAlertCollection;
use crate::source_health::{
    source_status_record, status_record_of, SourceHealthInput, SourceKind,
};
use crate::spool::{clone_strings, unix_timestamp_secs};
use crate::alert_id::{alert_id_text, format_alert_id, hash_str, hash_strings, hash_u32, is_alert_id};
use crate::dedup::lower_seq;
use crate::event_emitter::{EmittedRecord, EventEmitter};
use crate::normalized_alert::text_or;
use crate::sender::{delivery_events_after, fanout_send_outcome, FanOut};
use crate::text::{chars_equal, chars_of, push_char, to_ascii_lower};
use std::collections::hash_map::DefaultHasher;
use std::hash::Hasher;

verus! {

/// Default seconds between two polls.
pub const DEFAULT_NWS_POLL_SECONDS: u64 = 60;

/// How often to poll.
#[derive(Debug, Clone, PartialEq, Eq)]
pub struct NwsPollingConfig {
    pub poll_seconds: u64,
}

impl NwsPollingConfig {
    /// A polling configuration; the interval must be positive.
    pub fn new(poll_seconds: u64) -> (r: Result<Self, String>)
        ensures
            poll_seconds == 0 <==> r is Err,
            r matches Err(e) ==> e@ == "--nws-poll-seconds must be greater than 0"@,
            r matches Ok(c) ==> c.poll_seconds == poll_seconds,
    {
        if poll_seconds == 0 {
            return Err("--nws-poll-seconds must be greater than 0".to_owned());
        }
        Ok(NwsPollingConfig { poll_seconds })
    }
}

/// What one poll did with the alerts it fetched.
#[derive(Debug, Clone, PartialEq, Eq, Structural)]
pub struct NwsPollingSummary {
    pub fetched_alerts: usize,
    pub normalized_alerts: usize,
    pub accepted_alerts: usize,
    pub duplicate_alerts: usize,
    pub normalization_errors: usize,
    pub delivery_failures: usize,
}

impl Default for NwsPollingSummary {
    fn default() -> (s: Self)
        ensures
            s.fetched_alerts == 0,
            s.normalized_alerts == 0,
            s.accepted_alerts == 0,
            s.duplicate_alerts == 0,
            s.normalization_errors == 0,
            s.delivery_failures == 0,
    {
        NwsPollingSummary {
            fetched_alerts: 0,
            normalized_alerts: 0,
            accepted_alerts: 0,
            duplicate_alerts: 0,
            normalization_errors: 0,
            delivery_failures: 0,
        }
    }
}

/// A source of active alert collections, such as the NWS API client.
///
/// `answers(r)` says that `r` is an outcome a fetch can give. Its body is
/// only a default for implementations that state nothing: nothing verified
/// relies on it.
pub trait ActiveAlertFetcher {
    closed spec fn answers(&self, r: Result<NwsAlertCollection, String>) -> bool {
        true
    }

    fn fetch_active_alerts(&self) -> (r: Result<NwsAlertCollection, String>)
        ensures
            self.answers(r),
    ;
}

/// Waits between polls.
///
/// `slept` is the sequence of all waits asked of the sleeper so far, in
/// seconds. Its body is only a default for implementations that keep no such
/// history: nothing verified relies on it.
pub trait PollSleeper {
    closed spec fn slept(&self) -> Seq<u64> {
        Seq::empty()
    }

    fn sleep(&mut self, seconds: u64)
        ensures
            final(self).slept() == old(self).slept().push(seconds),
    ;
}

/// `n` waits of `seconds` each.
pub open spec fn waits(n: nat, seconds: u64) -> Seq<u64> {
    Seq::new(n, |i: int| seconds)
}

/// How many waits a run asked for `iterations` polls makes after `done`
/// successful ones: one between two polls, none after the last.
pub open spec fn waits_made(done: nat, iterations: nat) -> nat {
    if done == iterations && iterations > 0 {
        (iterations - 1) as nat
    } else {
        done
    }
}

/// The current time, in seconds since the Unix epoch.
///
/// `shows(t)` says that `t` is a time the clock can read. Its body is only
/// a default for implementations that state nothing: nothing verified relies
/// on it.
pub trait PollClock {
    closed spec fn shows(&self, t: u64) -> bool {
        true
    }

    fn now_unix_secs(&self) -> (t: u64)
        ensures
            self.shows(t),
    ;
}

/// The system clock.
pub struct SystemPollClock;

impl PollClock for SystemPollClock {
    fn now_unix_secs(&self) -> u64 {
        unix_timestamp_secs()
    }
}

/// One call of `NwsAlertDelivery::deliver_alert` and what it returned.
pub struct DeliveryCall {
    pub alert: NormalizedAlert,
    pub timestamp_unix_secs: u64,
    pub result: Result<(), String>,
}

/// Where accepted alerts and source status records go.
///
/// `delivery_calls` is the sequence of all calls of `deliver_alert` so far
/// with their results; `recorded_statuses` the sequence of all status
/// records handed to `record_source_status`.
///
/// The bodies given to these ghost views are only defaults for
/// implementations that keep no such history: nothing verified relies on them.
pub trait NwsAlertDelivery {
    closed spec fn delivery_calls(&self) -> Seq<DeliveryCall> {
        Seq::empty()
    }

    closed spec fn recorded_statuses(&self) -> Seq<SourceStatusRecord> {
        Seq::empty()
    }

    fn deliver_alert(&mut self, alert: &NormalizedAlert, timestamp_unix_secs: u64) -> (r: Result<(), String>)
        ensures
            final(self).delivery_calls() == old(self).delivery_calls().push(
                DeliveryCall { alert: *alert, timestamp_unix_secs, result: r },
            ),
            final(self).recorded_statuses() == old(self).recorded_statuses(),
    ;

    fn record_source_status(&mut self, record: &SourceStatusRecord)
        ensures
            final(self).recorded_statuses() == old(self).recorded_statuses().push(*record),
            final(self).delivery_calls() == old(self).delivery_calls(),
    ;
}

/// What the API source last did: when it last answered, when it last
/// failed, and its last error.
pub struct NwsSourceHealth {
    last_success_unix_secs: Option<u64>,
    last_failure_unix_secs: Option<u64>,
    last_error: Option<String>,
}

impl NwsSourceHealth {
    /// When the source last answered.
    pub closed spec fn last_success(&self) -> Option<u64> {
        self.last_success_unix_secs
    }

    /// When the source last failed.
    pub closed spec fn last_failure(&self) -> Option<u64> {
        self.last_failure_unix_secs
    }

    /// The error of the last failure, cleared by a success.
    pub closed spec fn last_error(&self) -> Option<String> {
        self.last_error
    }

    /// The source answered at `now_unix_secs`: its status record.
    pub fn record_success(&mut self, now_unix_secs: u64) -> (r: SourceStatusRecord)
        ensures
            final(self).last_success() == Some(now_unix_secs),
            final(self).last_failure() == old(self).last_failure(),
            final(self).last_error() is None,
            status_record_of(
                r,
                SourceHealthInput {
                    source: SourceKind::NwsApi,
                    now_unix_secs,
                    last_success_unix_secs: Some(now_unix_secs),
                    last_failure_unix_secs: old(self).last_failure(),
                    last_decoded_message_unix_secs: None,
                    last_accepted_alert_unix_secs: None,
                    error: None,
                },
            ),
    {
        self.last_success_unix_secs = Some(now_unix_secs);
        self.last_error = None;
        source_status_record(
            SourceHealthInput {
                source: SourceKind::NwsApi,
                now_unix_secs,
                last_success_unix_secs: self.last_success_unix_secs,
                last_failure_unix_secs: self.last_failure_unix_secs,
                last_decoded_message_unix_secs: None,
                last_accepted_alert_unix_secs: None,
                error: None,
            },
        )
    }

    /// The source failed at `now_unix_secs` with `error`: its status record.
    pub fn record_failure(&mut self, now_unix_secs: u64, error: String) -> (r: SourceStatusRecord)
        ensures
            final(self).last_success() == old(self).last_success(),
            final(self).last_failure() == Some(now_unix_secs),
            final(self).last_error() == Some(error),
            status_record_of(
                r,
                SourceHealthInput {
                    source: SourceKind::NwsApi,
                    now_unix_secs,
                    last_success_unix_secs: old(self).last_success(),
                    last_failure_unix_secs: Some(now_unix_secs),
                    last_decoded_message_unix_secs: None,
                    last_accepted_alert_unix_secs: None,
                    error: Some(error),
                },
            ),
    {
        self.last_failure_unix_secs = Some(now_unix_secs);
        let e = error.clone();
        self.last_error = Some(error);
        source_status_record(
            SourceHealthInput {
                source: SourceKind::NwsApi,
                now_unix_secs,
                last_success_unix_secs: self.last_success_unix_secs,
                last_failure_unix_secs: self.last_failure_unix_secs,
                last_decoded_message_unix_secs: None,
                last_accepted_alert_unix_secs: None,
                error: Some(e),
            },
        )
    }
}

impl Default for NwsSourceHealth {
    fn default() -> (h: Self)
        ensures
            h.last_success() is None,
            h.last_failure() is None,
            h.last_error() is None,
    {
        NwsSourceHealth { last_success_unix_secs: None, last_failure_unix_secs: None, last_error: None }
    }
}

/// The normalization of a feature that has an event.
pub open spec fn nws_normalized(f: crate::nws_client::NwsAlertFeature) -> NormalizedAlert {
    choose|a: NormalizedAlert| normalized_from(f, a)
}

/// Whether `a` is a duplicate of a live entry, and the entries after the
/// dedup gate checked it at `now` (see `DedupGate::check_and_record`).
pub open spec fn dedup_after(
    entries: Seq<((bool, Seq<char>), u64)>,
    ttl: u64,
    now: u64,
    a: NormalizedAlert,
) -> (bool, Seq<((bool, Seq<char>), u64)>) {
    let live = live_entries(entries, now, ttl);
    let exact = (true, exact_key_text(a));
    let fuzzy = (false, fuzzy_key_text(a));
    let dup = has_key(live, exact) || has_key(live, fuzzy);
    (dup, if dup {
        live
    } else {
        live.push((exact, now)).push((fuzzy, now))
    })
}

/// Processing of `features` at `now` by a dedup gate with `entries` and
/// time-to-live `ttl`: the entries after, the features accepted for
/// delivery in order, the number of duplicates and the number of features
/// without an event.
pub open spec fn poll_fold(
    features: Seq<crate::nws_client::NwsAlertFeature>,
    entries: Seq<((bool, Seq<char>), u64)>,
    ttl: u64,
    now: u64,
) -> (Seq<((bool, Seq<char>), u64)>, Seq<crate::nws_client::NwsAlertFeature>, nat, nat)
    decreases features.len(),
{
    if features.len() == 0 {
        (entries, seq![], 0, 0)
    } else {
        let (e, acc, d, m) = poll_fold(features.drop_last(), entries, ttl, now);
        let f = features.last();
        if event_missing(f) {
            (e, acc, d, m + 1)
        } else {
            let (dup, e2) = dedup_after(e, ttl, now, nws_normalized(f));
            if dup {
                (e2, acc, d + 1, m)
            } else {
                (e2, acc.push(f), d, m)
            }
        }
    }
}

/// Number of failed calls.
pub open spec fn count_failed(calls: Seq<DeliveryCall>) -> nat
    decreases calls.len(),
{
    if calls.len() == 0 {
        0
    } else {
        count_failed(calls.drop_last()) + if calls.last().result is Err {
            1nat
        } else {
            0nat
        }
    }
}

/// The effect of processing `features` at `now`: `s` counts what happened,
/// the deduplicator went from `g0` to `g1`, and the delivery got one call per
/// accepted alert, in order, and nothing else.
pub open spec fn processed(
    features: Seq<crate::nws_client::NwsAlertFeature>,
    now: u64,
    s: NwsPollingSummary,
    g0: DedupGate,
    g1: DedupGate,
    calls0: Seq<DeliveryCall>,
    calls1: Seq<DeliveryCall>,
) -> bool {
    let (entries, accepted, dups, missing) = poll_fold(features, g0.entries_view(), g0.ttl(), now);
    let new_calls = calls1.skip(calls0.len() as int);
    &&& s.fetched_alerts == features.len()
    &&& s.normalization_errors == missing
    &&& s.normalized_alerts == features.len() - missing
    &&& s.duplicate_alerts == dups
    &&& s.accepted_alerts == accepted.len()
    &&& s.delivery_failures == count_failed(new_calls)
    &&& g1.ttl() == g0.ttl()
    &&& g1.entries_view() == entries
    &&& calls1.len() == calls0.len() + accepted.len()
    &&& calls1.take(calls0.len() as int) == calls0
    &&& forall|m: int|
        0 <= m < accepted.len() ==> normalized_from(accepted[m], (#[trigger] new_calls[m]).alert)
            && new_calls[m].timestamp_unix_secs == now
}

/// Some collection of alerts was processed at `now` (see `processed`).
pub open spec fn processed_some_collection(
    now: u64,
    s: NwsPollingSummary,
    g0: DedupGate,
    g1: DedupGate,
    calls0: Seq<DeliveryCall>,
    calls1: Seq<DeliveryCall>,
) -> bool {
    exists|features: Seq<crate::nws_client::NwsAlertFeature>|
        #[trigger] processed(features, now, s, g0, g1, calls0, calls1)
}

/// Every fetched alert is counted once: as a normalization error, a
/// duplicate or an accepted alert; and normalized alerts are exactly the
/// duplicates and the accepted ones.
pub proof fn law_poll_counts_add_up(
    features: Seq<crate::nws_client::NwsAlertFeature>,
    now: u64,
    s: NwsPollingSummary,
    g0: DedupGate,
    g1: DedupGate,
    calls0: Seq<DeliveryCall>,
    calls1: Seq<DeliveryCall>,
)
    requires
        processed(features, now, s, g0, g1, calls0, calls1),
    ensures
        s.fetched_alerts == s.normalization_errors + s.duplicate_alerts + s.accepted_alerts,
        s.normalized_alerts == s.duplicate_alerts + s.accepted_alerts,
        s.delivery_failures <= s.accepted_alerts,
{
    lemma_poll_fold_exact(features, g0.entries_view(), g0.ttl(), now);
    lemma_count_failed_bound(calls1.skip(calls0.len() as int));
}

proof fn lemma_count_failed_bound(calls: Seq<DeliveryCall>)
    ensures
        count_failed(calls) <= calls.len(),
    decreases calls.len(),
{
    if calls.len() > 0 {
        lemma_count_failed_bound(calls.drop_last());
    }
}

proof fn lemma_poll_fold_exact(
    features: Seq<crate::nws_client::NwsAlertFeature>,
    entries: Seq<((bool, Seq<char>), u64)>,
    ttl: u64,
    now: u64,
)
    ensures
        ({
            let (e, acc, d, m) = poll_fold(features, entries, ttl, now);
            acc.len() + d + m == features.len()
        }),
    decreases features.len(),
{
    if features.len() > 0 {
        lemma_poll_fold_exact(features.drop_last(), entries, ttl, now);
    }
}

proof fn lemma_keys_of_normalized(f: crate::nws_client::NwsAlertFeature, a: NormalizedAlert)
    requires
        normalized_from(f, a),
    ensures
        exact_key_text(a) == exact_key_text(nws_normalized(f)),
        fuzzy_key_text(a) == fuzzy_key_text(nws_normalized(f)),
{
    let c = nws_normalized(f);
    assert(normalized_from(f, c));
    assert(a.same_codes@.map_values(|x: String| x@) =~= c.same_codes@.map_values(|x: String| x@));
    assert(a.ugc_codes@.map_values(|x: String| x@) =~= c.ugc_codes@.map_values(|x: String| x@));
}

proof fn lemma_poll_fold_bounds(
    features: Seq<crate::nws_client::NwsAlertFeature>,
    entries: Seq<((bool, Seq<char>), u64)>,
    ttl: u64,
    now: u64,
)
    ensures
        ({
            let (e, acc, d, m) = poll_fold(features, entries, ttl, now);
            acc.len() + d + m <= features.len()
        }),
    decreases features.len(),
{
    if features.len() > 0 {
        lemma_poll_fold_bounds(features.drop_last(), entries, ttl, now);
    }
}

proof fn lemma_count_failed_push(calls: Seq<DeliveryCall>, c: DeliveryCall)
    ensures
        count_failed(calls.push(c)) == count_failed(calls) + if c.result is Err {
            1nat
        } else {
            0nat
        },
        count_failed(calls) <= calls.len(),
    decreases calls.len(),
{
    assert(calls.push(c).drop_last() =~= calls);
    if calls.len() > 0 {
        lemma_count_failed_push(calls.drop_last(), calls.last());
        assert(calls.drop_last().push(calls.last()) =~= calls);
    }
}

/// Normalizes each fetched alert, drops those that fail to normalize and
/// those the dedup gate has seen, and hands every other one to delivery;
/// nothing stops the processing of later alerts.
pub fn process_nws_alert_collection<D: NwsAlertDelivery>(
    collection: NwsAlertCollection,
    dedup_gate: &mut DedupGate,
    now_unix_secs: u64,
    delivery: &mut D,
) -> (s: NwsPollingSummary)
    ensures
        processed(
            collection.features@,
            now_unix_secs,
            s,
            *old(dedup_gate),
            *final(dedup_gate),
            old(delivery).delivery_calls(),
            final(delivery).delivery_calls(),
        ),
        final(delivery).recorded_statuses() == old(delivery).recorded_statuses(),
{
    let ghost features = collection.features@;
    let ghost g0 = *dedup_gate;
    let ghost calls0 = delivery.delivery_calls();
    let mut summary = NwsPollingSummary::default();
    summary.fetched_alerts = collection.features.len();
    let mut i: usize = 0;
    proof {
        assert(features.take(0) =~= Seq::<crate::nws_client::NwsAlertFeature>::empty());
        assert(delivery.delivery_calls().take(calls0.len() as int) =~= calls0);
        assert(delivery.delivery_calls().skip(calls0.len() as int) =~= Seq::<DeliveryCall>::empty());
    }
    while i < collection.features.len()
        invariant
            features == collection.features@,
            i <= features.len(),
            g0 == *old(dedup_gate),
            calls0 == old(delivery).delivery_calls(),
            delivery.recorded_statuses() == old(delivery).recorded_statuses(),
            ({
                let (entries, accepted, dups, missing) = poll_fold(
                    features.take(i as int),
                    g0.entries_view(),
                    g0.ttl(),
                    now_unix_secs,
                );
                let calls = delivery.delivery_calls();
                let new_calls = calls.skip(calls0.len() as int);
                &&& summary.fetched_alerts == features.len()
                &&& summary.normalization_errors == missing
                &&& summary.normalized_alerts == i - missing
                &&& summary.duplicate_alerts == dups
                &&& summary.accepted_alerts == accepted.len()
                &&& summary.delivery_failures == count_failed(new_calls)
                &&& dedup_gate.ttl() == g0.ttl()
                &&& dedup_gate.entries_view() == entries
                &&& calls.len() == calls0.len() + accepted.len()
                &&& calls.take(calls0.len() as int) == calls0
                &&& forall|m: int|
                    0 <= m < accepted.len() ==> normalized_from(accepted[m], (#[trigger] new_calls[m]).alert)
                        && new_calls[m].timestamp_unix_secs == now_unix_secs
            }),
        decreases features.len() - i,
    {
        let ghost prev = poll_fold(features.take(i as int), g0.entries_view(), g0.ttl(), now_unix_secs);
        let ghost calls_b = delivery.delivery_calls();
        let ghost g_b = *dedup_gate;
        proof {
            assert(features.take(i + 1).drop_last() =~= features.take(i as int));
            assert(features.take(i + 1).last() == features[i as int]);
            lemma_poll_fold_bounds(features.take(i as int), g0.entries_view(), g0.ttl(), now_unix_secs);
            lemma_count_failed_push(calls_b.skip(calls0.len() as int), arbitrary());
        }
        let feature = &collection.features[i];
        match NormalizedAlert::from_nws_alert(feature) {
            Ok(alert) => {
                summary.normalized_alerts = summary.normalized_alerts + 1;
                proof {
                    lemma_keys_of_normalized(*feature, alert);
                }
                let decision = dedup_gate.check_and_record(&alert, now_unix_secs);
                if decision.is_duplicate {
                    summary.duplicate_alerts = summary.duplicate_alerts + 1;
                } else {
                    summary.accepted_alerts = summary.accepted_alerts + 1;
                    let res = delivery.deliver_alert(&alert, now_unix_secs);
                    let ghost c = DeliveryCall { alert, timestamp_unix_secs: now_unix_secs, result: res };
                    proof {
                        let calls = delivery.delivery_calls();
                        assert(calls == calls_b.push(c));
                        assert(calls.skip(calls0.len() as int) =~= calls_b.skip(calls0.len() as int).push(c));
                        assert(calls.take(calls0.len() as int) =~= calls_b.take(calls0.len() as int));
                        lemma_count_failed_push(calls_b.skip(calls0.len() as int), c);
                    }
                    if res.is_err() {
                        summary.delivery_failures = summary.delivery_failures + 1;
                    }
                    proof {
                        let calls = delivery.delivery_calls();
                        let acc = prev.1.push(*feature);
                        let nc = calls.skip(calls0.len() as int);
                        assert forall|m: int| 0 <= m < acc.len() implies normalized_from(acc[m], (#[trigger] nc[m]).alert)
                            && nc[m].timestamp_unix_secs == now_unix_secs by {
                            if m < prev.1.len() {
                                assert(nc[m] == calls_b.skip(calls0.len() as int)[m]);
                            }
                        }
                    }
                }
            },
            Err(_) => {
                summary.normalization_errors = summary.normalization_errors + 1;
            },
        }
        i = i + 1;
    }
    proof {
        assert(features.take(features.len() as int) =~= features);
    }
    summary
}

/// The significance of an NWS severity, compared without regard to ASCII
/// case: minor is a statement, moderate a watch, severe and extreme a
/// warning, anything else (or none) unknown.
pub open spec fn severity_significance(severity: Option<String>) -> AlertSignificance {
    let s = lower_seq(text_or(severity, seq![]));
    if s == "minor"@ {
        AlertSignificance::Statement
    } else if s == "moderate"@ {
        AlertSignificance::Watch
    } else if s == "severe"@ || s == "extreme"@ {
        AlertSignificance::Warning
    } else {
        AlertSignificance::Unknown
    }
}

/// Law: the NWS severities map to SAME significances without regard to
/// ASCII case: "Minor" is a statement, "Moderate" a watch, and both
/// "Severe" and "Extreme" a warning; a missing severity is unknown. A severe
/// alert is as much a warning as an extreme one, and never merely a watch.
pub proof fn law_severity_gives_significance(sev: String)
    ensures
        lower_seq(sev@) == "minor"@ ==> severity_significance(Some(sev)) == AlertSignificance::Statement,
        lower_seq(sev@) == "moderate"@ ==> severity_significance(Some(sev)) == AlertSignificance::Watch,
        lower_seq(sev@) == "severe"@ ==> severity_significance(Some(sev)) == AlertSignificance::Warning,
        lower_seq(sev@) == "extreme"@ ==> severity_significance(Some(sev)) == AlertSignificance::Warning,
        severity_significance(None) == AlertSignificance::Unknown,
{
    reveal_strlit("minor");
    reveal_strlit("moderate");
    reveal_strlit("severe");
    reveal_strlit("extreme");
    assert(Seq::<char>::empty() != "minor"@);
    assert(Seq::<char>::empty() != "moderate"@);
    assert(Seq::<char>::empty() != "severe"@);
    assert(Seq::<char>::empty() != "extreme"@);
    assert(lower_seq(Seq::<char>::empty()) =~= Seq::<char>::empty());
    assert("severe"@[0] != "minor"@[0] && "severe"@[0] != "moderate"@[0]);
    assert("extreme"@[0] != "minor"@[0] && "extreme"@[0] != "moderate"@[0]);
    assert("moderate"@.len() != "minor"@.len());
}

/// The significance of an NWS severity.
pub fn significance_from_nws_severity(severity: &Option<String>) -> (s: AlertSignificance)
    ensures
        s == severity_significance(*severity),
{
    let mut lower = String::new();
    if let Some(v) = severity {
        let cs = chars_of(v.as_str());
        let mut i: usize = 0;
        while i < cs.len()
            invariant
                cs@ == v@,
                i <= cs@.len(),
                lower@ == lower_seq(cs@.take(i as int)),
            decreases cs@.len() - i,
        {
            push_char(&mut lower, to_ascii_lower(cs[i]));
            assert(lower_seq(cs@.take(i + 1)) =~= lower_seq(cs@.take(i as int)).push(crate::text::ascii_lower(cs@[i as int])));
            i = i + 1;
        }
        assert(cs@.take(cs@.len() as int) =~= cs@);
    } else {
        assert(lower_seq(seq![]) =~= lower@);
    }
    let l = lower.as_str();
    if chars_equal(l, "minor") {
        AlertSignificance::Statement
    } else if chars_equal(l, "moderate") {
        AlertSignificance::Watch
    } else if chars_equal(l, "severe") || chars_equal(l, "extreme") {
        AlertSignificance::Warning
    } else {
        AlertSignificance::Unknown
    }
}

/// `a` is the alert delivered for the NWS alert `n`: its event, the
/// significance of its severity, from the National Weather Service by the
/// NWS API, not national, its SAME codes as locations, its area (if any) as
/// location name, and its message.
pub open spec fn runtime_alert_of(n: NormalizedAlert, a: Alert) -> bool {
    &&& a.event == n.event
    &&& a.significance == severity_significance(n.severity)
    &&& a.originator@ == "National Weather Service"@
    &&& a.callsign@ == "NWS API"@
    &&& !a.is_national
    &&& a.location_codes@ == n.same_codes@
    &&& a.location_names@ == match n.area_desc {
        Some(x) => seq![x],
        None => seq![],
    }
    &&& a.message_text == n.message_text
    &&& a.is_test == (a.significance == AlertSignificance::Test)
}

/// The alert delivered for an NWS alert.
pub fn runtime_alert_from_normalized(alert: &NormalizedAlert) -> (a: Alert)
    ensures
        runtime_alert_of(*alert, a),
{
    let mut names: Vec<String> = Vec::new();
    if let Some(area) = &alert.area_desc {
        names.push(area.clone());
    }
    assert(names@ =~= match alert.area_desc {
        Some(x) => seq![x],
        None => seq![],
    });
    Alert::new(
        alert.event.clone(),
        significance_from_nws_severity(&alert.severity),
        "National Weather Service".to_owned(),
        "NWS API".to_owned(),
        false,
        clone_strings(&alert.same_codes),
        names,
        alert.message_text.clone(),
    )
}

/// The id of the alert record of an NWS alert delivered on `channel` at
/// `timestamp_unix_secs`: `nws-api-`, the timestamp, the channel and a hash
/// of the alert's source id, event, SAME and UGC codes and the channel.
pub fn nws_alert_id_for(alert: &NormalizedAlert, channel: u32, timestamp_unix_secs: u64) -> (id: String)
    ensures
        is_alert_id(id@, "nws-api-"@, timestamp_unix_secs, channel),
{
    let mut hasher = DefaultHasher::new();
    hash_str(&mut hasher, alert.source_id.as_str());
    hash_str(&mut hasher, alert.event.as_str());
    hash_strings(&mut hasher, &alert.same_codes);
    hash_strings(&mut hasher, &alert.ugc_codes);
    hash_u32(&mut hasher, channel);
    let h = hasher.finish();
    let id = format_alert_id("nws-api-", timestamp_unix_secs, channel, h);
    assert(id@ == alert_id_text("nws-api-"@, timestamp_unix_secs, channel, h));
    id
}

/// `r` is the alert record of the NWS alert `n`, delivered as `a` on
/// `channel` at `timestamp`.
pub open spec fn nws_alert_record_of(r: AlertRecord, n: NormalizedAlert, a: Alert, channel: u32, timestamp: u64) -> bool {
    &&& r.schema_version == EVENT_CONTRACT_SCHEMA_VERSION
    &&& r.record_type@ == "alert"@
    &&& is_alert_id(r.alert_id@, "nws-api-"@, timestamp, channel)
    &&& r.timestamp_unix_secs == timestamp
    &&& r.source@ == "nws_api"@
    &&& r.event == a.event
    &&& r.significance == a.significance
    &&& r.originator == a.originator
    &&& r.callsign == a.callsign
    &&& r.is_national == a.is_national
    &&& r.is_test == a.is_test
    &&& r.location_codes@ == a.location_codes@
    &&& r.location_names@ == a.location_names@
    &&& r.message_text == a.message_text
}

/// The alert record of an NWS alert delivered as `runtime_alert`.
pub fn alert_record_from_normalized_at(
    normalized: &NormalizedAlert,
    runtime_alert: &Alert,
    channel: u32,
    timestamp_unix_secs: u64,
) -> (r: AlertRecord)
    ensures
        nws_alert_record_of(r, *normalized, *runtime_alert, channel, timestamp_unix_secs),
{
    AlertRecord {
        schema_version: EVENT_CONTRACT_SCHEMA_VERSION,
        record_type: "alert".to_owned(),
        alert_id: nws_alert_id_for(normalized, channel, timestamp_unix_secs),
        timestamp_unix_secs,
        source: "nws_api".to_owned(),
        event: runtime_alert.event.clone(),
        significance: runtime_alert.significance,
        originator: runtime_alert.originator.clone(),
        callsign: runtime_alert.callsign.clone(),
        is_national: runtime_alert.is_national,
        is_test: runtime_alert.is_test,
        location_codes: clone_strings(&runtime_alert.location_codes),
        location_names: clone_strings(&runtime_alert.location_names),
        message_text: runtime_alert.message_text.clone(),
    }
}

/// Hands the alert record to the emitter; a failure to write it is ignored.
pub fn emit_nws_alert_record<E: EventEmitter + ?Sized>(event_emitter: &mut E, record: &AlertRecord)
    ensures
        final(event_emitter).emitted() == old(event_emitter).emitted().push(EmittedRecord::Alert(*record)),
{
    let _ = event_emitter.emit_alert(record);
}

/// With an emitter, delivering `alert` at `timestamp` went: the alert record
/// first, then the delivery attempt records of the fan-out's send of the
/// alert delivered for it.
pub open spec fn delivered_with_events(
    alert: NormalizedAlert,
    timestamp: u64,
    f0: FanOut,
    f1: FanOut,
    channel: u32,
    log0: Seq<EmittedRecord>,
    log1: Seq<EmittedRecord>,
    r: Result<(), String>,
) -> bool {
    exists|a: Alert, rec: AlertRecord|
        #![trigger nws_alert_record_of(rec, alert, a, channel, timestamp)]
        {
            &&& runtime_alert_of(alert, a)
            &&& nws_alert_record_of(rec, alert, a, channel, timestamp)
            &&& delivery_events_after(
                f0,
                f1,
                log0.push(EmittedRecord::Alert(rec)),
                log1,
                a,
                rec.alert_id@,
                channel,
                r,
            )
        }
}

/// Delivers NWS alerts through a fan-out on one channel, with event
/// records when an emitter is set.
pub struct FanOutNwsAlertDelivery {
    fanout: FanOut,
    channel: u32,
    event_emitter: Option<Box<dyn EventEmitter>>,
    calls: Ghost<Seq<DeliveryCall>>,
    statuses: Ghost<Seq<SourceStatusRecord>>,
}

impl FanOutNwsAlertDelivery {
    /// The fan-out.
    pub closed spec fn fanout_view(&self) -> FanOut {
        self.fanout
    }

    /// The channel alerts are sent on.
    pub closed spec fn channel_view(&self) -> u32 {
        self.channel
    }

    /// The event emitter, if any.
    pub closed spec fn emitter_view(&self) -> Option<Box<dyn EventEmitter>> {
        self.event_emitter
    }

    /// A delivery through `fanout` on `channel`, with no call made yet.
    pub fn new(fanout: FanOut, channel: u32, event_emitter: Option<Box<dyn EventEmitter>>) -> (d: Self)
        ensures
            d.fanout_view() == fanout,
            d.channel_view() == channel,
            d.emitter_view() == event_emitter,
            d.delivery_calls().len() == 0,
            d.recorded_statuses().len() == 0,
    {
        FanOutNwsAlertDelivery {
            fanout,
            channel,
            event_emitter,
            calls: Ghost(Seq::empty()),
            statuses: Ghost(Seq::empty()),
        }
    }

    /// The fan-out.
    pub fn fanout(&self) -> (f: &FanOut)
        ensures
            *f == self.fanout_view(),
    {
        &self.fanout
    }
}

impl NwsAlertDelivery for FanOutNwsAlertDelivery {
    closed spec fn delivery_calls(&self) -> Seq<DeliveryCall> {
        self.calls@
    }

    closed spec fn recorded_statuses(&self) -> Seq<SourceStatusRecord> {
        self.statuses@
    }

    /// Sends the alert delivered for `alert` through the fan-out; with an
    /// emitter, first hands it the alert record, then the delivery attempt
    /// records.
    fn deliver_alert(&mut self, alert: &NormalizedAlert, timestamp_unix_secs: u64) -> (r: Result<(), String>)
        ensures
            final(self).channel_view() == old(self).channel_view(),
            exists|a: Alert|
                runtime_alert_of(*alert, a) && #[trigger] fanout_send_outcome(
                    old(self).fanout_view(),
                    final(self).fanout_view(),
                    a,
                    old(self).channel_view(),
                    r,
                ),
            old(self).emitter_view() is None <==> final(self).emitter_view() is None,
            old(self).emitter_view() is Some ==> delivered_with_events(
                *alert,
                timestamp_unix_secs,
                old(self).fanout_view(),
                final(self).fanout_view(),
                old(self).channel_view(),
                old(self).emitter_view().unwrap().emitted(),
                final(self).emitter_view().unwrap().emitted(),
                r,
            ),
    {
        let runtime_alert = runtime_alert_from_normalized(alert);
        let mut emitter = self.event_emitter.take();
        let r = match emitter {
            Some(ref mut e) => {
                let ghost log0 = e.emitted();
                let ghost f0 = self.fanout;
                let record = alert_record_from_normalized_at(
                    alert,
                    &runtime_alert,
                    self.channel,
                    timestamp_unix_secs,
                );
                emit_nws_alert_record(&mut **e, &record);
                let res = self.fanout.send_alert_with_events(
                    &runtime_alert,
                    self.channel,
                    record.alert_id.as_str(),
                    &mut **e,
                );
                proof {
                    assert(nws_alert_record_of(record, *alert, runtime_alert, self.channel, timestamp_unix_secs));
                    assert(delivered_with_events(
                        *alert,
                        timestamp_unix_secs,
                        f0,
                        self.fanout,
                        self.channel,
                        log0,
                        e.emitted(),
                        res,
                    ));
                }
                res
            },
            None => self.fanout.send_alert(&runtime_alert, self.channel),
        };
        self.event_emitter = emitter;
        proof {
            self.calls@ = self.calls@.push(DeliveryCall { alert: *alert, timestamp_unix_secs, result: r });
            assert(runtime_alert_of(*alert, runtime_alert));
            assert(fanout_send_outcome(old(self).fanout_view(), self.fanout_view(), runtime_alert, old(self).channel_view(), r));
        }
        r
    }

    /// Hands the status record to the emitter, if any; a failure to write it
    /// is ignored.
    fn record_source_status(&mut self, record: &SourceStatusRecord) {
        let mut emitter = self.event_emitter.take();
        if let Some(ref mut e) = emitter {
            let _ = e.emit_source_status(record);
        }
        self.event_emitter = emitter;
        proof {
            self.statuses@ = self.statuses@.push(*record);
        }
    }
}

/// The poll at `now` fetched nothing: the deduplicator and the delivery calls are
/// unchanged, the source's failure with `e` is recorded and its status
/// record handed to delivery.
pub open spec fn poll_failed(
    e: String,
    now: u64,
    h0: NwsSourceHealth,
    h1: NwsSourceHealth,
    d0: Seq<SourceStatusRecord>,
    d1: Seq<SourceStatusRecord>,
) -> bool {
    &&& h1.last_success() == h0.last_success()
    &&& h1.last_failure() == Some(now)
    &&& h1.last_error() == Some(e)
    &&& d1.len() == d0.len() + 1
    &&& d1.drop_last() == d0
    &&& status_record_of(
        d1.last(),
        SourceHealthInput {
            source: SourceKind::NwsApi,
            now_unix_secs: now,
            last_success_unix_secs: h0.last_success(),
            last_failure_unix_secs: Some(now),
            last_decoded_message_unix_secs: None,
            last_accepted_alert_unix_secs: None,
            error: Some(e),
        },
    )
}

/// The poll at `now` fetched alerts: the source's success is recorded and
/// its status record handed to delivery.
pub open spec fn poll_answered(
    now: u64,
    h0: NwsSourceHealth,
    h1: NwsSourceHealth,
    d0: Seq<SourceStatusRecord>,
    d1: Seq<SourceStatusRecord>,
) -> bool {
    &&& h1.last_success() == Some(now)
    &&& h1.last_failure() == h0.last_failure()
    &&& h1.last_error() is None
    &&& d1.len() == d0.len() + 1
    &&& d1.drop_last() == d0
    &&& status_record_of(
        d1.last(),
        SourceHealthInput {
            source: SourceKind::NwsApi,
            now_unix_secs: now,
            last_success_unix_secs: Some(now),
            last_failure_unix_secs: h0.last_failure(),
            last_decoded_message_unix_secs: None,
            last_accepted_alert_unix_secs: None,
            error: None,
        },
    )
}

/// The poll's fetch answered some collection, whose processing at `now`
/// gave `s` (deduplicator `g0` to `g1`, delivery calls `c0` to `c1`).
pub open spec fn fetched_and_processed<F: ActiveAlertFetcher>(
    fetcher: &F,
    now: u64,
    s: NwsPollingSummary,
    g0: DedupGate,
    g1: DedupGate,
    c0: Seq<DeliveryCall>,
    c1: Seq<DeliveryCall>,
) -> bool {
    exists|c: NwsAlertCollection|
        #![trigger fetcher.answers(Ok(c))]
        fetcher.answers(Ok(c)) && processed(c.features@, now, s, g0, g1, c0, c1)
}

/// One poll: reads the clock, fetches the active alerts, records the
/// source's success or failure (handing its status record to delivery),
/// and on success processes the alerts; a fetch failure is returned.
pub fn run_nws_polling_once<F: ActiveAlertFetcher, C: PollClock, D: NwsAlertDelivery>(
    fetcher: &F,
    dedup_gate: &mut DedupGate,
    source_health: &mut NwsSourceHealth,
    clock: &C,
    delivery: &mut D,
) -> (r: Result<NwsPollingSummary, String>)
    ensures
        r is Err ==> *final(dedup_gate) == *old(dedup_gate),
        r is Err ==> final(delivery).delivery_calls() == old(delivery).delivery_calls(),
        r matches Err(e) ==> final(source_health).last_failure() is Some && poll_failed(
            e,
            final(source_health).last_failure().unwrap(),
            *old(source_health),
            *final(source_health),
            old(delivery).recorded_statuses(),
            final(delivery).recorded_statuses(),
        ),
        r is Ok ==> final(source_health).last_success() is Some && poll_answered(
            final(source_health).last_success().unwrap(),
            *old(source_health),
            *final(source_health),
            old(delivery).recorded_statuses(),
            final(delivery).recorded_statuses(),
        ),
        r matches Ok(s) ==> processed_some_collection(
            final(source_health).last_success().unwrap(),
            s,
            *old(dedup_gate),
            *final(dedup_gate),
            old(delivery).delivery_calls(),
            final(delivery).delivery_calls(),
        ),
        r matches Err(e) ==> fetcher.answers(Err(e)) && clock.shows(final(source_health).last_failure().unwrap()),
        r matches Ok(s) ==> clock.shows(final(source_health).last_success().unwrap()) && fetched_and_processed(
            fetcher,
            final(source_health).last_success().unwrap(),
            s,
            *old(dedup_gate),
            *final(dedup_gate),
            old(delivery).delivery_calls(),
            final(delivery).delivery_calls(),
        ),
{
    let now_unix_secs = clock.now_unix_secs();
    let collection = match fetcher.fetch_active_alerts() {
        Ok(collection) => {
            let record = source_health.record_success(now_unix_secs);
            delivery.record_source_status(&record);
            proof {
                assert(delivery.recorded_statuses().drop_last() =~= old(delivery).recorded_statuses());
            }
            collection
        },
        Err(e) => {
            let record = source_health.record_failure(now_unix_secs, e.clone());
            delivery.record_source_status(&record);
            proof {
                assert(delivery.recorded_statuses().drop_last() =~= old(delivery).recorded_statuses());
                assert(poll_failed(
                    e,
                    now_unix_secs,
                    *old(source_health),
                    *source_health,
                    old(delivery).recorded_statuses(),
                    delivery.recorded_statuses(),
                ));
                assert(*dedup_gate == *old(dedup_gate));
                assert(delivery.delivery_calls() == old(delivery).delivery_calls());
                assert(poll_failed(
                    e,
                    now_unix_secs,
                    *old(source_health),
                    *final(source_health),
                    old(delivery).recorded_statuses(),
                    final(delivery).recorded_statuses(),
                ));
            }
            return Err(e);
        },
    };
    let ghost features = collection.features@;
    let s = process_nws_alert_collection(collection, dedup_gate, now_unix_secs, delivery);
    proof {
        assert(poll_answered(
            now_unix_secs,
            *old(source_health),
            *source_health,
            old(delivery).recorded_statuses(),
            delivery.recorded_statuses(),
        ));
        assert(processed(
            features,
            now_unix_secs,
            s,
            *old(dedup_gate),
            *dedup_gate,
            old(delivery).delivery_calls(),
            delivery.delivery_calls(),
        ));
        assert(poll_answered(
            now_unix_secs,
            *old(source_health),
            *final(source_health),
            old(delivery).recorded_statuses(),
            final(delivery).recorded_statuses(),
        ) && processed(
            features,
            now_unix_secs,
            s,
            *old(dedup_gate),
            *final(dedup_gate),
            old(delivery).delivery_calls(),
            final(delivery).delivery_calls(),
        ));
    }
    proof {
        assert(source_health.last_success().unwrap() == now_unix_secs);
        assert(final(source_health).last_success().unwrap() == now_unix_secs);
        assert(processed_some_collection(
            final(source_health).last_success().unwrap(),
            s,
            *old(dedup_gate),
            *final(dedup_gate),
            old(delivery).delivery_calls(),
            final(delivery).delivery_calls(),
        ));
    }
    Ok(s)
}

/// One poll that fetched alerts: the source health went from `h0` to `h1`
/// recording the success at a time `now` the clock can show, whose status
/// record went to delivery (`d0` to `d1`), and a collection the fetcher can
/// answer was processed at `now`, giving `s` (deduplicator `g0` to `g1`,
/// delivery calls `c0` to `c1`).
pub open spec fn poll_went_ok<F: ActiveAlertFetcher, C: PollClock>(
    fetcher: &F,
    clock: &C,
    s: NwsPollingSummary,
    g0: DedupGate,
    g1: DedupGate,
    h0: NwsSourceHealth,
    h1: NwsSourceHealth,
    c0: Seq<DeliveryCall>,
    c1: Seq<DeliveryCall>,
    d0: Seq<SourceStatusRecord>,
    d1: Seq<SourceStatusRecord>,
) -> bool {
    &&& h1.last_success() is Some
    &&& clock.shows(h1.last_success().unwrap())
    &&& poll_answered(h1.last_success().unwrap(), h0, h1, d0, d1)
    &&& fetched_and_processed(fetcher, h1.last_success().unwrap(), s, g0, g1, c0, c1)
}

/// One poll whose fetch failed with `e`, an error the fetcher can answer:
/// nothing was processed, and the failure was recorded at a time the clock
/// can show, its status record handed to delivery.
pub open spec fn poll_went_wrong<F: ActiveAlertFetcher, C: PollClock>(
    fetcher: &F,
    clock: &C,
    e: String,
    g0: DedupGate,
    g1: DedupGate,
    h0: NwsSourceHealth,
    h1: NwsSourceHealth,
    c0: Seq<DeliveryCall>,
    c1: Seq<DeliveryCall>,
    d0: Seq<SourceStatusRecord>,
    d1: Seq<SourceStatusRecord>,
) -> bool {
    &&& g1 == g0
    &&& c1 == c0
    &&& h1.last_failure() is Some
    &&& fetcher.answers(Err(e))
    &&& clock.shows(h1.last_failure().unwrap())
    &&& poll_failed(e, h1.last_failure().unwrap(), h0, h1, d0, d1)
}

/// A run of polls, asked for `iterations` of them, went through the states
/// `gs`, `hs`, `cs`, `ds` (one more than the successful polls, whose
/// summaries are `sums`), each successful poll taking one state to the next
/// with what `fetcher` answered at a time `clock` showed, and ended in `g1`,
/// `h1`, `c1`, `d1` with `r`: all the summaries when all polls succeeded,
/// else the error `fetcher` answered in the first failed poll, after which
/// no poll was made.
pub open spec fn polls_ran<F: ActiveAlertFetcher, C: PollClock>(
    fetcher: &F,
    clock: &C,
    r: Result<Vec<NwsPollingSummary>, String>,
    iterations: nat,
    sums: Seq<NwsPollingSummary>,
    gs: Seq<DedupGate>,
    hs: Seq<NwsSourceHealth>,
    cs: Seq<Seq<DeliveryCall>>,
    ds: Seq<Seq<SourceStatusRecord>>,
    g1: DedupGate,
    h1: NwsSourceHealth,
    c1: Seq<DeliveryCall>,
    d1: Seq<SourceStatusRecord>,
) -> bool {
    let k = sums.len() as int;
    &&& gs.len() == k + 1
    &&& hs.len() == k + 1
    &&& cs.len() == k + 1
    &&& ds.len() == k + 1
    &&& forall|i: int|
        0 <= i < k ==> #[trigger] poll_went_ok(
            fetcher,
            clock,
            sums[i],
            gs[i],
            gs[i + 1],
            hs[i],
            hs[i + 1],
            cs[i],
            cs[i + 1],
            ds[i],
            ds[i + 1],
        )
    &&& match r {
        Ok(v) => {
            &&& v@ == sums
            &&& k == iterations
            &&& g1 == gs[k]
            &&& h1 == hs[k]
            &&& c1 == cs[k]
            &&& d1 == ds[k]
        },
        Err(e) => {
            &&& k < iterations
            &&& poll_went_wrong(fetcher, clock, e, gs[k], g1, hs[k], h1, cs[k], c1, ds[k], d1)
        },
    }
}

/// Polls `iterations` times, sleeping the configured interval between two
/// polls, and returns the summaries in order; the first failed poll stops
/// the run and its error is returned.
pub fn run_nws_polling_iterations<F: ActiveAlertFetcher, C: PollClock, S: PollSleeper, D: NwsAlertDelivery>(
    fetcher: &F,
    dedup_gate: &mut DedupGate,
    source_health: &mut NwsSourceHealth,
    config: &NwsPollingConfig,
    clock: &C,
    sleeper: &mut S,
    delivery: &mut D,
    iterations: usize,
) -> (r: Result<Vec<NwsPollingSummary>, String>)
    ensures
        exists|
            sums: Seq<NwsPollingSummary>,
            gs: Seq<DedupGate>,
            hs: Seq<NwsSourceHealth>,
            cs: Seq<Seq<DeliveryCall>>,
            ds: Seq<Seq<SourceStatusRecord>>,
        |
            {
                &&& gs.len() > 0 && gs[0] == *old(dedup_gate)
                &&& hs.len() > 0 && hs[0] == *old(source_health)
                &&& cs.len() > 0 && cs[0] == old(delivery).delivery_calls()
                &&& ds.len() > 0 && ds[0] == old(delivery).recorded_statuses()
                &&& final(sleeper).slept() == old(sleeper).slept() + waits(
                    waits_made(sums.len(), iterations as nat),
                    config.poll_seconds,
                )
                &&& #[trigger] polls_ran(
                    fetcher,
                    clock,
                    r,
                    iterations as nat,
                    sums,
                    gs,
                    hs,
                    cs,
                    ds,
                    *final(dedup_gate),
                    *final(source_health),
                    final(delivery).delivery_calls(),
                    final(delivery).recorded_statuses(),
                )
            },
{
    let mut summaries: Vec<NwsPollingSummary> = Vec::new();
    let ghost mut gs: Seq<DedupGate> = seq![*dedup_gate];
    let ghost mut hs: Seq<NwsSourceHealth> = seq![*source_health];
    let ghost mut cs: Seq<Seq<DeliveryCall>> = seq![delivery.delivery_calls()];
    let ghost mut ds: Seq<Seq<SourceStatusRecord>> = seq![delivery.recorded_statuses()];
    let mut iteration: usize = 0;
    while iteration < iterations
        invariant
            iteration <= iterations,
            summaries@.len() == iteration,
            gs.len() == iteration + 1,
            hs.len() == iteration + 1,
            cs.len() == iteration + 1,
            ds.len() == iteration + 1,
            gs[0] == *old(dedup_gate),
            hs[0] == *old(source_health),
            cs[0] == old(delivery).delivery_calls(),
            ds[0] == old(delivery).recorded_statuses(),
            gs[iteration as int] == *dedup_gate,
            hs[iteration as int] == *source_health,
            cs[iteration as int] == delivery.delivery_calls(),
            ds[iteration as int] == delivery.recorded_statuses(),
            sleeper.slept() == old(sleeper).slept() + waits(
                waits_made(iteration as nat, iterations as nat),
                config.poll_seconds,
            ),
            forall|i: int|
                0 <= i < iteration ==> #[trigger] poll_went_ok(
            fetcher,
            clock,
                    summaries@[i],
                    gs[i],
                    gs[i + 1],
                    hs[i],
                    hs[i + 1],
                    cs[i],
                    cs[i + 1],
                    ds[i],
                    ds[i + 1],
                ),
        decreases iterations - iteration,
    {
        let ghost g_b = *dedup_gate;
        let ghost h_b = *source_health;
        let ghost c_b = delivery.delivery_calls();
        let ghost d_b = delivery.recorded_statuses();
        let res = run_nws_polling_once(fetcher, dedup_gate, source_health, clock, delivery);
        match res {
            Ok(summary) => {
                proof {
                    assert(poll_went_ok(
                        fetcher,
                        clock,
                        summary,
                        g_b,
                        *dedup_gate,
                        h_b,
                        *source_health,
                        c_b,
                        delivery.delivery_calls(),
                        d_b,
                        delivery.recorded_statuses(),
                    ));
                    gs = gs.push(*dedup_gate);
                    hs = hs.push(*source_health);
                    cs = cs.push(delivery.delivery_calls());
                    ds = ds.push(delivery.recorded_statuses());
                }
                summaries.push(summary);
                proof {
                    assert forall|i: int| 0 <= i < iteration + 1 implies #[trigger] poll_went_ok(
                        fetcher,
                        clock,
                        summaries@[i],
                        gs[i],
                        gs[i + 1],
                        hs[i],
                        hs[i + 1],
                        cs[i],
                        cs[i + 1],
                        ds[i],
                        ds[i + 1],
                    ) by {
                        if i < iteration {
                            assert(summaries@[i] == summaries@.drop_last()[i]);
                        }
                    }
                }
            },
            Err(e) => {
                proof {
                    assert(poll_went_wrong(
                        fetcher,
                        clock,
                        e,
                        g_b,
                        *dedup_gate,
                        h_b,
                        *source_health,
                        c_b,
                        delivery.delivery_calls(),
                        d_b,
                        delivery.recorded_statuses(),
                    ));
                    assert(polls_ran(
            fetcher,
            clock,
                        Err(e),
                        iterations as nat,
                        summaries@,
                        gs,
                        hs,
                        cs,
                        ds,
                        *dedup_gate,
                        *source_health,
                        delivery.delivery_calls(),
                        delivery.recorded_statuses(),
                    ));
                }
                return Err(e);
            },
        }
        if iteration + 1 < iterations {
            sleeper.sleep(config.poll_seconds);
            proof {
                assert(sleeper.slept() =~= old(sleeper).slept() + waits(
                    (iteration + 1) as nat,
                    config.poll_seconds,
                ));
            }
        }
        iteration = iteration + 1;
    }
    proof {
        assert(polls_ran(
            fetcher,
            clock,
            Ok(summaries),
            iterations as nat,
            summaries@,
            gs,
            hs,
            cs,
            ds,
            *dedup_gate,
            *source_health,
            delivery.delivery_calls(),
            delivery.recorded_statuses(),
        ));
    }
    Ok(summaries)
}

} // verus!
