//! Decoded SAME alerts: location names and event records.
use vstd::prelude::*;
use std::collections::hash_map::DefaultHasher;
use std::hash::Hasher;
use crate::alert::{
    alert_message_text, alert_send_channel, filter_allows, filter_applies, format_alert_message,
    location_filter_accepts, send_channel_of, Alert, AlertMessageParts, AlertSignificance,
};
use crate::alert_id::{alert_id_text, format_alert_id, hash_bool, hash_str, hash_strings, hash_u32, is_alert_id};
use crate::event_contracts::{AlertRecord, SourceStatusRecord, EVENT_CONTRACT_SCHEMA_VERSION};
use crate::event_emitter::{EmittedRecord, EventEmitter};
use crate::source_health::{source_status_record, status_record_of, SourceHealthInput, SourceKind};
use crate::spool::clone_strings;
use crate::text::{chars_equal, chars_of, push_str, string_of};

verus! {

/// County and state of SAME location codes.
pub struct LocationTable {
    entries: Vec<(String, String, String)>,
}

/// The entry of `code` in `entries` (the last one, should several share
/// it), or -1.
pub open spec fn entry_index(entries: Seq<(String, String, String)>, code: Seq<char>) -> int
    decreases entries.len(),
{
    if entries.len() == 0 {
        -1
    } else if entries.last().0@ == code {
        entries.len() - 1
    } else {
        entry_index(entries.drop_last(), code)
    }
}

proof fn lemma_entry_index(entries: Seq<(String, String, String)>, code: Seq<char>)
    ensures
        -1 <= entry_index(entries, code) < entries.len(),
        entry_index(entries, code) >= 0 ==> entries[entry_index(entries, code)].0@ == code,
    decreases entries.len(),
{
    if entries.len() > 0 {
        lemma_entry_index(entries.drop_last(), code);
    }
}

/// The direction that the first digit of a SAME location code gives to the
/// county name (`0` for the whole county).
pub open spec fn direction_prefix(c: char) -> Seq<char> {
    if c == '1' {
        "Northwest "@
    } else if c == '2' {
        "North "@
    } else if c == '3' {
        "Northeast "@
    } else if c == '4' {
        "West "@
    } else if c == '5' {
        "Central "@
    } else if c == '6' {
        "East "@
    } else if c == '7' {
        "Southwest "@
    } else if c == '8' {
        "South "@
    } else if c == '9' {
        "Southeast "@
    } else {
        seq![]
    }
}

/// Law: the first digit of a SAME location code names the part of the
/// county by the SAME subdivision table: 1 northwest, 2 north, 3 northeast,
/// 4 west, 5 central, 6 east, 7 southwest, 8 south, 9 southeast, and 0 the
/// whole county (no prefix). Opposite digits (summing to ten) name opposite
/// parts: the north part is never called south, nor the west part east.
pub proof fn law_location_digit_names_county_part(c: char)
    ensures
        c == '0' ==> direction_prefix(c) == Seq::<char>::empty(),
        c == '1' ==> direction_prefix(c) == "Northwest "@,
        c == '2' ==> direction_prefix(c) == "North "@,
        c == '3' ==> direction_prefix(c) == "Northeast "@,
        c == '4' ==> direction_prefix(c) == "West "@,
        c == '5' ==> direction_prefix(c) == "Central "@,
        c == '6' ==> direction_prefix(c) == "East "@,
        c == '7' ==> direction_prefix(c) == "Southwest "@,
        c == '8' ==> direction_prefix(c) == "South "@,
        c == '9' ==> direction_prefix(c) == "Southeast "@,
        direction_prefix('2') != direction_prefix('8'),
        direction_prefix('4') != direction_prefix('6'),
        direction_prefix('1') != direction_prefix('9'),
        direction_prefix('3') != direction_prefix('7'),
{
    reveal_strlit("North ");
    reveal_strlit("South ");
    reveal_strlit("West ");
    reveal_strlit("East ");
    reveal_strlit("Northwest ");
    reveal_strlit("Southeast ");
    reveal_strlit("Northeast ");
    reveal_strlit("Southwest ");
    assert("North "@[0] != "South "@[0]);
    assert("West "@[0] != "East "@[0]);
    assert("Northwest "@.len() != "Southeast "@.len() || "Northwest "@[0] != "Southeast "@[0]);
    assert("Northeast "@[0] != "Southwest "@[0]);
}

impl LocationTable {
    /// The entries: code, county and state, in insertion order.
    pub closed spec fn entries_view(&self) -> Seq<(String, String, String)> {
        self.entries@
    }

    /// An empty table.
    pub fn new() -> (t: Self)
        ensures
            t.entries_view().len() == 0,
    {
        LocationTable { entries: Vec::new() }
    }

    /// Records the county and state of `code`; a later entry for the same
    /// code wins.
    pub fn insert(&mut self, code: String, county: String, state: String)
        ensures
            final(self).entries_view() == old(self).entries_view().push((code, county, state)),
    {
        self.entries.push((code, county, state));
    }

    /// The county and state of `code`, if known.
    pub fn search_by_code(&self, code: &str) -> (r: Option<(String, String)>)
        ensures
            entry_index(self.entries_view(), code@) < 0 <==> r is None,
            r matches Some(cs) ==> ({
                let e = self.entries_view()[entry_index(self.entries_view(), code@)];
                cs.0 == e.1 && cs.1 == e.2
            }),
    {
        let mut i: usize = self.entries.len();
        assert(self.entries@.take(i as int) =~= self.entries@);
        while i > 0
            invariant
                i <= self.entries@.len(),
                entry_index(self.entries@, code@) == entry_index(self.entries@.take(i as int), code@),
            decreases i,
        {
            assert(self.entries@.take(i as int).drop_last() =~= self.entries@.take(i - 1));
            if chars_equal(self.entries[i - 1].0.as_str(), code) {
                return Some((self.entries[i - 1].1.clone(), self.entries[i - 1].2.clone()));
            }
            i = i - 1;
        }
        None
    }

    /// The name of a SAME location: the county of the code with its first
    /// digit replaced by `0`, preceded by the direction the first digit
    /// gives; none when the county is unknown.
    pub fn location_name(&self, code: &str) -> (r: Option<String>)
        requires
            code@.len() > 0,
            (code@[0] as u32) < 0x80,
        ensures
            ({
                let k = entry_index(self.entries_view(), seq!['0'] + code@.drop_first());
                &&& k < 0 <==> r is None
                &&& r matches Some(name) ==> name@ == direction_prefix(code@[0]) + self.entries_view()[k].1@
            }),
    {
        let cs = chars_of(code);
        let mut key = String::new();
        crate::text::push_char(&mut key, '0');
        let rest = string_of(&cs, 1, cs.len());
        push_str(&mut key, rest.as_str());
        assert(key@ =~= seq!['0'] + code@.drop_first());
        match self.search_by_code(key.as_str()) {
            None => None,
            Some((county, _state)) => {
                let mut location = String::new();
                let c = cs[0];
                if c == '1' {
                    push_str(&mut location, "Northwest ");
                } else if c == '2' {
                    push_str(&mut location, "North ");
                } else if c == '3' {
                    push_str(&mut location, "Northeast ");
                } else if c == '4' {
                    push_str(&mut location, "West ");
                } else if c == '5' {
                    push_str(&mut location, "Central ");
                } else if c == '6' {
                    push_str(&mut location, "East ");
                } else if c == '7' {
                    push_str(&mut location, "Southwest ");
                } else if c == '8' {
                    push_str(&mut location, "South ");
                } else if c == '9' {
                    push_str(&mut location, "Southeast ");
                }
                proof {
                    reveal_strlit("");
                }
                push_str(&mut location, county.as_str());
                Some(location)
            },
        }
    }
}

/// The id of the alert record of a SAME alert sent on `channel` at
/// `timestamp_unix_secs`: `same-`, the timestamp, the channel and a hash of
/// the alert's event, originator, callsign, national and test flags,
/// location codes and message, and the channel.
pub fn alert_id_for(alert: &Alert, channel: u32, timestamp_unix_secs: u64) -> (id: String)
    ensures
        is_alert_id(id@, "same-"@, timestamp_unix_secs, channel),
{
    let mut hasher = DefaultHasher::new();
    hash_str(&mut hasher, alert.event.as_str());
    hash_str(&mut hasher, alert.originator.as_str());
    hash_str(&mut hasher, alert.callsign.as_str());
    hash_bool(&mut hasher, alert.is_national);
    hash_bool(&mut hasher, alert.is_test);
    hash_strings(&mut hasher, &alert.location_codes);
    hash_str(&mut hasher, alert.message_text.as_str());
    hash_u32(&mut hasher, channel);
    let h = hasher.finish();
    let id = format_alert_id("same-", timestamp_unix_secs, channel, h);
    assert(id@ == alert_id_text("same-"@, timestamp_unix_secs, channel, h));
    id
}

/// `r` is the alert record of the SAME alert `a` sent on `channel` at
/// `timestamp`.
pub open spec fn same_alert_record_of(r: AlertRecord, a: Alert, channel: u32, timestamp: u64) -> bool {
    &&& r.schema_version == EVENT_CONTRACT_SCHEMA_VERSION
    &&& r.record_type@ == "alert"@
    &&& is_alert_id(r.alert_id@, "same-"@, timestamp, channel)
    &&& r.timestamp_unix_secs == timestamp
    &&& r.source@ == "same"@
    &&& r.event == a.event
    &&& r.significance == a.significance
    &&& r.originator == a.originator
    &&& r.callsign == a.callsign
    &&& r.is_national == a.is_national
    &&& r.is_test == a.is_test
    &&& r.location_codes@ == a.location_codes@
    &&& r.location_names@ == a.location_names@
    &&& r.message_text == a.message_text
}

/// The alert record of a SAME alert sent on `channel` at
/// `timestamp_unix_secs`.
pub fn alert_record_from_alert_at(alert: &Alert, channel: u32, timestamp_unix_secs: u64) -> (r: AlertRecord)
    ensures
        same_alert_record_of(r, *alert, channel, timestamp_unix_secs),
{
    AlertRecord {
        schema_version: EVENT_CONTRACT_SCHEMA_VERSION,
        record_type: "alert".to_owned(),
        alert_id: alert_id_for(alert, channel, timestamp_unix_secs),
        timestamp_unix_secs,
        source: "same".to_owned(),
        event: alert.event.clone(),
        significance: alert.significance,
        originator: alert.originator.clone(),
        callsign: alert.callsign.clone(),
        is_national: alert.is_national,
        is_test: alert.is_test,
        location_codes: clone_strings(&alert.location_codes),
        location_names: clone_strings(&alert.location_names),
        message_text: alert.message_text.clone(),
    }
}

/// Hands the alert record to the emitter; a failure to write it is ignored.
pub fn emit_alert_record<E: EventEmitter + ?Sized>(event_emitter: &mut E, record: &AlertRecord)
    ensures
        final(event_emitter).emitted() == old(event_emitter).emitted().push(EmittedRecord::Alert(*record)),
{
    let _ = event_emitter.emit_alert(record);
}

/// Hands the emitter the status record of the SAME radio at
/// `timestamp_unix_secs`; a failure to write it is ignored.
pub fn emit_same_source_status<E: EventEmitter + ?Sized>(
    event_emitter: &mut E,
    timestamp_unix_secs: u64,
    last_decoded_message_unix_secs: Option<u64>,
    last_accepted_alert_unix_secs: Option<u64>,
)
    ensures
        final(event_emitter).emitted().len() == old(event_emitter).emitted().len() + 1,
        final(event_emitter).emitted().drop_last() == old(event_emitter).emitted(),
        final(event_emitter).emitted().last() matches EmittedRecord::SourceStatus(r) && status_record_of(
            r,
            SourceHealthInput {
                source: SourceKind::SameRadio,
                now_unix_secs: timestamp_unix_secs,
                last_success_unix_secs: last_decoded_message_unix_secs,
                last_failure_unix_secs: None,
                last_decoded_message_unix_secs,
                last_accepted_alert_unix_secs,
                error: None,
            },
        ),
{
    let record = source_status_record(
        SourceHealthInput::same_radio(
            timestamp_unix_secs,
            last_decoded_message_unix_secs,
            last_accepted_alert_unix_secs,
        ),
    );
    let _ = event_emitter.emit_source_status(&record);
    assert(event_emitter.emitted().drop_last() =~= old(event_emitter).emitted());
}


/// A decoded SAME header, as plain values.
pub struct SameHeader {
    pub event: String,
    pub significance: AlertSignificance,
    pub originator: String,
    pub callsign: String,
    pub is_national: bool,
    pub codes: Vec<String>,
}

/// What the SAME receiver remembers between messages.
#[derive(Debug, Clone, Copy, PartialEq, Eq, Structural)]
pub struct SameState {
    pub last_decoded_message_unix_secs: Option<u64>,
    pub last_accepted_alert_unix_secs: Option<u64>,
}

/// One thing to do for a decoded SAME message, in order.
pub enum SameAction {
    /// Hand this SAME radio status record to the event log, if any.
    EmitSourceStatus(SourceStatusRecord),
    /// Hand this alert record to the event log, if any.
    EmitAlertRecord(AlertRecord),
    /// Send the alert through the fan-out on `channel`; its delivery
    /// records carry `alert_id`.
    Send { alert: Alert, channel: u32, alert_id: String },
}

/// The names of the locations `codes` that `entries` knows, in order.
pub open spec fn location_names_of(entries: Seq<(String, String, String)>, codes: Seq<Seq<char>>) -> Seq<Seq<char>>
    decreases codes.len(),
{
    if codes.len() == 0 {
        seq![]
    } else {
        let rest = location_names_of(entries, codes.drop_last());
        let code = codes.last();
        let k = entry_index(entries, seq!['0'] + code.drop_first());
        if k < 0 {
            rest
        } else {
            rest.push(direction_prefix(code[0]) + entries[k].1@)
        }
    }
}

/// Whether every code can be looked up: it is not empty and starts with an
/// ASCII character (SAME codes are six digits).
pub open spec fn codes_lookup_ok(codes: Seq<String>) -> bool {
    forall|i: int| 0 <= i < codes.len() ==> (#[trigger] codes[i])@.len() > 0 && (codes[i]@[0] as u32) < 0x80
}

/// `a` is the SAME SOURCE status record at `now` after the decode and
/// acceptance times `decoded` and `accepted`.
pub open spec fn same_status_action(a: SameAction, now: u64, decoded: Option<u64>, accepted: Option<u64>) -> bool {
    a matches SameAction::EmitSourceStatus(r) && status_record_of(
        r,
        SourceHealthInput {
            source: SourceKind::SameRadio,
            now_unix_secs: now,
            last_success_unix_secs: decoded,
            last_failure_unix_secs: None,
            last_decoded_message_unix_secs: decoded,
            last_accepted_alert_unix_secs: accepted,
            error: None,
        },
    )
}

/// `a` is the alert made of header `h` with the location names `names`.
pub open spec fn alert_of_header(a: Alert, h: SameHeader, names: Seq<Seq<char>>) -> bool {
    &&& a.event == h.event
    &&& a.significance == h.significance
    &&& a.originator == h.originator
    &&& a.callsign == h.callsign
    &&& a.is_national == h.is_national
    &&& a.is_test == (h.significance == AlertSignificance::Test)
    &&& a.location_codes@ == h.codes@
    &&& a.location_names@.map_values(|x: String| x@) == names
    &&& a.message_text@ == alert_message_text(
        h.event@,
        h.significance,
        h.originator@,
        h.callsign@,
        h.is_national,
        names,
    )
}

/// One decoded SAME message `h` at `now`, in state `st`, gives `r`: the
/// decode is always recorded and reported first; a test alert with no test
/// channel, or an alert the location filter drops, stops there; any other
/// alert is accepted: reported again, then its alert record, then its send
/// on its channel under that record's id. Location names are looked up for
/// regional alerts only.
pub open spec fn same_step(
    st: SameState,
    h: SameHeader,
    alert_channel: u32,
    test_channel: u32,
    locations: Seq<Seq<char>>,
    entries: Seq<(String, String, String)>,
    now: u64,
    r: (SameState, Seq<SameAction>),
) -> bool {
    let codes = h.codes@.map_values(|x: String| x@);
    let kept = match send_channel_of(h.significance, alert_channel, test_channel) {
        None => false,
        Some(_) => !filter_applies(h.is_national, locations, codes) || filter_allows(
            h.is_national,
            locations,
            codes,
        ),
    };
    if !kept {
        &&& r.0 == SameState { last_decoded_message_unix_secs: Some(now), ..st }
        &&& r.1.len() == 1
        &&& same_status_action(r.1[0], now, Some(now), st.last_accepted_alert_unix_secs)
    } else {
        let channel = send_channel_of(h.significance, alert_channel, test_channel)->Some_0;
        let names = if h.is_national {
            Seq::<Seq<char>>::empty()
        } else {
            location_names_of(entries, codes)
        };
        &&& r.0 == SameState {
            last_decoded_message_unix_secs: Some(now),
            last_accepted_alert_unix_secs: Some(now),
        }
        &&& r.1.len() == 4
        &&& same_status_action(r.1[0], now, Some(now), st.last_accepted_alert_unix_secs)
        &&& same_status_action(r.1[1], now, Some(now), Some(now))
        &&& r.1[2] matches SameAction::EmitAlertRecord(rec)
        &&& r.1[3] matches SameAction::Send { alert, channel: c, alert_id }
        &&& alert_of_header(alert, h, names)
        &&& c == channel
        &&& same_alert_record_of(rec, alert, channel, now)
        &&& alert_id == rec.alert_id
    }
}

fn same_status(now: u64, decoded: Option<u64>, accepted: Option<u64>) -> (a: SameAction)
    ensures
        same_status_action(a, now, decoded, accepted),
{
    SameAction::EmitSourceStatus(source_status_record(SourceHealthInput::same_radio(now, decoded, accepted)))
}

/// Handles one decoded SAME message at `now`: what to remember and what to
/// do, in order (see `same_step`).
pub fn same_message_step(
    state: SameState,
    header: SameHeader,
    alert_channel: u32,
    test_channel: u32,
    locations: &Vec<String>,
    table: &LocationTable,
    now: u64,
) -> (r: (SameState, Vec<SameAction>))
    requires
        !header.is_national ==> codes_lookup_ok(header.codes@),
    ensures
        same_step(
            state,
            header,
            alert_channel,
            test_channel,
            locations@.map_values(|x: String| x@),
            table.entries_view(),
            now,
            (r.0, r.1@),
        ),
{
    let decoded = Some(now);
    let mut actions: Vec<SameAction> = Vec::new();
    actions.push(same_status(now, decoded, state.last_accepted_alert_unix_secs));
    let after_decode = SameState { last_decoded_message_unix_secs: decoded, ..state };
    let channel = match alert_send_channel(header.significance, alert_channel, test_channel) {
        None => {
            return (after_decode, actions);
        },
        Some(c) => c,
    };
    if !location_filter_accepts(header.is_national, locations, &header.codes) {
        return (after_decode, actions);
    }
    let ghost codes = header.codes@.map_values(|x: String| x@);
    let mut names: Vec<String> = Vec::new();
    if !header.is_national {
        let mut i: usize = 0;
        while i < header.codes.len()
            invariant
                i <= header.codes@.len(),
                codes == header.codes@.map_values(|x: String| x@),
                codes_lookup_ok(header.codes@),
                names@.map_values(|x: String| x@) == location_names_of(table.entries_view(), codes.take(i as int)),
            decreases header.codes@.len() - i,
        {
            assert(header.codes@[i as int]@.len() > 0);
            let found = table.location_name(header.codes[i].as_str());
            proof {
                let c = codes[i as int];
                assert(codes.take(i + 1).drop_last() =~= codes.take(i as int));
                assert(codes.take(i + 1).last() == c);
                assert(c == header.codes@[i as int]@);
            }
            if let Some(name) = found {
                names.push(name);
            }
            proof {
                assert(names@.map_values(|x: String| x@) =~= location_names_of(
                    table.entries_view(),
                    codes.take(i + 1),
                ));
            }
            i = i + 1;
        }
        assert(codes.take(header.codes@.len() as int) =~= codes);
    } else {
        assert(names@.map_values(|x: String| x@) =~= Seq::<Seq<char>>::empty());
    }
    let message = format_alert_message(
        AlertMessageParts {
            event: header.event.as_str(),
            significance: header.significance,
            originator: header.originator.as_str(),
            callsign: header.callsign.as_str(),
            is_national: header.is_national,
            location_names: &names,
        },
    );
    let alert = Alert::new(
        header.event,
        header.significance,
        header.originator,
        header.callsign,
        header.is_national,
        header.codes,
        names,
        message,
    );
    let record = alert_record_from_alert_at(&alert, channel, now);
    let alert_id = record.alert_id.clone();
    let accepted = Some(now);
    actions.push(same_status(now, decoded, accepted));
    actions.push(SameAction::EmitAlertRecord(record));
    actions.push(SameAction::Send { alert, channel, alert_id });
    (SameState { last_decoded_message_unix_secs: decoded, last_accepted_alert_unix_secs: accepted }, actions)
}
} // verus!
