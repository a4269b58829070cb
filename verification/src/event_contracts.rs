//! Local event record contracts: append-friendly records that a dashboard
//! reads back from the event log.
use vstd::prelude::*;
use crate::alert::{strings_view, AlertSignificance};
use crate::spool::{
    bool_str, bool_text, free_of_newline, lemma_concat_free, lemma_decimal_free, lemma_hex_free,
    lemma_join_free, significance_name, significance_text,
};
use crate::text::{
    chars_of, decimal, hex_fixed, join_with, lemma_join_push, push_char, push_str, write_decimal,
    write_hex_fixed,
};

verus! {

/// Version of the event record contracts.
pub const EVENT_CONTRACT_SCHEMA_VERSION: u16 = 1;

/// A normalized alert visible to the dashboard (`record_type` `"alert"`).
#[derive(Debug, Clone, PartialEq, Eq)]
pub struct AlertRecord {
    pub schema_version: u16,
    pub record_type: String,
    pub alert_id: String,
    pub timestamp_unix_secs: u64,
    pub source: String,
    pub event: String,
    pub significance: AlertSignificance,
    pub originator: String,
    pub callsign: String,
    pub is_national: bool,
    pub is_test: bool,
    pub location_codes: Vec<String>,
    pub location_names: Vec<String>,
    pub message_text: String,
}

/// One send attempt of one sender (`record_type` `"delivery_attempt"`).
#[derive(Debug, Clone, PartialEq, Eq)]
pub struct DeliveryAttemptRecord {
    pub schema_version: u16,
    pub record_type: String,
    pub alert_id: String,
    pub timestamp_unix_secs: u64,
    pub sender: String,
    pub required: bool,
    pub channel: Option<u32>,
    pub status: DeliveryAttemptStatus,
    pub error: Option<String>,
}

/// Outcome of a delivery attempt.
#[derive(Debug, Clone, Copy, PartialEq, Eq, Structural)]
pub enum DeliveryAttemptStatus {
    Success,
    Failure,
    Skipped,
}

/// Point-in-time view of a sender (`record_type` `"sender_status"`).
#[derive(Debug, Clone, PartialEq, Eq)]
pub struct SenderStatusRecord {
    pub schema_version: u16,
    pub record_type: String,
    pub timestamp_unix_secs: u64,
    pub sender: String,
    pub configured: bool,
    pub required: bool,
    pub ready: bool,
    pub last_success_unix_secs: Option<u64>,
    pub last_failure_unix_secs: Option<u64>,
    pub error: Option<String>,
}

/// Host and process context (`record_type` `"system_status"`).
#[derive(Debug, Clone, PartialEq, Eq)]
pub struct SystemStatusRecord {
    pub schema_version: u16,
    pub record_type: String,
    pub timestamp_unix_secs: u64,
    pub hostname: String,
    pub sentinel_version: String,
    pub uptime_secs: Option<u64>,
    pub disk_free_bytes: Option<u64>,
    pub network_available: Option<bool>,
    pub notes: Vec<String>,
}

/// Health of an alert source.
#[derive(Debug, Clone, Copy, PartialEq, Eq, Structural)]
pub enum SourceState {
    Healthy,
    Degraded,
    Offline,
    Unknown,
}

/// Point-in-time view of an alert source (`record_type` `"source_status"`).
#[derive(Debug, Clone, PartialEq, Eq)]
pub struct SourceStatusRecord {
    pub schema_version: u16,
    pub record_type: String,
    pub timestamp_unix_secs: u64,
    pub source: String,
    pub state: SourceState,
    pub last_success_unix_secs: Option<u64>,
    pub last_failure_unix_secs: Option<u64>,
    pub last_decoded_message_unix_secs: Option<u64>,
    pub last_accepted_alert_unix_secs: Option<u64>,
    pub error: Option<String>,
}

/// The escape of one character in an event record's JSON, as serde_json
/// writes it: `"` and `\` and the backspace, form feed, newline, carriage
/// return and tab characters by their two-character escapes, other
/// characters below U+0020 as `\u` and four lowercase hex digits, anything
/// else as is.
pub open spec fn event_escape_char(c: char) -> Seq<char> {
    if c == '"' {
        seq!['\\', '"']
    } else if c == '\\' {
        seq!['\\', '\\']
    } else if c == '\u{8}' {
        seq!['\\', 'b']
    } else if c == '\u{c}' {
        seq!['\\', 'f']
    } else if c == '\n' {
        seq!['\\', 'n']
    } else if c == '\r' {
        seq!['\\', 'r']
    } else if c == '\t' {
        seq!['\\', 't']
    } else if (c as u32) < 0x20 {
        seq!['\\', 'u'] + hex_fixed(c as u32 as nat, 4)
    } else {
        seq![c]
    }
}

/// The escape of a character sequence in an event record's JSON.
pub open spec fn event_escaped(s: Seq<char>) -> Seq<char>
    decreases s.len(),
{
    if s.len() == 0 {
        seq![]
    } else {
        event_escaped(s.drop_last()) + event_escape_char(s.last())
    }
}

/// A JSON string literal holding `s`, in an event record.
pub open spec fn event_quoted(s: Seq<char>) -> Seq<char> {
    seq!['"'] + event_escaped(s) + seq!['"']
}

/// A JSON array of string literals, in an event record.
pub open spec fn event_string_array(values: Seq<Seq<char>>) -> Seq<char> {
    seq!['['] + join_with(values.map_values(|v: Seq<char>| event_quoted(v)), seq![',']) + seq![']']
}

/// Appends the escape of `value` (see `event_escape_char`).
fn write_event_escaped(out: &mut String, value: &str)
    ensures
        final(out)@ == old(out)@ + event_escaped(value@),
{
    let cs = chars_of(value);
    let ghost start = out@;
    let mut i: usize = 0;
    while i < cs.len()
        invariant
            cs@ == value@,
            i <= cs@.len(),
            out@ == start + event_escaped(cs@.take(i as int)),
        decreases cs@.len() - i,
    {
        let c = cs[i];
        let u = c as u32;
        if c == '"' {
            push_char(out, '\\');
            push_char(out, '"');
        } else if c == '\\' {
            push_char(out, '\\');
            push_char(out, '\\');
        } else if c == '\u{8}' {
            push_char(out, '\\');
            push_char(out, 'b');
        } else if c == '\u{c}' {
            push_char(out, '\\');
            push_char(out, 'f');
        } else if c == '\n' {
            push_char(out, '\\');
            push_char(out, 'n');
        } else if c == '\r' {
            push_char(out, '\\');
            push_char(out, 'r');
        } else if c == '\t' {
            push_char(out, '\\');
            push_char(out, 't');
        } else if u < 0x20 {
            push_char(out, '\\');
            push_char(out, 'u');
            write_hex_fixed(out, u as u64, 4);
        } else {
            push_char(out, c);
        }
        proof {
            assert(cs@.take(i + 1).drop_last() =~= cs@.take(i as int));
            assert(cs@.take(i + 1).last() == c);
        }
        i = i + 1;
    }
    assert(cs@.take(cs@.len() as int) =~= cs@);
}

/// Appends a JSON string literal holding `value`, in an event record.
fn write_event_quoted(out: &mut String, value: &str)
    ensures
        final(out)@ == old(out)@ + event_quoted(value@),
{
    let ghost start = out@;
    push_char(out, '"');
    write_event_escaped(out, value);
    push_char(out, '"');
    assert(out@ =~= start + event_quoted(value@));
}

/// Appends a JSON array of string literals, in an event record.
fn write_event_string_array(out: &mut String, values: &Vec<String>)
    ensures
        final(out)@ == old(out)@ + event_string_array(strings_view(values@)),
{
    let ghost start = out@;
    let ghost parts = strings_view(values@).map_values(|v: Seq<char>| event_quoted(v));
    push_char(out, '[');
    let mut i: usize = 0;
    while i < values.len()
        invariant
            i <= values@.len(),
            parts == strings_view(values@).map_values(|v: Seq<char>| event_quoted(v)),
            out@ == start + seq!['['] + join_with(parts.take(i as int), seq![',']),
        decreases values@.len() - i,
    {
        if i > 0 {
            push_char(out, ',');
        }
        write_event_quoted(out, values[i].as_str());
        proof {
            assert(parts[i as int] == event_quoted(values@[i as int]@));
            assert(parts.take(i + 1) =~= parts.take(i as int).push(parts[i as int]));
            if i > 0 {
                lemma_join_push(parts.take(i as int), parts[i as int], seq![',']);
            } else {
                assert(parts.take(1) =~= seq![parts[0]]);
            }
            assert(out@ =~= start + seq!['['] + join_with(parts.take(i + 1), seq![',']));
        }
        i = i + 1;
    }
    push_char(out, ']');
    assert(parts.take(values@.len() as int) =~= parts);
    assert(out@ =~= start + event_string_array(strings_view(values@)));
}

proof fn lemma_event_escaped_free(s: Seq<char>)
    ensures
        free_of_newline(event_escaped(s)),
    decreases s.len(),
{
    if s.len() > 0 {
        lemma_event_escaped_free(s.drop_last());
        let c = s.last();
        if c != '"' && c != '\\' && c != '\u{8}' && c != '\u{c}' && c != '\n' && c != '\r' && c != '\t'
            && (c as u32) < 0x20 {
            lemma_hex_free(c as u32 as nat, 4);
            lemma_concat_free(seq!['\\', 'u'], hex_fixed(c as u32 as nat, 4));
        }
        lemma_concat_free(event_escaped(s.drop_last()), event_escape_char(c));
    }
}

proof fn lemma_event_quoted_free(s: Seq<char>)
    ensures
        free_of_newline(event_quoted(s)),
{
    lemma_event_escaped_free(s);
    lemma_concat_free(seq!['"'], event_escaped(s));
    lemma_concat_free(seq!['"'] + event_escaped(s), seq!['"']);
}

proof fn lemma_event_array_free(values: Seq<Seq<char>>)
    ensures
        free_of_newline(event_string_array(values)),
{
    let parts = values.map_values(|v: Seq<char>| event_quoted(v));
    assert forall|k: int| 0 <= k < parts.len() implies free_of_newline(#[trigger] parts[k]) by {
        lemma_event_quoted_free(values[k]);
    }
    lemma_join_free(parts, seq![',']);
    lemma_concat_free(seq!['['], join_with(parts, seq![',']));
    lemma_concat_free(seq!['['] + join_with(parts, seq![',']), seq![']']);
}

/// The JSON line of an alert record: its fields in declaration order.
pub open spec fn alert_json_line(r: AlertRecord) -> Seq<char> {
    "{\"schema_version\":"@ + decimal(r.schema_version as nat) + ",\"record_type\":"@ + event_quoted(
        r.record_type@,
    ) + ",\"alert_id\":"@ + event_quoted(r.alert_id@) + ",\"timestamp_unix_secs\":"@ + decimal(
        r.timestamp_unix_secs as nat,
    ) + ",\"source\":"@ + event_quoted(r.source@) + ",\"event\":"@ + event_quoted(r.event@)
        + ",\"significance\":"@ + seq!['"'] + significance_name(r.significance) + seq!['"']
        + ",\"originator\":"@ + event_quoted(r.originator@) + ",\"callsign\":"@ + event_quoted(r.callsign@)
        + ",\"is_national\":"@ + bool_text(r.is_national) + ",\"is_test\":"@ + bool_text(
        r.is_test,
    ) + ",\"location_codes\":"@ + event_string_array(strings_view(r.location_codes@))
        + ",\"location_names\":"@ + event_string_array(strings_view(r.location_names@))
        + ",\"message_text\":"@ + event_quoted(r.message_text@) + seq!['}']
}

impl AlertRecord {
    /// The record as one JSON line (no trailing newline).
    pub fn to_json_line(&self) -> (s: String)
        ensures
            s@ == alert_json_line(*self),
    {
        let mut out = String::new();
        push_str(&mut out, "{\"schema_version\":");
        write_decimal(&mut out, self.schema_version as u64);
        push_str(&mut out, ",\"record_type\":");
        write_event_quoted(&mut out, self.record_type.as_str());
        push_str(&mut out, ",\"alert_id\":");
        write_event_quoted(&mut out, self.alert_id.as_str());
        push_str(&mut out, ",\"timestamp_unix_secs\":");
        write_decimal(&mut out, self.timestamp_unix_secs);
        push_str(&mut out, ",\"source\":");
        write_event_quoted(&mut out, self.source.as_str());
        push_str(&mut out, ",\"event\":");
        write_event_quoted(&mut out, self.event.as_str());
        push_str(&mut out, ",\"significance\":");
        push_char(&mut out, '"');
        push_str(&mut out, significance_text(self.significance));
        push_char(&mut out, '"');
        push_str(&mut out, ",\"originator\":");
        write_event_quoted(&mut out, self.originator.as_str());
        push_str(&mut out, ",\"callsign\":");
        write_event_quoted(&mut out, self.callsign.as_str());
        push_str(&mut out, ",\"is_national\":");
        push_str(&mut out, bool_str(self.is_national));
        push_str(&mut out, ",\"is_test\":");
        push_str(&mut out, bool_str(self.is_test));
        push_str(&mut out, ",\"location_codes\":");
        write_event_string_array(&mut out, &self.location_codes);
        push_str(&mut out, ",\"location_names\":");
        write_event_string_array(&mut out, &self.location_names);
        push_str(&mut out, ",\"message_text\":");
        write_event_quoted(&mut out, self.message_text.as_str());
        push_char(&mut out, '}');
        out
    }
}

/// An alert record is written as exactly one line: its JSON holds no
/// newline, whatever its fields hold.
#[verifier::spinoff_prover]
#[verifier::rlimit(40)]
pub proof fn law_alert_record_is_one_line(r: AlertRecord)
    ensures
        free_of_newline(alert_json_line(r)),
{
    reveal_strlit("{\"schema_version\":");
    reveal_strlit(",\"record_type\":");
    reveal_strlit(",\"alert_id\":");
    reveal_strlit(",\"timestamp_unix_secs\":");
    reveal_strlit(",\"source\":");
    reveal_strlit(",\"event\":");
    reveal_strlit(",\"significance\":");
    reveal_strlit(",\"originator\":");
    reveal_strlit(",\"callsign\":");
    reveal_strlit(",\"is_national\":");
    reveal_strlit(",\"is_test\":");
    reveal_strlit(",\"location_codes\":");
    reveal_strlit(",\"location_names\":");
    reveal_strlit(",\"message_text\":");
    reveal_strlit("true");
    reveal_strlit("false");
    reveal_strlit("Test");
    reveal_strlit("Statement");
    reveal_strlit("Emergency");
    reveal_strlit("Watch");
    reveal_strlit("Warning");
    reveal_strlit("Unknown");
    lemma_decimal_free(r.schema_version as nat);
    lemma_decimal_free(r.timestamp_unix_secs as nat);
    lemma_event_quoted_free(r.record_type@);
    lemma_event_quoted_free(r.alert_id@);
    lemma_event_quoted_free(r.source@);
    lemma_event_quoted_free(r.event@);
    lemma_event_quoted_free(r.originator@);
    lemma_event_quoted_free(r.callsign@);
    lemma_event_quoted_free(r.message_text@);
    lemma_event_array_free(strings_view(r.location_codes@));
    lemma_event_array_free(strings_view(r.location_names@));
    let a0 = "{\"schema_version\":"@;
    assert(free_of_newline(a0));
    assert(free_of_newline(decimal(r.schema_version as nat)));
    lemma_concat_free(a0, decimal(r.schema_version as nat));
    let a1 = a0 + decimal(r.schema_version as nat);
    assert(free_of_newline(",\"record_type\":"@));
    lemma_concat_free(a1, ",\"record_type\":"@);
    let a2 = a1 + ",\"record_type\":"@;
    assert(free_of_newline(event_quoted(r.record_type@)));
    lemma_concat_free(a2, event_quoted(r.record_type@));
    let a3 = a2 + event_quoted(r.record_type@);
    assert(free_of_newline(",\"alert_id\":"@));
    lemma_concat_free(a3, ",\"alert_id\":"@);
    let a4 = a3 + ",\"alert_id\":"@;
    assert(free_of_newline(event_quoted(r.alert_id@)));
    lemma_concat_free(a4, event_quoted(r.alert_id@));
    let a5 = a4 + event_quoted(r.alert_id@);
    assert(free_of_newline(",\"timestamp_unix_secs\":"@));
    lemma_concat_free(a5, ",\"timestamp_unix_secs\":"@);
    let a6 = a5 + ",\"timestamp_unix_secs\":"@;
    assert(free_of_newline(decimal(r.timestamp_unix_secs as nat)));
    lemma_concat_free(a6, decimal(r.timestamp_unix_secs as nat));
    let a7 = a6 + decimal(r.timestamp_unix_secs as nat);
    assert(free_of_newline(",\"source\":"@));
    lemma_concat_free(a7, ",\"source\":"@);
    let a8 = a7 + ",\"source\":"@;
    assert(free_of_newline(event_quoted(r.source@)));
    lemma_concat_free(a8, event_quoted(r.source@));
    let a9 = a8 + event_quoted(r.source@);
    assert(free_of_newline(",\"event\":"@));
    lemma_concat_free(a9, ",\"event\":"@);
    let a10 = a9 + ",\"event\":"@;
    assert(free_of_newline(event_quoted(r.event@)));
    lemma_concat_free(a10, event_quoted(r.event@));
    let a11 = a10 + event_quoted(r.event@);
    assert(free_of_newline(",\"significance\":"@));
    lemma_concat_free(a11, ",\"significance\":"@);
    let a12 = a11 + ",\"significance\":"@;
    assert(free_of_newline(seq!['"']));
    lemma_concat_free(a12, seq!['"']);
    let a13 = a12 + seq!['"'];
    assert(free_of_newline(significance_name(r.significance)));
    lemma_concat_free(a13, significance_name(r.significance));
    let a14 = a13 + significance_name(r.significance);
    assert(free_of_newline(seq!['"']));
    lemma_concat_free(a14, seq!['"']);
    let a15 = a14 + seq!['"'];
    assert(free_of_newline(",\"originator\":"@));
    lemma_concat_free(a15, ",\"originator\":"@);
    let a16 = a15 + ",\"originator\":"@;
    assert(free_of_newline(event_quoted(r.originator@)));
    lemma_concat_free(a16, event_quoted(r.originator@));
    let a17 = a16 + event_quoted(r.originator@);
    assert(free_of_newline(",\"callsign\":"@));
    lemma_concat_free(a17, ",\"callsign\":"@);
    let a18 = a17 + ",\"callsign\":"@;
    assert(free_of_newline(event_quoted(r.callsign@)));
    lemma_concat_free(a18, event_quoted(r.callsign@));
    let a19 = a18 + event_quoted(r.callsign@);
    assert(free_of_newline(",\"is_national\":"@));
    lemma_concat_free(a19, ",\"is_national\":"@);
    let a20 = a19 + ",\"is_national\":"@;
    assert(free_of_newline(bool_text(r.is_national)));
    lemma_concat_free(a20, bool_text(r.is_national));
    let a21 = a20 + bool_text(r.is_national);
    assert(free_of_newline(",\"is_test\":"@));
    lemma_concat_free(a21, ",\"is_test\":"@);
    let a22 = a21 + ",\"is_test\":"@;
    assert(free_of_newline(bool_text(r.is_test)));
    lemma_concat_free(a22, bool_text(r.is_test));
    let a23 = a22 + bool_text(r.is_test);
    assert(free_of_newline(",\"location_codes\":"@));
    lemma_concat_free(a23, ",\"location_codes\":"@);
    let a24 = a23 + ",\"location_codes\":"@;
    assert(free_of_newline(event_string_array(strings_view(r.location_codes@))));
    lemma_concat_free(a24, event_string_array(strings_view(r.location_codes@)));
    let a25 = a24 + event_string_array(strings_view(r.location_codes@));
    assert(free_of_newline(",\"location_names\":"@));
    lemma_concat_free(a25, ",\"location_names\":"@);
    let a26 = a25 + ",\"location_names\":"@;
    assert(free_of_newline(event_string_array(strings_view(r.location_names@))));
    lemma_concat_free(a26, event_string_array(strings_view(r.location_names@)));
    let a27 = a26 + event_string_array(strings_view(r.location_names@));
    assert(free_of_newline(",\"message_text\":"@));
    lemma_concat_free(a27, ",\"message_text\":"@);
    let a28 = a27 + ",\"message_text\":"@;
    assert(free_of_newline(event_quoted(r.message_text@)));
    lemma_concat_free(a28, event_quoted(r.message_text@));
    let a29 = a28 + event_quoted(r.message_text@);
    assert(free_of_newline(seq!['}']));
    lemma_concat_free(a29, seq!['}']);
    let a30 = a29 + seq!['}'];
    assert(alert_json_line(r) == a30);
}

/// A JSON number or `null`.
pub open spec fn json_opt_number(o: Option<u64>) -> Seq<char> {
    match o {
        Some(n) => decimal(n as nat),
        None => "null"@,
    }
}

/// A JSON string literal or `null`.
pub open spec fn json_opt_string(o: Option<String>) -> Seq<char> {
    match o {
        Some(t) => event_quoted(t@),
        None => "null"@,
    }
}

/// A JSON boolean or `null`.
pub open spec fn json_opt_bool(o: Option<bool>) -> Seq<char> {
    match o {
        Some(b) => bool_text(b),
        None => "null"@,
    }
}

/// The name of a delivery attempt status.
pub open spec fn delivery_status_name(s: DeliveryAttemptStatus) -> Seq<char> {
    match s {
        DeliveryAttemptStatus::Success => "Success"@,
        DeliveryAttemptStatus::Failure => "Failure"@,
        DeliveryAttemptStatus::Skipped => "Skipped"@,
    }
}

/// The name of a source state.
pub open spec fn source_state_name(s: SourceState) -> Seq<char> {
    match s {
        SourceState::Healthy => "Healthy"@,
        SourceState::Degraded => "Degraded"@,
        SourceState::Offline => "Offline"@,
        SourceState::Unknown => "Unknown"@,
    }
}

/// The JSON line of a delivery attempt record: its fields in declaration
/// order, absent values as `null`.
pub open spec fn delivery_json_line(r: DeliveryAttemptRecord) -> Seq<char> {
    "{\"schema_version\":"@ + decimal(r.schema_version as nat) + ",\"record_type\":"@ + event_quoted(
        r.record_type@,
    ) + ",\"alert_id\":"@ + event_quoted(r.alert_id@) + ",\"timestamp_unix_secs\":"@ + decimal(
        r.timestamp_unix_secs as nat,
    ) + ",\"sender\":"@ + event_quoted(r.sender@) + ",\"required\":"@ + bool_text(r.required)
        + ",\"channel\":"@ + json_opt_number(
        match r.channel {
            Some(c) => Some(c as u64),
            None => None,
        },
    ) + ",\"status\":"@ + event_quoted(delivery_status_name(r.status)) + ",\"error\":"@
        + json_opt_string(r.error) + seq!['}']
}

/// The JSON line of a sender status record: its fields in declaration
/// order, absent values as `null`.
pub open spec fn sender_status_json_line(r: SenderStatusRecord) -> Seq<char> {
    "{\"schema_version\":"@ + decimal(r.schema_version as nat) + ",\"record_type\":"@ + event_quoted(
        r.record_type@,
    ) + ",\"timestamp_unix_secs\":"@ + decimal(r.timestamp_unix_secs as nat) + ",\"sender\":"@
        + event_quoted(r.sender@) + ",\"configured\":"@ + bool_text(r.configured) + ",\"required\":"@
        + bool_text(r.required) + ",\"ready\":"@ + bool_text(r.ready)
        + ",\"last_success_unix_secs\":"@ + json_opt_number(r.last_success_unix_secs)
        + ",\"last_failure_unix_secs\":"@ + json_opt_number(r.last_failure_unix_secs)
        + ",\"error\":"@ + json_opt_string(r.error) + seq!['}']
}

/// The JSON line of a system status record: its fields in declaration
/// order, absent values as `null`.
pub open spec fn system_status_json_line(r: SystemStatusRecord) -> Seq<char> {
    "{\"schema_version\":"@ + decimal(r.schema_version as nat) + ",\"record_type\":"@ + event_quoted(
        r.record_type@,
    ) + ",\"timestamp_unix_secs\":"@ + decimal(r.timestamp_unix_secs as nat) + ",\"hostname\":"@
        + event_quoted(r.hostname@) + ",\"sentinel_version\":"@ + event_quoted(r.sentinel_version@)
        + ",\"uptime_secs\":"@ + json_opt_number(r.uptime_secs) + ",\"disk_free_bytes\":"@
        + json_opt_number(r.disk_free_bytes) + ",\"network_available\":"@ + json_opt_bool(
        r.network_available,
    ) + ",\"notes\":"@ + event_string_array(strings_view(r.notes@)) + seq!['}']
}

/// The JSON line of a source status record: its fields in declaration
/// order, absent values as `null`.
pub open spec fn source_status_json_line(r: SourceStatusRecord) -> Seq<char> {
    "{\"schema_version\":"@ + decimal(r.schema_version as nat) + ",\"record_type\":"@ + event_quoted(
        r.record_type@,
    ) + ",\"timestamp_unix_secs\":"@ + decimal(r.timestamp_unix_secs as nat) + ",\"source\":"@
        + event_quoted(r.source@) + ",\"state\":"@ + event_quoted(source_state_name(r.state))
        + ",\"last_success_unix_secs\":"@ + json_opt_number(r.last_success_unix_secs)
        + ",\"last_failure_unix_secs\":"@ + json_opt_number(r.last_failure_unix_secs)
        + ",\"last_decoded_message_unix_secs\":"@ + json_opt_number(
        r.last_decoded_message_unix_secs,
    ) + ",\"last_accepted_alert_unix_secs\":"@ + json_opt_number(
        r.last_accepted_alert_unix_secs,
    ) + ",\"error\":"@ + json_opt_string(r.error) + seq!['}']
}

fn write_opt_number(out: &mut String, o: Option<u64>)
    ensures
        final(out)@ == old(out)@ + json_opt_number(o),
{
    match o {
        Some(n) => write_decimal(out, n),
        None => push_str(out, "null"),
    }
}

fn write_opt_string(out: &mut String, o: &Option<String>)
    ensures
        final(out)@ == old(out)@ + json_opt_string(*o),
{
    match o {
        Some(t) => write_event_quoted(out, t.as_str()),
        None => push_str(out, "null"),
    }
}

fn write_opt_bool(out: &mut String, o: Option<bool>)
    ensures
        final(out)@ == old(out)@ + json_opt_bool(o),
{
    match o {
        Some(b) => push_str(out, bool_str(b)),
        None => push_str(out, "null"),
    }
}

/// The name of a delivery attempt status.
pub fn delivery_status_text(s: DeliveryAttemptStatus) -> (t: &'static str)
    ensures
        t@ == delivery_status_name(s),
{
    match s {
        DeliveryAttemptStatus::Success => "Success",
        DeliveryAttemptStatus::Failure => "Failure",
        DeliveryAttemptStatus::Skipped => "Skipped",
    }
}

/// The name of a source state.
pub fn source_state_text(s: SourceState) -> (t: &'static str)
    ensures
        t@ == source_state_name(s),
{
    match s {
        SourceState::Healthy => "Healthy",
        SourceState::Degraded => "Degraded",
        SourceState::Offline => "Offline",
        SourceState::Unknown => "Unknown",
    }
}

impl DeliveryAttemptRecord {
    /// The record as one JSON line (no trailing newline).
    pub fn to_json_line(&self) -> (s: String)
        ensures
            s@ == delivery_json_line(*self),
    {
        let mut out = String::new();
        push_str(&mut out, "{\"schema_version\":");
        write_decimal(&mut out, self.schema_version as u64);
        push_str(&mut out, ",\"record_type\":");
        write_event_quoted(&mut out, self.record_type.as_str());
        push_str(&mut out, ",\"alert_id\":");
        write_event_quoted(&mut out, self.alert_id.as_str());
        push_str(&mut out, ",\"timestamp_unix_secs\":");
        write_decimal(&mut out, self.timestamp_unix_secs);
        push_str(&mut out, ",\"sender\":");
        write_event_quoted(&mut out, self.sender.as_str());
        push_str(&mut out, ",\"required\":");
        push_str(&mut out, bool_str(self.required));
        push_str(&mut out, ",\"channel\":");
        let channel: Option<u64> = match self.channel {
            Some(c) => Some(c as u64),
            None => None,
        };
        write_opt_number(&mut out, channel);
        push_str(&mut out, ",\"status\":");
        write_event_quoted(&mut out, delivery_status_text(self.status));
        push_str(&mut out, ",\"error\":");
        write_opt_string(&mut out, &self.error);
        push_char(&mut out, '}');
        out
    }
}

impl SenderStatusRecord {
    /// The record as one JSON line (no trailing newline).
    pub fn to_json_line(&self) -> (s: String)
        ensures
            s@ == sender_status_json_line(*self),
    {
        let mut out = String::new();
        push_str(&mut out, "{\"schema_version\":");
        write_decimal(&mut out, self.schema_version as u64);
        push_str(&mut out, ",\"record_type\":");
        write_event_quoted(&mut out, self.record_type.as_str());
        push_str(&mut out, ",\"timestamp_unix_secs\":");
        write_decimal(&mut out, self.timestamp_unix_secs);
        push_str(&mut out, ",\"sender\":");
        write_event_quoted(&mut out, self.sender.as_str());
        push_str(&mut out, ",\"configured\":");
        push_str(&mut out, bool_str(self.configured));
        push_str(&mut out, ",\"required\":");
        push_str(&mut out, bool_str(self.required));
        push_str(&mut out, ",\"ready\":");
        push_str(&mut out, bool_str(self.ready));
        push_str(&mut out, ",\"last_success_unix_secs\":");
        write_opt_number(&mut out, self.last_success_unix_secs);
        push_str(&mut out, ",\"last_failure_unix_secs\":");
        write_opt_number(&mut out, self.last_failure_unix_secs);
        push_str(&mut out, ",\"error\":");
        write_opt_string(&mut out, &self.error);
        push_char(&mut out, '}');
        out
    }
}

impl SystemStatusRecord {
    /// The record as one JSON line (no trailing newline).
    pub fn to_json_line(&self) -> (s: String)
        ensures
            s@ == system_status_json_line(*self),
    {
        let mut out = String::new();
        push_str(&mut out, "{\"schema_version\":");
        write_decimal(&mut out, self.schema_version as u64);
        push_str(&mut out, ",\"record_type\":");
        write_event_quoted(&mut out, self.record_type.as_str());
        push_str(&mut out, ",\"timestamp_unix_secs\":");
        write_decimal(&mut out, self.timestamp_unix_secs);
        push_str(&mut out, ",\"hostname\":");
        write_event_quoted(&mut out, self.hostname.as_str());
        push_str(&mut out, ",\"sentinel_version\":");
        write_event_quoted(&mut out, self.sentinel_version.as_str());
        push_str(&mut out, ",\"uptime_secs\":");
        write_opt_number(&mut out, self.uptime_secs);
        push_str(&mut out, ",\"disk_free_bytes\":");
        write_opt_number(&mut out, self.disk_free_bytes);
        push_str(&mut out, ",\"network_available\":");
        write_opt_bool(&mut out, self.network_available);
        push_str(&mut out, ",\"notes\":");
        write_event_string_array(&mut out, &self.notes);
        push_char(&mut out, '}');
        out
    }
}

impl SourceStatusRecord {
    /// The record as one JSON line (no trailing newline).
    pub fn to_json_line(&self) -> (s: String)
        ensures
            s@ == source_status_json_line(*self),
    {
        let mut out = String::new();
        push_str(&mut out, "{\"schema_version\":");
        write_decimal(&mut out, self.schema_version as u64);
        push_str(&mut out, ",\"record_type\":");
        write_event_quoted(&mut out, self.record_type.as_str());
        push_str(&mut out, ",\"timestamp_unix_secs\":");
        write_decimal(&mut out, self.timestamp_unix_secs);
        push_str(&mut out, ",\"source\":");
        write_event_quoted(&mut out, self.source.as_str());
        push_str(&mut out, ",\"state\":");
        write_event_quoted(&mut out, source_state_text(self.state));
        push_str(&mut out, ",\"last_success_unix_secs\":");
        write_opt_number(&mut out, self.last_success_unix_secs);
        push_str(&mut out, ",\"last_failure_unix_secs\":");
        write_opt_number(&mut out, self.last_failure_unix_secs);
        push_str(&mut out, ",\"last_decoded_message_unix_secs\":");
        write_opt_number(&mut out, self.last_decoded_message_unix_secs);
        push_str(&mut out, ",\"last_accepted_alert_unix_secs\":");
        write_opt_number(&mut out, self.last_accepted_alert_unix_secs);
        push_str(&mut out, ",\"error\":");
        write_opt_string(&mut out, &self.error);
        push_char(&mut out, '}');
        out
    }
}

} // verus!
verus! {

proof fn lemma_opt_number_free(o: Option<u64>)
    ensures
        free_of_newline(json_opt_number(o)),
{
    reveal_strlit("null");
    if let Some(n) = o {
        lemma_decimal_free(n as nat);
    }
}

proof fn lemma_opt_string_free(o: Option<String>)
    ensures
        free_of_newline(json_opt_string(o)),
{
    reveal_strlit("null");
    if let Some(t) = o {
        lemma_event_quoted_free(t@);
    }
}

proof fn lemma_opt_bool_free(o: Option<bool>)
    ensures
        free_of_newline(json_opt_bool(o)),
{
    reveal_strlit("null");
    reveal_strlit("true");
    reveal_strlit("false");
}

proof fn lemma_status_names_free(s: DeliveryAttemptStatus, t: SourceState)
    ensures
        free_of_newline(delivery_status_name(s)),
        free_of_newline(source_state_name(t)),
{
    reveal_strlit("Success");
    reveal_strlit("Failure");
    reveal_strlit("Skipped");
    reveal_strlit("Healthy");
    reveal_strlit("Degraded");
    reveal_strlit("Offline");
    reveal_strlit("Unknown");
}

/// A delivery attempt record is written as exactly one line: its JSON holds no newline,
/// whatever its fields hold.
#[verifier::spinoff_prover]
#[verifier::rlimit(40)]
pub proof fn law_delivery_record_is_one_line(r: DeliveryAttemptRecord)
    ensures
        free_of_newline(delivery_json_line(r)),
{
    reveal_strlit(",\"alert_id\":");
    reveal_strlit(",\"channel\":");
    reveal_strlit(",\"error\":");
    reveal_strlit(",\"record_type\":");
    reveal_strlit(",\"required\":");
    reveal_strlit(",\"sender\":");
    reveal_strlit(",\"status\":");
    reveal_strlit(",\"timestamp_unix_secs\":");
    reveal_strlit("{\"schema_version\":");
    reveal_strlit("true");
    reveal_strlit("false");
    lemma_status_names_free(r.status, SourceState::Healthy);
    lemma_decimal_free(r.schema_version as nat);
    lemma_event_quoted_free(r.record_type@);
    lemma_event_quoted_free(r.alert_id@);
    lemma_decimal_free(r.timestamp_unix_secs as nat);
    lemma_event_quoted_free(r.sender@);
    lemma_opt_number_free(match r.channel { Some(c) => Some(c as u64), None => None });
    lemma_event_quoted_free(delivery_status_name(r.status));
    lemma_opt_string_free(r.error);
    let a0 = "{\"schema_version\":"@;
    assert(free_of_newline(a0));
    assert(free_of_newline(decimal(r.schema_version as nat)));
    lemma_concat_free(a0, decimal(r.schema_version as nat));
    let a1 = a0 + decimal(r.schema_version as nat);
    assert(free_of_newline(",\"record_type\":"@));
    lemma_concat_free(a1, ",\"record_type\":"@);
    let a2 = a1 + ",\"record_type\":"@;
    assert(free_of_newline(event_quoted(r.record_type@)));
    lemma_concat_free(a2, event_quoted(r.record_type@));
    let a3 = a2 + event_quoted(r.record_type@);
    assert(free_of_newline(",\"alert_id\":"@));
    lemma_concat_free(a3, ",\"alert_id\":"@);
    let a4 = a3 + ",\"alert_id\":"@;
    assert(free_of_newline(event_quoted(r.alert_id@)));
    lemma_concat_free(a4, event_quoted(r.alert_id@));
    let a5 = a4 + event_quoted(r.alert_id@);
    assert(free_of_newline(",\"timestamp_unix_secs\":"@));
    lemma_concat_free(a5, ",\"timestamp_unix_secs\":"@);
    let a6 = a5 + ",\"timestamp_unix_secs\":"@;
    assert(free_of_newline(decimal(r.timestamp_unix_secs as nat)));
    lemma_concat_free(a6, decimal(r.timestamp_unix_secs as nat));
    let a7 = a6 + decimal(r.timestamp_unix_secs as nat);
    assert(free_of_newline(",\"sender\":"@));
    lemma_concat_free(a7, ",\"sender\":"@);
    let a8 = a7 + ",\"sender\":"@;
    assert(free_of_newline(event_quoted(r.sender@)));
    lemma_concat_free(a8, event_quoted(r.sender@));
    let a9 = a8 + event_quoted(r.sender@);
    assert(free_of_newline(",\"required\":"@));
    lemma_concat_free(a9, ",\"required\":"@);
    let a10 = a9 + ",\"required\":"@;
    assert(free_of_newline(bool_text(r.required)));
    lemma_concat_free(a10, bool_text(r.required));
    let a11 = a10 + bool_text(r.required);
    assert(free_of_newline(",\"channel\":"@));
    lemma_concat_free(a11, ",\"channel\":"@);
    let a12 = a11 + ",\"channel\":"@;
    assert(free_of_newline(json_opt_number(match r.channel { Some(c) => Some(c as u64), None => None })));
    lemma_concat_free(a12, json_opt_number(match r.channel { Some(c) => Some(c as u64), None => None }));
    let a13 = a12 + json_opt_number(match r.channel { Some(c) => Some(c as u64), None => None });
    assert(free_of_newline(",\"status\":"@));
    lemma_concat_free(a13, ",\"status\":"@);
    let a14 = a13 + ",\"status\":"@;
    assert(free_of_newline(event_quoted(delivery_status_name(r.status))));
    lemma_concat_free(a14, event_quoted(delivery_status_name(r.status)));
    let a15 = a14 + event_quoted(delivery_status_name(r.status));
    assert(free_of_newline(",\"error\":"@));
    lemma_concat_free(a15, ",\"error\":"@);
    let a16 = a15 + ",\"error\":"@;
    assert(free_of_newline(json_opt_string(r.error)));
    lemma_concat_free(a16, json_opt_string(r.error));
    let a17 = a16 + json_opt_string(r.error);
    assert(free_of_newline(seq!['}']));
    lemma_concat_free(a17, seq!['}']);
    let a18 = a17 + seq!['}'];
    assert(delivery_json_line(r) == a18);
}

/// A sender status record is written as exactly one line: its JSON holds no newline,
/// whatever its fields hold.
#[verifier::spinoff_prover]
#[verifier::rlimit(40)]
pub proof fn law_sender_status_record_is_one_line(r: SenderStatusRecord)
    ensures
        free_of_newline(sender_status_json_line(r)),
{
    reveal_strlit(",\"configured\":");
    reveal_strlit(",\"error\":");
    reveal_strlit(",\"last_failure_unix_secs\":");
    reveal_strlit(",\"last_success_unix_secs\":");
    reveal_strlit(",\"ready\":");
    reveal_strlit(",\"record_type\":");
    reveal_strlit(",\"required\":");
    reveal_strlit(",\"sender\":");
    reveal_strlit(",\"timestamp_unix_secs\":");
    reveal_strlit("{\"schema_version\":");
    reveal_strlit("true");
    reveal_strlit("false");
    lemma_decimal_free(r.schema_version as nat);
    lemma_event_quoted_free(r.record_type@);
    lemma_decimal_free(r.timestamp_unix_secs as nat);
    lemma_event_quoted_free(r.sender@);
    lemma_opt_number_free(r.last_success_unix_secs);
    lemma_opt_number_free(r.last_failure_unix_secs);
    lemma_opt_string_free(r.error);
    let a0 = "{\"schema_version\":"@;
    assert(free_of_newline(a0));
    assert(free_of_newline(decimal(r.schema_version as nat)));
    lemma_concat_free(a0, decimal(r.schema_version as nat));
    let a1 = a0 + decimal(r.schema_version as nat);
    assert(free_of_newline(",\"record_type\":"@));
    lemma_concat_free(a1, ",\"record_type\":"@);
    let a2 = a1 + ",\"record_type\":"@;
    assert(free_of_newline(event_quoted(r.record_type@)));
    lemma_concat_free(a2, event_quoted(r.record_type@));
    let a3 = a2 + event_quoted(r.record_type@);
    assert(free_of_newline(",\"timestamp_unix_secs\":"@));
    lemma_concat_free(a3, ",\"timestamp_unix_secs\":"@);
    let a4 = a3 + ",\"timestamp_unix_secs\":"@;
    assert(free_of_newline(decimal(r.timestamp_unix_secs as nat)));
    lemma_concat_free(a4, decimal(r.timestamp_unix_secs as nat));
    let a5 = a4 + decimal(r.timestamp_unix_secs as nat);
    assert(free_of_newline(",\"sender\":"@));
    lemma_concat_free(a5, ",\"sender\":"@);
    let a6 = a5 + ",\"sender\":"@;
    assert(free_of_newline(event_quoted(r.sender@)));
    lemma_concat_free(a6, event_quoted(r.sender@));
    let a7 = a6 + event_quoted(r.sender@);
    assert(free_of_newline(",\"configured\":"@));
    lemma_concat_free(a7, ",\"configured\":"@);
    let a8 = a7 + ",\"configured\":"@;
    assert(free_of_newline(bool_text(r.configured)));
    lemma_concat_free(a8, bool_text(r.configured));
    let a9 = a8 + bool_text(r.configured);
    assert(free_of_newline(",\"required\":"@));
    lemma_concat_free(a9, ",\"required\":"@);
    let a10 = a9 + ",\"required\":"@;
    assert(free_of_newline(bool_text(r.required)));
    lemma_concat_free(a10, bool_text(r.required));
    let a11 = a10 + bool_text(r.required);
    assert(free_of_newline(",\"ready\":"@));
    lemma_concat_free(a11, ",\"ready\":"@);
    let a12 = a11 + ",\"ready\":"@;
    assert(free_of_newline(bool_text(r.ready)));
    lemma_concat_free(a12, bool_text(r.ready));
    let a13 = a12 + bool_text(r.ready);
    assert(free_of_newline(",\"last_success_unix_secs\":"@));
    lemma_concat_free(a13, ",\"last_success_unix_secs\":"@);
    let a14 = a13 + ",\"last_success_unix_secs\":"@;
    assert(free_of_newline(json_opt_number(r.last_success_unix_secs)));
    lemma_concat_free(a14, json_opt_number(r.last_success_unix_secs));
    let a15 = a14 + json_opt_number(r.last_success_unix_secs);
    assert(free_of_newline(",\"last_failure_unix_secs\":"@));
    lemma_concat_free(a15, ",\"last_failure_unix_secs\":"@);
    let a16 = a15 + ",\"last_failure_unix_secs\":"@;
    assert(free_of_newline(json_opt_number(r.last_failure_unix_secs)));
    lemma_concat_free(a16, json_opt_number(r.last_failure_unix_secs));
    let a17 = a16 + json_opt_number(r.last_failure_unix_secs);
    assert(free_of_newline(",\"error\":"@));
    lemma_concat_free(a17, ",\"error\":"@);
    let a18 = a17 + ",\"error\":"@;
    assert(free_of_newline(json_opt_string(r.error)));
    lemma_concat_free(a18, json_opt_string(r.error));
    let a19 = a18 + json_opt_string(r.error);
    assert(free_of_newline(seq!['}']));
    lemma_concat_free(a19, seq!['}']);
    let a20 = a19 + seq!['}'];
    assert(sender_status_json_line(r) == a20);
}

/// A source status record is written as exactly one line: its JSON holds no newline,
/// whatever its fields hold.
#[verifier::spinoff_prover]
#[verifier::rlimit(40)]
pub proof fn law_source_status_record_is_one_line(r: SourceStatusRecord)
    ensures
        free_of_newline(source_status_json_line(r)),
{
    reveal_strlit(",\"error\":");
    reveal_strlit(",\"last_accepted_alert_unix_secs\":");
    reveal_strlit(",\"last_decoded_message_unix_secs\":");
    reveal_strlit(",\"last_failure_unix_secs\":");
    reveal_strlit(",\"last_success_unix_secs\":");
    reveal_strlit(",\"record_type\":");
    reveal_strlit(",\"source\":");
    reveal_strlit(",\"state\":");
    reveal_strlit(",\"timestamp_unix_secs\":");
    reveal_strlit("{\"schema_version\":");
    reveal_strlit("true");
    reveal_strlit("false");
    lemma_status_names_free(DeliveryAttemptStatus::Success, r.state);
    lemma_decimal_free(r.schema_version as nat);
    lemma_event_quoted_free(r.record_type@);
    lemma_decimal_free(r.timestamp_unix_secs as nat);
    lemma_event_quoted_free(r.source@);
    lemma_event_quoted_free(source_state_name(r.state));
    lemma_opt_number_free(r.last_success_unix_secs);
    lemma_opt_number_free(r.last_failure_unix_secs);
    lemma_opt_number_free(r.last_decoded_message_unix_secs);
    lemma_opt_number_free(r.last_accepted_alert_unix_secs);
    lemma_opt_string_free(r.error);
    let a0 = "{\"schema_version\":"@;
    assert(free_of_newline(a0));
    assert(free_of_newline(decimal(r.schema_version as nat)));
    lemma_concat_free(a0, decimal(r.schema_version as nat));
    let a1 = a0 + decimal(r.schema_version as nat);
    assert(free_of_newline(",\"record_type\":"@));
    lemma_concat_free(a1, ",\"record_type\":"@);
    let a2 = a1 + ",\"record_type\":"@;
    assert(free_of_newline(event_quoted(r.record_type@)));
    lemma_concat_free(a2, event_quoted(r.record_type@));
    let a3 = a2 + event_quoted(r.record_type@);
    assert(free_of_newline(",\"timestamp_unix_secs\":"@));
    lemma_concat_free(a3, ",\"timestamp_unix_secs\":"@);
    let a4 = a3 + ",\"timestamp_unix_secs\":"@;
    assert(free_of_newline(decimal(r.timestamp_unix_secs as nat)));
    lemma_concat_free(a4, decimal(r.timestamp_unix_secs as nat));
    let a5 = a4 + decimal(r.timestamp_unix_secs as nat);
    assert(free_of_newline(",\"source\":"@));
    lemma_concat_free(a5, ",\"source\":"@);
    let a6 = a5 + ",\"source\":"@;
    assert(free_of_newline(event_quoted(r.source@)));
    lemma_concat_free(a6, event_quoted(r.source@));
    let a7 = a6 + event_quoted(r.source@);
    assert(free_of_newline(",\"state\":"@));
    lemma_concat_free(a7, ",\"state\":"@);
    let a8 = a7 + ",\"state\":"@;
    assert(free_of_newline(event_quoted(source_state_name(r.state))));
    lemma_concat_free(a8, event_quoted(source_state_name(r.state)));
    let a9 = a8 + event_quoted(source_state_name(r.state));
    assert(free_of_newline(",\"last_success_unix_secs\":"@));
    lemma_concat_free(a9, ",\"last_success_unix_secs\":"@);
    let a10 = a9 + ",\"last_success_unix_secs\":"@;
    assert(free_of_newline(json_opt_number(r.last_success_unix_secs)));
    lemma_concat_free(a10, json_opt_number(r.last_success_unix_secs));
    let a11 = a10 + json_opt_number(r.last_success_unix_secs);
    assert(free_of_newline(",\"last_failure_unix_secs\":"@));
    lemma_concat_free(a11, ",\"last_failure_unix_secs\":"@);
    let a12 = a11 + ",\"last_failure_unix_secs\":"@;
    assert(free_of_newline(json_opt_number(r.last_failure_unix_secs)));
    lemma_concat_free(a12, json_opt_number(r.last_failure_unix_secs));
    let a13 = a12 + json_opt_number(r.last_failure_unix_secs);
    assert(free_of_newline(",\"last_decoded_message_unix_secs\":"@));
    lemma_concat_free(a13, ",\"last_decoded_message_unix_secs\":"@);
    let a14 = a13 + ",\"last_decoded_message_unix_secs\":"@;
    assert(free_of_newline(json_opt_number(r.last_decoded_message_unix_secs)));
    lemma_concat_free(a14, json_opt_number(r.last_decoded_message_unix_secs));
    let a15 = a14 + json_opt_number(r.last_decoded_message_unix_secs);
    assert(free_of_newline(",\"last_accepted_alert_unix_secs\":"@));
    lemma_concat_free(a15, ",\"last_accepted_alert_unix_secs\":"@);
    let a16 = a15 + ",\"last_accepted_alert_unix_secs\":"@;
    assert(free_of_newline(json_opt_number(r.last_accepted_alert_unix_secs)));
    lemma_concat_free(a16, json_opt_number(r.last_accepted_alert_unix_secs));
    let a17 = a16 + json_opt_number(r.last_accepted_alert_unix_secs);
    assert(free_of_newline(",\"error\":"@));
    lemma_concat_free(a17, ",\"error\":"@);
    let a18 = a17 + ",\"error\":"@;
    assert(free_of_newline(json_opt_string(r.error)));
    lemma_concat_free(a18, json_opt_string(r.error));
    let a19 = a18 + json_opt_string(r.error);
    assert(free_of_newline(seq!['}']));
    lemma_concat_free(a19, seq!['}']);
    let a20 = a19 + seq!['}'];
    assert(source_status_json_line(r) == a20);
}

/// A system status record is written as exactly one line: its JSON holds no newline,
/// whatever its fields hold.
#[verifier::spinoff_prover]
#[verifier::rlimit(40)]
pub proof fn law_system_status_record_is_one_line(r: SystemStatusRecord)
    ensures
        free_of_newline(system_status_json_line(r)),
{
    reveal_strlit(",\"disk_free_bytes\":");
    reveal_strlit(",\"hostname\":");
    reveal_strlit(",\"network_available\":");
    reveal_strlit(",\"notes\":");
    reveal_strlit(",\"record_type\":");
    reveal_strlit(",\"sentinel_version\":");
    reveal_strlit(",\"timestamp_unix_secs\":");
    reveal_strlit(",\"uptime_secs\":");
    reveal_strlit("{\"schema_version\":");
    reveal_strlit("true");
    reveal_strlit("false");
    lemma_decimal_free(r.schema_version as nat);
    lemma_event_quoted_free(r.record_type@);
    lemma_decimal_free(r.timestamp_unix_secs as nat);
    lemma_event_quoted_free(r.hostname@);
    lemma_event_quoted_free(r.sentinel_version@);
    lemma_opt_number_free(r.uptime_secs);
    lemma_opt_number_free(r.disk_free_bytes);
    lemma_opt_bool_free(r.network_available);
    lemma_event_array_free(strings_view(r.notes@));
    let a0 = "{\"schema_version\":"@;
    assert(free_of_newline(a0));
    assert(free_of_newline(decimal(r.schema_version as nat)));
    lemma_concat_free(a0, decimal(r.schema_version as nat));
    let a1 = a0 + decimal(r.schema_version as nat);
    assert(free_of_newline(",\"record_type\":"@));
    lemma_concat_free(a1, ",\"record_type\":"@);
    let a2 = a1 + ",\"record_type\":"@;
    assert(free_of_newline(event_quoted(r.record_type@)));
    lemma_concat_free(a2, event_quoted(r.record_type@));
    let a3 = a2 + event_quoted(r.record_type@);
    assert(free_of_newline(",\"timestamp_unix_secs\":"@));
    lemma_concat_free(a3, ",\"timestamp_unix_secs\":"@);
    let a4 = a3 + ",\"timestamp_unix_secs\":"@;
    assert(free_of_newline(decimal(r.timestamp_unix_secs as nat)));
    lemma_concat_free(a4, decimal(r.timestamp_unix_secs as nat));
    let a5 = a4 + decimal(r.timestamp_unix_secs as nat);
    assert(free_of_newline(",\"hostname\":"@));
    lemma_concat_free(a5, ",\"hostname\":"@);
    let a6 = a5 + ",\"hostname\":"@;
    assert(free_of_newline(event_quoted(r.hostname@)));
    lemma_concat_free(a6, event_quoted(r.hostname@));
    let a7 = a6 + event_quoted(r.hostname@);
    assert(free_of_newline(",\"sentinel_version\":"@));
    lemma_concat_free(a7, ",\"sentinel_version\":"@);
    let a8 = a7 + ",\"sentinel_version\":"@;
    assert(free_of_newline(event_quoted(r.sentinel_version@)));
    lemma_concat_free(a8, event_quoted(r.sentinel_version@));
    let a9 = a8 + event_quoted(r.sentinel_version@);
    assert(free_of_newline(",\"uptime_secs\":"@));
    lemma_concat_free(a9, ",\"uptime_secs\":"@);
    let a10 = a9 + ",\"uptime_secs\":"@;
    assert(free_of_newline(json_opt_number(r.uptime_secs)));
    lemma_concat_free(a10, json_opt_number(r.uptime_secs));
    let a11 = a10 + json_opt_number(r.uptime_secs);
    assert(free_of_newline(",\"disk_free_bytes\":"@));
    lemma_concat_free(a11, ",\"disk_free_bytes\":"@);
    let a12 = a11 + ",\"disk_free_bytes\":"@;
    assert(free_of_newline(json_opt_number(r.disk_free_bytes)));
    lemma_concat_free(a12, json_opt_number(r.disk_free_bytes));
    let a13 = a12 + json_opt_number(r.disk_free_bytes);
    assert(free_of_newline(",\"network_available\":"@));
    lemma_concat_free(a13, ",\"network_available\":"@);
    let a14 = a13 + ",\"network_available\":"@;
    assert(free_of_newline(json_opt_bool(r.network_available)));
    lemma_concat_free(a14, json_opt_bool(r.network_available));
    let a15 = a14 + json_opt_bool(r.network_available);
    assert(free_of_newline(",\"notes\":"@));
    lemma_concat_free(a15, ",\"notes\":"@);
    let a16 = a15 + ",\"notes\":"@;
    assert(free_of_newline(event_string_array(strings_view(r.notes@))));
    lemma_concat_free(a16, event_string_array(strings_view(r.notes@)));
    let a17 = a16 + event_string_array(strings_view(r.notes@));
    assert(free_of_newline(seq!['}']));
    lemma_concat_free(a17, seq!['}']);
    let a18 = a17 + seq!['}'];
    assert(system_status_json_line(r) == a18);
}

} // verus!
