//! Failure spool records: one JSON line per failed best-effort delivery.
use vstd::prelude::*;
use crate::alert::{Alert, AlertSignificance, strings_view};
use crate::text::{
    chars_of, decimal, hex_fixed, is_control, join_with, lemma_join_push, push_char, push_str,
    write_decimal, write_hex_fixed,
};

verus! {

/// The system clock's time type.
#[verifier::external_type_specification]
#[verifier::external_body]
pub struct ExSystemTime(std::time::SystemTime);

/// The error of a time that lies before another.
#[verifier::external_type_specification]
#[verifier::external_body]
pub struct ExSystemTimeError(std::time::SystemTimeError);

/// The current time of the system clock (`SystemTime::now`). Nothing is
/// promised of it: it depends on the clock.
#[verifier::external_body]
fn system_time_now() -> std::time::SystemTime {
    std::time::SystemTime::now()
}

/// How long after the Unix epoch `t` is (`SystemTime::duration_since` with
/// `UNIX_EPOCH`), or an error when `t` is before it. Nothing is promised of
/// the value, which depends on the clock reading `t`.
#[verifier::external_body]
fn since_unix_epoch(t: &std::time::SystemTime) -> Result<std::time::Duration, std::time::SystemTimeError> {
    t.duration_since(std::time::UNIX_EPOCH)
}

/// The whole seconds of a duration (`Duration::as_secs`). Nothing is
/// promised of the value: the duration is opaque here.
#[verifier::external_body]
fn whole_seconds(d: &std::time::Duration) -> u64 {
    d.as_secs()
}

/// Seconds since the Unix epoch, read from the system clock; 0 when the
/// clock reads a time before the epoch. Nothing is promised of the value:
/// it depends on the clock.
pub(crate) fn unix_timestamp_secs() -> u64 {
    let now = system_time_now();
    match since_unix_epoch(&now) {
        Ok(d) => whole_seconds(&d),
        Err(_) => 0,
    }
}

/// A copy of a vector of strings (`Vec::<String>::clone`).
pub fn clone_strings(v: &Vec<String>) -> (r: Vec<String>)
    ensures
        r@ == v@,
{
    let mut r: Vec<String> = Vec::new();
    let mut i: usize = 0;
    while i < v.len()
        invariant
            i <= v@.len(),
            r@ == v@.take(i as int),
        decreases v@.len() - i,
    {
        r.push(v[i].clone());
        assert(r@ =~= v@.take(i + 1));
        i = i + 1;
    }
    assert(r@ =~= v@);
    r
}

/// A sink for failed best-effort deliveries.
///
/// `spool_attempts` is the sequence of all records handed to the spooler so
/// far, whether or not storing them succeeded.
///
/// The bodies given to these ghost views are only defaults for
/// implementations that keep no such history: nothing verified relies on them.
pub trait Spooler {
    closed spec fn spool_attempts(&self) -> Seq<SpoolRecord> {
        Seq::empty()
    }

    fn spool(&mut self, record: &SpoolRecord) -> (r: Result<(), String>)
        ensures
            final(self).spool_attempts() == old(self).spool_attempts().push(*record),
    ;
}

/// A failed best-effort delivery, with the alert that failed.
#[derive(Debug, Clone, PartialEq, Eq)]
pub struct SpoolRecord {
    pub timestamp_unix_secs: u64,
    pub sender: String,
    pub channel: u32,
    pub error: String,
    pub event: String,
    pub significance: AlertSignificance,
    pub originator: String,
    pub callsign: String,
    pub is_national: bool,
    pub is_test: bool,
    pub location_codes: Vec<String>,
    pub location_names: Vec<String>,
    pub message_text: String,
}

/// `r` records the failure of sender `sender` with error `error` to deliver
/// `alert` on `channel` (at the time `r` carries).
pub open spec fn spool_record_for(
    r: SpoolRecord,
    sender: Seq<char>,
    alert: Alert,
    channel: u32,
    error: Seq<char>,
) -> bool {
    &&& r.sender@ == sender
    &&& r.channel == channel
    &&& r.error@ == error
    &&& r.event == alert.event
    &&& r.significance == alert.significance
    &&& r.originator == alert.originator
    &&& r.callsign == alert.callsign
    &&& r.is_national == alert.is_national
    &&& r.is_test == alert.is_test
    &&& r.location_codes@ == alert.location_codes@
    &&& r.location_names@ == alert.location_names@
    &&& r.message_text == alert.message_text
}

/// `a` is the alert that `r` failed to deliver: the record's alert fields.
pub open spec fn alert_of_record(a: Alert, r: SpoolRecord) -> bool {
    &&& a.event == r.event
    &&& a.significance == r.significance
    &&& a.originator == r.originator
    &&& a.callsign == r.callsign
    &&& a.is_national == r.is_national
    &&& a.is_test == r.is_test
    &&& a.location_codes@ == r.location_codes@
    &&& a.location_names@ == r.location_names@
    &&& a.message_text == r.message_text
}

/// A spool record of a failed delivery gives back the very alert that
/// failed: every field of the replayed alert is that of the original one.
pub proof fn law_spooled_alert_round_trips(
    r: SpoolRecord,
    sender: Seq<char>,
    alert: Alert,
    channel: u32,
    error: Seq<char>,
    replayed: Alert,
)
    requires
        spool_record_for(r, sender, alert, channel, error),
        alert_of_record(replayed, r),
    ensures
        replayed.event == alert.event,
        replayed.significance == alert.significance,
        replayed.originator == alert.originator,
        replayed.callsign == alert.callsign,
        replayed.is_national == alert.is_national,
        replayed.is_test == alert.is_test,
        replayed.location_codes@ == alert.location_codes@,
        replayed.location_names@ == alert.location_names@,
        replayed.message_text == alert.message_text,
{
}

impl SpoolRecord {
    /// The record of a failed delivery, stamped with the current time.
    pub fn from_failure(sender: &str, alert: &Alert, channel: u32, error: &str) -> (r: Self)
        ensures
            spool_record_for(r, sender@, *alert, channel, error@),
    {
        Self::from_failure_at(sender, alert, channel, error, unix_timestamp_secs())
    }

    /// The record of a failed delivery at the given time.
    pub fn from_failure_at(
        sender: &str,
        alert: &Alert,
        channel: u32,
        error: &str,
        timestamp_unix_secs: u64,
    ) -> (r: Self)
        ensures
            spool_record_for(r, sender@, *alert, channel, error@),
            r.timestamp_unix_secs == timestamp_unix_secs,
    {
        Self {
            timestamp_unix_secs,
            sender: sender.to_owned(),
            channel,
            error: error.to_owned(),
            event: alert.event.clone(),
            significance: alert.significance,
            originator: alert.originator.clone(),
            callsign: alert.callsign.clone(),
            is_national: alert.is_national,
            is_test: alert.is_test,
            location_codes: clone_strings(&alert.location_codes),
            location_names: clone_strings(&alert.location_names),
            message_text: alert.message_text.clone(),
        }
    }

    /// The alert that this record failed to deliver.
    pub fn to_alert(&self) -> (a: Alert)
        ensures
            alert_of_record(a, *self),
    {
        Alert {
            event: self.event.clone(),
            significance: self.significance,
            originator: self.originator.clone(),
            callsign: self.callsign.clone(),
            is_national: self.is_national,
            location_codes: clone_strings(&self.location_codes),
            location_names: clone_strings(&self.location_names),
            message_text: self.message_text.clone(),
            is_test: self.is_test,
        }
    }

    /// The record as one JSON line (no trailing newline).
    pub fn to_json_line(&self) -> (s: String)
        ensures
            s@ == spool_json_line(*self),
    {
        let mut out = String::new();
        push_str(&mut out, "{\"timestamp_unix_secs\":");
        write_decimal(&mut out, self.timestamp_unix_secs);
        push_str(&mut out, ",\"sender\":");
        write_quoted(&mut out, self.sender.as_str());
        push_str(&mut out, ",\"channel\":");
        write_decimal(&mut out, self.channel as u64);
        push_str(&mut out, ",\"error\":");
        write_quoted(&mut out, self.error.as_str());
        push_str(&mut out, ",\"event\":");
        write_quoted(&mut out, self.event.as_str());
        push_str(&mut out, ",\"significance\":");
        push_char(&mut out, '"');
        push_str(&mut out, significance_text(self.significance));
        push_char(&mut out, '"');
        push_str(&mut out, ",\"originator\":");
        write_quoted(&mut out, self.originator.as_str());
        push_str(&mut out, ",\"callsign\":");
        write_quoted(&mut out, self.callsign.as_str());
        push_str(&mut out, ",\"is_national\":");
        push_str(&mut out, bool_str(self.is_national));
        push_str(&mut out, ",\"is_test\":");
        push_str(&mut out, bool_str(self.is_test));
        push_str(&mut out, ",\"location_codes\":");
        write_string_array(&mut out, &self.location_codes);
        push_str(&mut out, ",\"location_names\":");
        write_string_array(&mut out, &self.location_names);
        push_str(&mut out, ",\"message_text\":");
        write_quoted(&mut out, self.message_text.as_str());
        push_char(&mut out, '}');
        out
    }
}

/// The JSON escape of one character: `"` `\` and the newline, carriage
/// return and tab characters by their two-character escapes, other control
/// characters as `\u` and four lowercase hex digits, anything else as is.
pub open spec fn json_escape_char(c: char) -> Seq<char> {
    if c == '"' {
        seq!['\\', '"']
    } else if c == '\\' {
        seq!['\\', '\\']
    } else if c == '\n' {
        seq!['\\', 'n']
    } else if c == '\r' {
        seq!['\\', 'r']
    } else if c == '\t' {
        seq!['\\', 't']
    } else if is_control(c) {
        seq!['\\', 'u'] + hex_fixed(c as u32 as nat, 4)
    } else {
        seq![c]
    }
}

/// The JSON escape of a character sequence, character by character.
pub open spec fn json_escaped(s: Seq<char>) -> Seq<char>
    decreases s.len(),
{
    if s.len() == 0 {
        seq![]
    } else {
        json_escaped(s.drop_last()) + json_escape_char(s.last())
    }
}

/// A JSON string literal holding `s`.
pub open spec fn quoted(s: Seq<char>) -> Seq<char> {
    seq!['"'] + json_escaped(s) + seq!['"']
}

/// A JSON array of string literals.
pub open spec fn json_string_array(values: Seq<Seq<char>>) -> Seq<char> {
    seq!['['] + join_with(values.map_values(|v: Seq<char>| quoted(v)), seq![',']) + seq![']']
}

/// `true` or `false`.
pub open spec fn bool_text(b: bool) -> Seq<char> {
    if b {
        "true"@
    } else {
        "false"@
    }
}

/// The name of a significance level (its `Debug` form).
pub open spec fn significance_name(s: AlertSignificance) -> Seq<char> {
    match s {
        AlertSignificance::Test => "Test"@,
        AlertSignificance::Statement => "Statement"@,
        AlertSignificance::Emergency => "Emergency"@,
        AlertSignificance::Watch => "Watch"@,
        AlertSignificance::Warning => "Warning"@,
        AlertSignificance::Unknown => "Unknown"@,
    }
}

/// The JSON line of a spool record: its fields in declaration order.
pub open spec fn spool_json_line(r: SpoolRecord) -> Seq<char> {
    "{\"timestamp_unix_secs\":"@ + decimal(r.timestamp_unix_secs as nat) + ",\"sender\":"@
        + quoted(r.sender@) + ",\"channel\":"@ + decimal(r.channel as nat) + ",\"error\":"@
        + quoted(r.error@) + ",\"event\":"@ + quoted(r.event@) + ",\"significance\":"@ + seq![
        '"',
    ] + significance_name(r.significance) + seq!['"'] + ",\"originator\":"@ + quoted(
        r.originator@,
    ) + ",\"callsign\":"@ + quoted(r.callsign@) + ",\"is_national\":"@ + bool_text(
        r.is_national,
    ) + ",\"is_test\":"@ + bool_text(r.is_test) + ",\"location_codes\":"@ + json_string_array(
        strings_view(r.location_codes@),
    ) + ",\"location_names\":"@ + json_string_array(strings_view(r.location_names@))
        + ",\"message_text\":"@ + quoted(r.message_text@) + seq!['}']
}

/// Whether `s` holds no newline.
pub open spec fn free_of_newline(s: Seq<char>) -> bool {
    forall|i: int| 0 <= i < s.len() ==> s[i] != '\n'
}

pub(crate) proof fn lemma_concat_free(a: Seq<char>, b: Seq<char>)
    requires
        free_of_newline(a),
        free_of_newline(b),
    ensures
        free_of_newline(a + b),
{
    assert forall|i: int| 0 <= i < (a + b).len() implies (a + b)[i] != '\n' by {
        if i < a.len() {
            assert((a + b)[i] == a[i]);
        } else {
            assert((a + b)[i] == b[i - a.len()]);
        }
    }
}

pub(crate) proof fn lemma_decimal_free(n: nat)
    ensures
        free_of_newline(decimal(n)),
    decreases n,
{
    if n >= 10 {
        lemma_decimal_free(n / 10);
        lemma_concat_free(decimal(n / 10), seq![crate::text::digit_char(n % 10)]);
    }
}

pub(crate) proof fn lemma_hex_free(n: nat, width: nat)
    ensures
        free_of_newline(hex_fixed(n, width)),
    decreases width,
{
    if width > 0 {
        lemma_hex_free(n / 16, (width - 1) as nat);
        lemma_concat_free(hex_fixed(n / 16, (width - 1) as nat), seq![crate::text::hex_digit_char(n % 16)]);
    }
}

proof fn lemma_escaped_free(s: Seq<char>)
    ensures
        free_of_newline(json_escaped(s)),
    decreases s.len(),
{
    if s.len() > 0 {
        lemma_escaped_free(s.drop_last());
        let c = s.last();
        if is_control(c) && c != '\n' && c != '\r' && c != '\t' {
            lemma_hex_free(c as u32 as nat, 4);
            lemma_concat_free(seq!['\\', 'u'], hex_fixed(c as u32 as nat, 4));
        }
        lemma_concat_free(json_escaped(s.drop_last()), json_escape_char(c));
    }
}

pub(crate) proof fn lemma_join_free(parts: Seq<Seq<char>>, sep: Seq<char>)
    requires
        forall|k: int| 0 <= k < parts.len() ==> free_of_newline(#[trigger] parts[k]),
        free_of_newline(sep),
    ensures
        free_of_newline(join_with(parts, sep)),
    decreases parts.len(),
{
    if parts.len() > 1 {
        let rest = parts.drop_first();
        assert forall|k: int| 0 <= k < rest.len() implies free_of_newline(#[trigger] rest[k]) by {
            assert(rest[k] == parts[k + 1]);
        }
        lemma_join_free(rest, sep);
        lemma_concat_free(parts[0], sep);
        lemma_concat_free(parts[0] + sep, join_with(rest, sep));
    } else if parts.len() == 1 {
        assert(free_of_newline(parts[0]));
    }
}

pub(crate) proof fn lemma_quoted_free(s: Seq<char>)
    ensures
        free_of_newline(quoted(s)),
{
    lemma_escaped_free(s);
    lemma_concat_free(seq!['"'], json_escaped(s));
    lemma_concat_free(seq!['"'] + json_escaped(s), seq!['"']);
}

pub(crate) proof fn lemma_array_free(values: Seq<Seq<char>>)
    ensures
        free_of_newline(json_string_array(values)),
{
    let parts = values.map_values(|v: Seq<char>| quoted(v));
    assert forall|k: int| 0 <= k < parts.len() implies free_of_newline(#[trigger] parts[k]) by {
        lemma_quoted_free(values[k]);
    }
    lemma_join_free(parts, seq![',']);
    lemma_concat_free(seq!['['], join_with(parts, seq![',']));
    lemma_concat_free(seq!['['] + join_with(parts, seq![',']), seq![']']);
}

/// A spool record is written as exactly one line: its JSON holds no
/// newline, whatever its fields hold.
#[verifier::spinoff_prover]
#[verifier::rlimit(40)]
pub proof fn law_spool_record_is_one_line(r: SpoolRecord)
    ensures
        free_of_newline(spool_json_line(r)),
{
    reveal_strlit("{\"timestamp_unix_secs\":");
    reveal_strlit(",\"sender\":");
    reveal_strlit(",\"channel\":");
    reveal_strlit(",\"error\":");
    reveal_strlit(",\"event\":");
    reveal_strlit(",\"significance\":");
    reveal_strlit(",\"originator\":");
    reveal_strlit(",\"callsign\":");
    reveal_strlit(",\"is_national\":");
    reveal_strlit(",\"is_test\":");
    reveal_strlit(",\"location_codes\":");
    reveal_strlit(",\"location_names\":");
    reveal_strlit(",\"message_text\":");
    reveal_strlit("true");
    reveal_strlit("false");
    reveal_strlit("Test");
    reveal_strlit("Statement");
    reveal_strlit("Emergency");
    reveal_strlit("Watch");
    reveal_strlit("Warning");
    reveal_strlit("Unknown");
    lemma_decimal_free(r.timestamp_unix_secs as nat);
    lemma_decimal_free(r.channel as nat);
    lemma_quoted_free(r.sender@);
    lemma_quoted_free(r.error@);
    lemma_quoted_free(r.event@);
    lemma_quoted_free(r.originator@);
    lemma_quoted_free(r.callsign@);
    lemma_quoted_free(r.message_text@);
    lemma_array_free(strings_view(r.location_codes@));
    lemma_array_free(strings_view(r.location_names@));
    let line = spool_json_line(r);
    assert forall|i: int| 0 <= i < line.len() implies line[i] != '\n' by {
        let a1 = "{\"timestamp_unix_secs\":"@ + decimal(r.timestamp_unix_secs as nat);
        lemma_concat_free("{\"timestamp_unix_secs\":"@, decimal(r.timestamp_unix_secs as nat));
        let a2 = a1 + ",\"sender\":"@;
        lemma_concat_free(a1, ",\"sender\":"@);
        let a3 = a2 + quoted(r.sender@);
        lemma_concat_free(a2, quoted(r.sender@));
        let a4 = a3 + ",\"channel\":"@;
        lemma_concat_free(a3, ",\"channel\":"@);
        let a5 = a4 + decimal(r.channel as nat);
        lemma_concat_free(a4, decimal(r.channel as nat));
        let a6 = a5 + ",\"error\":"@;
        lemma_concat_free(a5, ",\"error\":"@);
        let a7 = a6 + quoted(r.error@);
        lemma_concat_free(a6, quoted(r.error@));
        let a8 = a7 + ",\"event\":"@;
        lemma_concat_free(a7, ",\"event\":"@);
        let a9 = a8 + quoted(r.event@);
        lemma_concat_free(a8, quoted(r.event@));
        let a10 = a9 + ",\"significance\":"@;
        lemma_concat_free(a9, ",\"significance\":"@);
        let a11 = a10 + seq!['"'];
        lemma_concat_free(a10, seq!['"']);
        let a12 = a11 + significance_name(r.significance);
        lemma_concat_free(a11, significance_name(r.significance));
        let a13 = a12 + seq!['"'];
        lemma_concat_free(a12, seq!['"']);
        let a14 = a13 + ",\"originator\":"@;
        lemma_concat_free(a13, ",\"originator\":"@);
        let a15 = a14 + quoted(r.originator@);
        lemma_concat_free(a14, quoted(r.originator@));
        let a16 = a15 + ",\"callsign\":"@;
        lemma_concat_free(a15, ",\"callsign\":"@);
        let a17 = a16 + quoted(r.callsign@);
        lemma_concat_free(a16, quoted(r.callsign@));
        let a18 = a17 + ",\"is_national\":"@;
        lemma_concat_free(a17, ",\"is_national\":"@);
        let a19 = a18 + bool_text(r.is_national);
        lemma_concat_free(a18, bool_text(r.is_national));
        let a20 = a19 + ",\"is_test\":"@;
        lemma_concat_free(a19, ",\"is_test\":"@);
        let a21 = a20 + bool_text(r.is_test);
        lemma_concat_free(a20, bool_text(r.is_test));
        let a22 = a21 + ",\"location_codes\":"@;
        lemma_concat_free(a21, ",\"location_codes\":"@);
        let a23 = a22 + json_string_array(strings_view(r.location_codes@));
        lemma_concat_free(a22, json_string_array(strings_view(r.location_codes@)));
        let a24 = a23 + ",\"location_names\":"@;
        lemma_concat_free(a23, ",\"location_names\":"@);
        let a25 = a24 + json_string_array(strings_view(r.location_names@));
        lemma_concat_free(a24, json_string_array(strings_view(r.location_names@)));
        let a26 = a25 + ",\"message_text\":"@;
        lemma_concat_free(a25, ",\"message_text\":"@);
        let a27 = a26 + quoted(r.message_text@);
        lemma_concat_free(a26, quoted(r.message_text@));
        let a28 = a27 + seq!['}'];
        lemma_concat_free(a27, seq!['}']);
        assert(line == a28);
    }
}

/// The name of a significance level.
pub fn significance_text(s: AlertSignificance) -> (t: &'static str)
    ensures
        t@ == significance_name(s),
{
    match s {
        AlertSignificance::Test => "Test",
        AlertSignificance::Statement => "Statement",
        AlertSignificance::Emergency => "Emergency",
        AlertSignificance::Watch => "Watch",
        AlertSignificance::Warning => "Warning",
        AlertSignificance::Unknown => "Unknown",
    }
}

pub(crate) fn bool_str(b: bool) -> (t: &'static str)
    ensures
        t@ == bool_text(b),
{
    if b {
        "true"
    } else {
        "false"
    }
}

/// Appends the JSON escape of `value`.
pub fn write_json_escaped(out: &mut String, value: &str)
    ensures
        final(out)@ == old(out)@ + json_escaped(value@),
{
    let cs = chars_of(value);
    let ghost start = out@;
    let mut i: usize = 0;
    while i < cs.len()
        invariant
            cs@ == value@,
            i <= cs@.len(),
            out@ == start + json_escaped(cs@.take(i as int)),
        decreases cs@.len() - i,
    {
        let c = cs[i];
        let u = c as u32;
        if c == '"' {
            push_char(out, '\\');
            push_char(out, '"');
        } else if c == '\\' {
            push_char(out, '\\');
            push_char(out, '\\');
        } else if c == '\n' {
            push_char(out, '\\');
            push_char(out, 'n');
        } else if c == '\r' {
            push_char(out, '\\');
            push_char(out, 'r');
        } else if c == '\t' {
            push_char(out, '\\');
            push_char(out, 't');
        } else if u <= 0x1F || (0x7F <= u && u <= 0x9F) {
            push_char(out, '\\');
            push_char(out, 'u');
            write_hex_fixed(out, u as u64, 4);
        } else {
            push_char(out, c);
        }
        proof {
            assert(cs@.take(i + 1).drop_last() =~= cs@.take(i as int));
            assert(cs@.take(i + 1).last() == c);
        }
        i = i + 1;
    }
    assert(cs@.take(cs@.len() as int) =~= cs@);
}

/// The JSON escape of `value` (see `json_escape_char`).
pub fn json_escape(value: &str) -> (r: String)
    ensures
        r@ == json_escaped(value@),
{
    let mut r = String::new();
    write_json_escaped(&mut r, value);
    r
}

/// Appends a JSON string literal holding `value`.
pub fn write_quoted(out: &mut String, value: &str)
    ensures
        final(out)@ == old(out)@ + quoted(value@),
{
    let ghost start = out@;
    push_char(out, '"');
    write_json_escaped(out, value);
    push_char(out, '"');
    assert(out@ =~= start + quoted(value@));
}

/// Appends a JSON array of string literals.
pub fn write_string_array(out: &mut String, values: &Vec<String>)
    ensures
        final(out)@ == old(out)@ + json_string_array(strings_view(values@)),
{
    let ghost start = out@;
    let ghost parts = strings_view(values@).map_values(|v: Seq<char>| quoted(v));
    push_char(out, '[');
    let mut i: usize = 0;
    while i < values.len()
        invariant
            i <= values@.len(),
            parts == strings_view(values@).map_values(|v: Seq<char>| quoted(v)),
            out@ == start + seq!['['] + join_with(parts.take(i as int), seq![',']),
        decreases values@.len() - i,
    {
        let ghost before = out@;
        if i > 0 {
            push_char(out, ',');
        }
        write_quoted(out, values[i].as_str());
        proof {
            assert(parts[i as int] == quoted(values@[i as int]@));
            assert(parts.take(i + 1) =~= parts.take(i as int).push(parts[i as int]));
            if i > 0 {
                lemma_join_push(parts.take(i as int), parts[i as int], seq![',']);
            } else {
                assert(parts.take(1) =~= seq![parts[0]]);
            }
            assert(out@ =~= start + seq!['['] + join_with(parts.take(i + 1), seq![',']));
        }
        i = i + 1;
    }
    push_char(out, ']');
    assert(parts.take(values@.len() as int) =~= parts);
    assert(out@ =~= start + json_string_array(strings_view(values@)));
}

} // verus!
