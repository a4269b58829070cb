//! The runtime alert model, message chunking for radio delivery, and where
//! a decoded SAME alert goes: its channel, the location filter, its text.
use vstd::prelude::*;
use crate::spool::{significance_name, significance_text};
use crate::text::{chars_of, join_strings, join_with, push_str, string_of};

verus! {

/// SAME significance level of an alert.
#[derive(Debug, Clone, Copy, PartialEq, Eq, Structural)]
pub enum AlertSignificance {
    Test,
    Statement,
    Emergency,
    Watch,
    Warning,
    Unknown,
}

/// An alert accepted for delivery.
#[derive(Debug, Clone, PartialEq, Eq)]
pub struct Alert {
    pub event: String,
    pub significance: AlertSignificance,
    pub originator: String,
    pub callsign: String,
    pub is_national: bool,
    pub location_codes: Vec<String>,
    pub location_names: Vec<String>,
    pub message_text: String,
    pub is_test: bool,
}

impl Alert {
    /// Builds an alert; it is a test alert exactly when its significance is
    /// `Test`.
    pub fn new(
        event: String,
        significance: AlertSignificance,
        originator: String,
        callsign: String,
        is_national: bool,
        location_codes: Vec<String>,
        location_names: Vec<String>,
        message_text: String,
    ) -> (a: Self)
        ensures
            a.event == event,
            a.significance == significance,
            a.originator == originator,
            a.callsign == callsign,
            a.is_national == is_national,
            a.location_codes == location_codes,
            a.location_names == location_names,
            a.message_text == message_text,
            a.is_test == (significance == AlertSignificance::Test),
    {
        Alert {
            event,
            significance,
            originator,
            callsign,
            is_national,
            location_codes,
            location_names,
            message_text,
            is_test: significance == AlertSignificance::Test,
        }
    }
}

/// Number of bytes of the UTF-8 encoding of one character.
pub open spec fn utf8_width(c: char) -> nat {
    let u = c as u32;
    if u < 0x80 {
        1
    } else if u < 0x800 {
        2
    } else if u < 0x10000 {
        3
    } else {
        4
    }
}

/// Number of bytes of the UTF-8 encoding of a character sequence.
pub open spec fn utf8_len(s: Seq<char>) -> nat
    decreases s.len(),
{
    if s.len() == 0 {
        0
    } else {
        utf8_len(s.drop_last()) + utf8_width(s.last())
    }
}

/// Chunks of `s` cut at spaces: scanning the spaces at positions `k`,
/// `k + 1`, ..., the chunk that began at `start` is closed at the previous
/// space `current` as soon as a space lies more than `max_len` bytes past
/// `start`; the rest of the text after the last cut is the final chunk.
pub open spec fn chunks_from(s: Seq<char>, max_len: nat, start: int, current: int, k: int) -> Seq<
    Seq<char>,
>
    decreases s.len() - k,
{
    if k < 0 || k >= s.len() {
        if 0 <= start < s.len() {
            seq![s.subrange(start, s.len() as int)]
        } else {
            seq![]
        }
    } else if s[k] == ' ' {
        if 0 <= start <= k && utf8_len(s.subrange(start, k)) > max_len && current > start {
            seq![s.subrange(start, current)] + chunks_from(s, max_len, current, k, k + 1)
        } else {
            chunks_from(s, max_len, start, k, k + 1)
        }
    } else {
        chunks_from(s, max_len, start, current, k + 1)
    }
}

/// The chunks of a message for a radio that carries at most about
/// `max_len` bytes per transmission.
pub open spec fn spec_chunk_message(s: Seq<char>, max_len: nat) -> Seq<Seq<char>> {
    if s.len() == 0 {
        seq![]
    } else {
        chunks_from(s, max_len, 0, 0, 0)
    }
}

/// The views of a vector of strings.
pub open spec fn strings_view(v: Seq<String>) -> Seq<Seq<char>> {
    v.map_values(|x: String| x@)
}

/// Concatenation of a sequence of character sequences.
pub open spec fn concat_all(parts: Seq<Seq<char>>) -> Seq<char>
    decreases parts.len(),
{
    if parts.len() == 0 {
        seq![]
    } else {
        parts[0] + concat_all(parts.drop_first())
    }
}

proof fn lemma_chunks_from_concat(s: Seq<char>, max_len: nat, start: int, current: int, k: int)
    requires
        0 <= start <= current,
        0 <= k,
        current <= k || k >= s.len(),
        start <= s.len(),
        current <= s.len(),
    ensures
        concat_all(chunks_from(s, max_len, start, current, k)) == s.subrange(start, s.len() as int),
    decreases s.len() - k,
{
    if k >= s.len() {
        if start < s.len() {
            let c = seq![s.subrange(start, s.len() as int)];
            assert(c.drop_first() =~= Seq::<Seq<char>>::empty());
            assert(concat_all(c.drop_first()) == Seq::<char>::empty());
            assert(concat_all(c) == c[0] + concat_all(c.drop_first()));
            assert(concat_all(c) =~= s.subrange(start, s.len() as int));
        } else {
            assert(s.subrange(start, s.len() as int) =~= Seq::<char>::empty());
        }
    } else if s[k] == ' ' {
        if 0 <= start <= k && utf8_len(s.subrange(start, k)) > max_len && current > start {
            lemma_chunks_from_concat(s, max_len, current, k, k + 1);
            let rest = chunks_from(s, max_len, current, k, k + 1);
            let c = seq![s.subrange(start, current)] + rest;
            assert(c.drop_first() =~= rest);
            assert(s.subrange(start, current) + s.subrange(current, s.len() as int) =~= s.subrange(
                start,
                s.len() as int,
            ));
        } else {
            lemma_chunks_from_concat(s, max_len, start, k, k + 1);
        }
    } else {
        lemma_chunks_from_concat(s, max_len, start, current, k + 1);
    }
}

proof fn lemma_chunks_from_shape(s: Seq<char>, max_len: nat, start: int, current: int, k: int)
    requires
        0 <= start <= current,
        0 <= k,
        current <= k || k >= s.len(),
        start <= s.len(),
        current <= s.len(),
        start == 0 || (start < s.len() && s[start] == ' '),
        current == start || (current < s.len() && s[current] == ' '),
    ensures
        start < s.len() ==> chunks_from(s, max_len, start, current, k).len() > 0,
        forall|i: int|
            0 <= i < chunks_from(s, max_len, start, current, k).len() ==> {
                let c = #[trigger] chunks_from(s, max_len, start, current, k)[i];
                &&& c.len() > 0
                &&& (start > 0 || i > 0) ==> c[0] == ' '
            },
    decreases s.len() - k,
{
    let r = chunks_from(s, max_len, start, current, k);
    if k >= s.len() {
    } else if s[k] == ' ' {
        if 0 <= start <= k && utf8_len(s.subrange(start, k)) > max_len && current > start {
            lemma_chunks_from_shape(s, max_len, current, k, k + 1);
            let rest = chunks_from(s, max_len, current, k, k + 1);
            assert(r == seq![s.subrange(start, current)] + rest);
            assert forall|i: int| 0 <= i < r.len() implies {
                let c = #[trigger] r[i];
                &&& c.len() > 0
                &&& (start > 0 || i > 0) ==> c[0] == ' '
            } by {
                if i > 0 {
                    assert(r[i] == rest[i - 1]);
                }
            }
        } else {
            lemma_chunks_from_shape(s, max_len, start, k, k + 1);
        }
    } else {
        lemma_chunks_from_shape(s, max_len, start, current, k + 1);
    }
}

/// The chunks of a message are never empty, there are none exactly when the
/// message is empty, and every chunk but the first begins with the space at
/// which the message was cut.
pub proof fn law_chunks_cut_only_before_spaces(message: Seq<char>, max_len: nat)
    ensures
        spec_chunk_message(message, max_len).len() == 0 <==> message.len() == 0,
        forall|i: int|
            0 <= i < spec_chunk_message(message, max_len).len() ==> {
                let c = #[trigger] spec_chunk_message(message, max_len)[i];
                &&& c.len() > 0
                &&& i > 0 ==> c[0] == ' '
            },
{
    if message.len() > 0 {
        lemma_chunks_from_shape(message, max_len, 0, 0, 0);
    }
}

/// Chunking loses nothing: the chunks of a message, concatenated in order,
/// are the message.
pub proof fn law_chunks_rebuild_message(message: Seq<char>, max_len: nat)
    ensures
        concat_all(spec_chunk_message(message, max_len)) == message,
{
    if message.len() > 0 {
        lemma_chunks_from_concat(message, max_len, 0, 0, 0);
        assert(message.subrange(0, message.len() as int) =~= message);
    }
}

fn width_of(c: char) -> (w: u128)
    ensures
        w == utf8_width(c),
        1 <= w <= 4,
{
    let u = c as u32;
    if u < 0x80 {
        1
    } else if u < 0x800 {
        2
    } else if u < 0x10000 {
        3
    } else {
        4
    }
}

proof fn lemma_utf8_len_extend(s: Seq<char>, a: int, k: int)
    requires
        0 <= a <= k < s.len(),
    ensures
        utf8_len(s.subrange(a, k + 1)) == utf8_len(s.subrange(a, k)) + utf8_width(s[k]),
{
    assert(s.subrange(a, k + 1).drop_last() =~= s.subrange(a, k));
}

/// Splits a message into chunks at spaces so that each chunk but the last
/// holds at most `max_len` bytes where the spaces allow it; the chunks,
/// concatenated, are the message.
pub fn chunk_message(message: &str, max_len: usize) -> (chunks: Vec<String>)
    ensures
        strings_view(chunks@) == spec_chunk_message(message@, max_len as nat),
        forall|i: int| 0 <= i < chunks@.len() ==> (#[trigger] chunks@[i])@.len() > 0,
{
    let cs = chars_of(message);
    let n = cs.len();
    let mut chunks: Vec<String> = Vec::new();
    if n == 0 {
        assert(strings_view(chunks@) =~= seq![]);
        return chunks;
    }
    let ghost s = message@;
    let mut start: usize = 0;
    let mut current: usize = 0;
    let mut k: usize = 0;
    let mut dist: u128 = 0;
    let mut cur_dist: u128 = 0;
    assert(s.subrange(0, 0).len() == 0);
    while k < n
        invariant
            cs@ == s,
            n == s.len(),
            start <= current <= k <= n,
            dist == utf8_len(s.subrange(start as int, k as int)),
            cur_dist == utf8_len(s.subrange(current as int, k as int)),
            dist <= 4 * (k - start),
            cur_dist <= 4 * (k - current),
            k <= usize::MAX,
            spec_chunk_message(s, max_len as nat) == strings_view(chunks@) + chunks_from(
                s,
                max_len as nat,
                start as int,
                current as int,
                k as int,
            ),
            forall|i: int| 0 <= i < chunks@.len() ==> (#[trigger] chunks@[i])@.len() > 0,
        decreases n - k,
    {
        let c = cs[k];
        if c == ' ' {
            if dist > max_len as u128 && current > start {
                let piece = string_of(&cs, start, current);
                proof {
                    assert(strings_view(chunks@.push(piece)) =~= strings_view(chunks@).push(
                        piece@,
                    ));
                    assert(strings_view(chunks@) + seq![piece@] =~= strings_view(
                        chunks@.push(piece),
                    ));
                }
                chunks.push(piece);
                start = current;
                dist = cur_dist;
            }
            current = k;
            cur_dist = 0;
            assert(s.subrange(k as int, k as int).len() == 0);
        }
        let w = width_of(c);
        proof {
            lemma_utf8_len_extend(s, start as int, k as int);
            lemma_utf8_len_extend(s, current as int, k as int);
        }
        dist = dist + w;
        cur_dist = cur_dist + w;
        k = k + 1;
    }
    if start < n {
        let piece = string_of(&cs, start, n);
        proof {
            assert(strings_view(chunks@.push(piece)) =~= strings_view(chunks@) + seq![piece@]);
        }
        chunks.push(piece);
    } else {
        assert(strings_view(chunks@) + seq![] =~= strings_view(chunks@));
    }
    chunks
}

/// Value of the test channel option meaning that test alerts are ignored.
pub const NO_TEST_CHANNEL: u32 = 10;

/// The channel an alert is sent on: test alerts go to the test channel, or
/// nowhere when there is none (`NO_TEST_CHANNEL`); others go to the alert
/// channel.
pub open spec fn send_channel_of(s: AlertSignificance, alert_channel: u32, test_channel: u32) -> Option<u32> {
    if s == AlertSignificance::Test {
        if test_channel == NO_TEST_CHANNEL {
            None
        } else {
            Some(test_channel)
        }
    } else {
        Some(alert_channel)
    }
}

/// The channel an alert is sent on, if any.
pub fn alert_send_channel(significance: AlertSignificance, alert_channel: u32, test_channel: u32) -> (r: Option<u32>)
    ensures
        r == send_channel_of(significance, alert_channel, test_channel),
{
    if significance == AlertSignificance::Test {
        if test_channel == NO_TEST_CHANNEL {
            None
        } else {
            Some(test_channel)
        }
    } else {
        Some(alert_channel)
    }
}

/// Whether a location filter lets an alert through: a national alert always
/// passes; else one of its location codes must be among the filter's.
pub open spec fn filter_allows(is_national: bool, locations: Seq<Seq<char>>, codes: Seq<Seq<char>>) -> bool {
    is_national || exists|i: int| 0 <= i < codes.len() && locations.contains(#[trigger] codes[i])
}

/// Whether `value` is among `values`.
fn contains_string(values: &Vec<String>, value: &String) -> (r: bool)
    ensures
        r == values@.map_values(|x: String| x@).contains(value@),
{
    let ghost view = values@.map_values(|x: String| x@);
    let mut i: usize = 0;
    while i < values.len()
        invariant
            i <= values@.len(),
            view == values@.map_values(|x: String| x@),
            forall|k: int| 0 <= k < i ==> view[k] != value@,
        decreases values@.len() - i,
    {
        if values[i] == *value {
            assert(view[i as int] == value@);
            return true;
        }
        i = i + 1;
    }
    false
}

/// Whether the location filter `locations` lets an alert with `codes`
/// through.
pub fn location_filter_allows(is_national: bool, locations: &Vec<String>, codes: &Vec<String>) -> (r: bool)
    ensures
        r == filter_allows(
            is_national,
            locations@.map_values(|x: String| x@),
            codes@.map_values(|x: String| x@),
        ),
{
    if is_national {
        return true;
    }
    let ghost cv = codes@.map_values(|x: String| x@);
    let mut i: usize = 0;
    while i < codes.len()
        invariant
            i <= codes@.len(),
            cv == codes@.map_values(|x: String| x@),
            forall|k: int| 0 <= k < i ==> !locations@.map_values(|x: String| x@).contains(#[trigger] cv[k]),
        decreases codes@.len() - i,
    {
        if contains_string(locations, &codes[i]) {
            assert(locations@.map_values(|x: String| x@).contains(cv[i as int]));
            return true;
        }
        i = i + 1;
    }
    false
}

/// Whether the location filter is consulted for an alert: only for a
/// regional alert that has location codes, when a filter is configured.
pub open spec fn filter_applies(is_national: bool, locations: Seq<Seq<char>>, codes: Seq<Seq<char>>) -> bool {
    !is_national && locations.len() > 0 && codes.len() > 0
}

/// Whether an alert is kept by the location filter `locations`: alerts the
/// filter is not consulted for are kept, the others when the filter lets
/// them through.
pub fn location_filter_accepts(is_national: bool, locations: &Vec<String>, codes: &Vec<String>) -> (r: bool)
    ensures
        r == (!filter_applies(
            is_national,
            locations@.map_values(|x: String| x@),
            codes@.map_values(|x: String| x@),
        ) || filter_allows(
            is_national,
            locations@.map_values(|x: String| x@),
            codes@.map_values(|x: String| x@),
        )),
{
    if is_national || locations.len() == 0 || codes.len() == 0 {
        return true;
    }
    location_filter_allows(is_national, locations, codes)
}

/// What the text sent for a SAME alert is made of.
pub struct AlertMessageParts<'a> {
    pub event: &'a str,
    pub significance: AlertSignificance,
    pub originator: &'a str,
    pub callsign: &'a str,
    pub is_national: bool,
    pub location_names: &'a Vec<String>,
}

/// The text sent for a SAME alert: the event, its significance level, who
/// issued it (originator and callsign), and where: the whole country for a
/// national alert, else the location names separated by commas, if any.
pub open spec fn alert_message_text(
    event: Seq<char>,
    significance: AlertSignificance,
    originator: Seq<char>,
    callsign: Seq<char>,
    is_national: bool,
    location_names: Seq<Seq<char>>,
) -> Seq<char> {
    event + " ("@ + significance_name(significance) + ") from "@ + originator + " ("@ + callsign
        + ")"@ + if is_national {
        " for the entire United States"@
    } else if location_names.len() == 0 {
        seq![]
    } else {
        " for "@ + join_with(location_names, ", "@)
    }
}

/// The text sent for a SAME alert (see `alert_message_text`).
pub fn format_alert_message(parts: AlertMessageParts) -> (m: String)
    ensures
        m@ == alert_message_text(
            parts.event@,
            parts.significance,
            parts.originator@,
            parts.callsign@,
            parts.is_national,
            parts.location_names@.map_values(|x: String| x@),
        ),
{
    let mut m = String::new();
    push_str(&mut m, parts.event);
    push_str(&mut m, " (");
    push_str(&mut m, significance_text(parts.significance));
    push_str(&mut m, ") from ");
    push_str(&mut m, parts.originator);
    push_str(&mut m, " (");
    push_str(&mut m, parts.callsign);
    push_str(&mut m, ")");
    if parts.is_national {
        push_str(&mut m, " for the entire United States");
    } else if parts.location_names.len() > 0 {
        push_str(&mut m, " for ");
        let names = join_strings(parts.location_names, ", ");
        push_str(&mut m, names.as_str());
    } else {
        proof {
            assert(parts.location_names@.map_values(|x: String| x@).len() == 0);
        }
    }
    m
}

} // verus!
