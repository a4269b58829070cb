//! Alert ids of event records: a prefix, the timestamp, the channel and a
//! 64-bit hash of the alert's fields in lowercase hexadecimal.
use vstd::prelude::*;
use std::collections::hash_map::DefaultHasher;
use crate::text::{decimal, hex_fixed, push_str, write_decimal, write_hex_fixed};

verus! {

/// Feeds a string to the hasher (`<str as Hash>::hash`). Nothing is
/// promised of the hasher's new state.
#[verifier::external_body]
pub(crate) fn hash_str(state: &mut DefaultHasher, s: &str) {
    std::hash::Hash::hash(s, state);
}

/// Feeds a list of strings to the hasher (`<Vec<String> as Hash>::hash`).
/// Nothing is promised of the hasher's new state.
#[verifier::external_body]
pub(crate) fn hash_strings(state: &mut DefaultHasher, v: &Vec<String>) {
    std::hash::Hash::hash(v, state);
}

/// Feeds a boolean to the hasher (`<bool as Hash>::hash`). Nothing is
/// promised of the hasher's new state.
#[verifier::external_body]
pub(crate) fn hash_bool(state: &mut DefaultHasher, b: bool) {
    std::hash::Hash::hash(&b, state);
}

/// Feeds a `u32` to the hasher (`<u32 as Hash>::hash`). Nothing is promised
/// of the hasher's new state.
#[verifier::external_body]
pub(crate) fn hash_u32(state: &mut DefaultHasher, n: u32) {
    std::hash::Hash::hash(&n, state);
}

/// The id text: `prefix`, the timestamp, `-`, the channel, `-` and the hash
/// as sixteen lowercase hexadecimal digits.
pub open spec fn alert_id_text(prefix: Seq<char>, timestamp: u64, channel: u32, hash: u64) -> Seq<char> {
    prefix + decimal(timestamp as nat) + seq!['-'] + decimal(channel as nat) + seq!['-'] + hex_fixed(
        hash as nat,
        16,
    )
}

/// Whether `id` is an alert id with this prefix, timestamp and channel, for
/// some hash.
pub open spec fn is_alert_id(id: Seq<char>, prefix: Seq<char>, timestamp: u64, channel: u32) -> bool {
    exists|h: u64| id == #[trigger] alert_id_text(prefix, timestamp, channel, h)
}

/// Formats an alert id.
pub fn format_alert_id(prefix: &str, timestamp: u64, channel: u32, hash: u64) -> (id: String)
    ensures
        id@ == alert_id_text(prefix@, timestamp, channel, hash),
{
    let mut id = String::new();
    push_str(&mut id, prefix);
    write_decimal(&mut id, timestamp);
    crate::text::push_char(&mut id, '-');
    write_decimal(&mut id, channel as u64);
    crate::text::push_char(&mut id, '-');
    write_hex_fixed(&mut id, hash, 16);
    id
}

} // verus!
