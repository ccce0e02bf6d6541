//! Identifiers and timestamps, as plain values.

use vstd::prelude::*;

verus! {

/// A 128-bit universally unique identifier, held as its integer value
/// (most significant byte first, as `uuid::Uuid::as_u128` gives it).
#[derive(Debug, Clone, Copy, PartialEq, Eq, Structural, Hash)]
pub struct Uid {
    pub value: u128,
}

/// The lower-case hexadecimal digit for `n` in `0..16`.
pub open spec fn hex_digit(n: int) -> char {
    seq!['0', '1', '2', '3', '4', '5', '6', '7', '8', '9', 'a', 'b', 'c', 'd', 'e', 'f'][n]
}

/// The 32 hexadecimal digits of `v`, most significant first.
pub open spec fn hex_digits(v: u128) -> Seq<char> {
    Seq::new(32, |i: int| hex_digit(((v >> ((4 * (31 - i)) as u128)) & 0xfu128) as int))
}

/// The hyphenated text of an identifier: digit groups of 8, 4, 4, 4 and 12.
pub open spec fn uid_text_of(v: u128) -> Seq<char> {
    let d = hex_digits(v);
    d.subrange(0, 8) + seq!['-'] + d.subrange(8, 12) + seq!['-'] + d.subrange(12, 16)
        + seq!['-'] + d.subrange(16, 20) + seq!['-'] + d.subrange(20, 32)
}

/// The version field of an identifier.
pub open spec fn uid_version(v: u128) -> u128 {
    (v >> 76u128) & 0xfu128
}

/// Relies on `uuid::Uuid::new_v4`: a random identifier whose version field
/// is 4.
#[verifier::external_body]
pub(crate) fn fresh_uid() -> (r: Uid)
    ensures
        uid_version(r.value) == 4,
{
    Uid { value: uuid::Uuid::new_v4().as_u128() }
}

/// Relies on `uuid::Uuid`'s `Display`: the hyphenated lower-case text.
#[verifier::external_body]
pub fn uid_text(u: Uid) -> (r: String)
    ensures
        r@ == uid_text_of(u.value),
{
    uuid::Uuid::from_u128(u.value).to_string()
}

/// Relies on `chrono::Utc::now`: the current time in milliseconds since the
/// Unix epoch. Nothing is known of the value.
#[verifier::external_body]
pub(crate) fn now_millis() -> (r: i64) {
    chrono::Utc::now().timestamp_millis()
}

} // verus!
