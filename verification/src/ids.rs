//! Identifiers: sessions, projects, features, checkpoints and events are
//! identified by UUIDs, held here as their 128-bit value.

use vstd::prelude::*;

verus! {

/// Calls `uuid::Uuid::new_v4` and returns the 128-bit value of the new UUID.
/// The value is random, so the contract states nothing about it.
#[verifier::external_body]
pub(crate) fn new_v4() -> (r: u128) {
    uuid::Uuid::new_v4().as_u128()
}

/// What `uuid::Uuid::parse_str` gives for a text: the value, or the text of its error.
pub uninterp spec fn uuid_parsed(s: Seq<char>) -> Result<u128, Seq<char>>;

/// A successful parse that gives `id`.
pub open spec fn parsed_id(id: u128) -> Result<u128, Seq<char>> {
    Ok(id)
}

/// The lower-case hexadecimal digit of a value below 16.
pub open spec fn hex_digit(d: nat) -> char {
    if d < 10 {
        (48 + d) as char
    } else {
        (87 + d) as char
    }
}

/// The last `n` hexadecimal digits of `v`, the most significant first.
pub open spec fn hex_digits(v: nat, n: nat) -> Seq<char>
    decreases n,
{
    if n == 0 {
        Seq::empty()
    } else {
        hex_digits(v / 16, (n - 1) as nat).push(hex_digit(v % 16))
    }
}

/// The hyphenated text form of a UUID: its 32 lower-case hexadecimal digits,
/// most significant first, in groups of 8, 4, 4, 4 and 12 joined by `-`.
pub open spec fn uuid_text(id: u128) -> Seq<char> {
    let h = hex_digits(id as nat, 32);
    h.subrange(0, 8) + seq!['-'] + h.subrange(8, 12) + seq!['-'] + h.subrange(12, 16) + seq!['-'] + h.subrange(
        16,
        20,
    ) + seq!['-'] + h.subrange(20, 32)
}

/// Calls `uuid::Uuid::from_u128(id).to_string()`. The contract claims what
/// uuid's `Display` writes, the hyphenated lower-case form (`uuid_text`),
/// and, as uuid documents that `parse_str` accepts every form it writes,
/// that parsing the text gives the value back.
#[verifier::external_body]
pub(crate) fn id_to_string(id: u128) -> (r: String)
    ensures
        r@ == uuid_text(id),
        uuid_parsed(r@) == parsed_id(id),
{
    uuid::Uuid::from_u128(id).to_string()
}

/// Calls `uuid::Uuid::parse_str`; the error is returned as its `Display` text.
/// The contract claims only that the outcome is a function of the text (`uuid_parsed`).
#[verifier::external_body]
pub(crate) fn parse_id(s: &str) -> (r: Result<u128, String>)
    ensures
        match r {
            Ok(v) => uuid_parsed(s@) == Ok::<u128, Seq<char>>(v),
            Err(e) => uuid_parsed(s@) == Err::<u128, Seq<char>>(e@),
        },
{
    match uuid::Uuid::parse_str(s) {
        Ok(u) => Ok(u.as_u128()),
        Err(e) => Err(e.to_string()),
    }
}

} // verus!
