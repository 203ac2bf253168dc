//! Volume and nexus identifiers, parsed and written by the uuid crate.

use vstd::prelude::*;

verus! {

/// The 128-bit value that the uuid crate reads from a string, if it accepts
/// the string.
pub uninterp spec fn uuid_of(s: Seq<char>) -> Option<u128>;

/// Relies on `uuid::Uuid::parse_str` and `Uuid::as_u128`: whether a string is
/// accepted, and the value read from it, depend on the string alone; the
/// hyphenated form of a value reads back as that value; and only strings of
/// 32 (plain), 36 (hyphenated) or 45 (`urn:uuid:` prefixed) characters are
/// accepted.
#[verifier::external_body]
pub(crate) fn parse_uuid(s: &str) -> (r: Option<u128>)
    ensures
        r == uuid_of(s@),
        forall|v: u128| s@ == #[trigger] hyphenated(v) ==> r == Some(v),
        !(s@.len() == 32 || s@.len() == 36 || s@.len() == 45) ==> r is None,
{
    match uuid::Uuid::parse_str(s) {
        Ok(u) => Some(u.as_u128()),
        Err(_) => None,
    }
}

/// The lower-case hexadecimal digit for a value below 16.
pub open spec fn hex_digit(d: int) -> char {
    seq!['0', '1', '2', '3', '4', '5', '6', '7', '8', '9', 'a', 'b', 'c', 'd', 'e', 'f'][d]
}

/// The last `n` hexadecimal digits of `v`, most significant first.
pub open spec fn hex_of(v: nat, n: nat) -> Seq<char>
    decreases n,
{
    if n == 0 {
        Seq::empty()
    } else {
        hex_of(v / 16, (n - 1) as nat).push(hex_digit((v % 16) as int))
    }
}

/// The hyphenated form of a UUID value: its 32 lower-case hexadecimal
/// digits, most significant first, in groups of 8, 4, 4, 4 and 12.
pub open spec fn hyphenated(v: u128) -> Seq<char> {
    let h = hex_of(v as nat, 32);
    h.subrange(0, 8) + seq!['-'] + h.subrange(8, 12) + seq!['-'] + h.subrange(12, 16) + seq!['-']
        + h.subrange(16, 20) + seq!['-'] + h.subrange(20, 32)
}

/// Relies on `uuid::Uuid::from_u128` and the `Display` of
/// `uuid::adapter::Hyphenated`: the value's bytes, most significant first,
/// written as lower-case hexadecimal digits in groups of 8-4-4-4-12.
#[verifier::external_body]
pub(crate) fn uuid_hyphenated(v: u128) -> (r: String)
    ensures
        r@ == hyphenated(v),
{
    uuid::Uuid::from_u128(v).to_hyphenated().to_string()
}

} // verus!
