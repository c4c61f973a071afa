//! Identifiers: a record identifier is a 128-bit value, rendered the way the
//! `uuid` crate renders a `Uuid`.

use vstd::prelude::*;
use vstd::arithmetic::power2::pow2;

verus! {

/// The lower-case hexadecimal digit for a value below 16.
pub open spec fn hex_digit(n: nat) -> char {
    if n < 10 {
        (('0' as nat) + n) as char
    } else {
        (('a' as nat) + (n - 10)) as char
    }
}

/// The `k`-th hexadecimal digit of `v`, counted from the most significant one.
pub open spec fn nibble(v: u128, k: int) -> nat {
    ((v as nat) / pow2((4 * (31 - k)) as nat)) % 16
}

/// Position `p` of the hyphenated form: hyphens at 8, 13, 18 and 23, and
/// otherwise the digits of `v` in order.
pub open spec fn uuid_char(v: u128, p: int) -> char {
    if p == 8 || p == 13 || p == 18 || p == 23 {
        '-'
    } else {
        let before = if p < 8 { 0int } else if p < 13 { 1int } else if p < 18 { 2int } else if p < 23 { 3int } else { 4int };
        hex_digit(nibble(v, p - before))
    }
}

/// The hyphenated lower-case text of an identifier, e.g.
/// `67e55044-10b1-426f-9247-bb680e5fe0c8`.
pub open spec fn uuid_text(v: u128) -> Seq<char> {
    Seq::new(36, |p: int| uuid_char(v, p))
}

/// Renders an identifier through `uuid::Uuid`'s `Display`.
/// Trusted: `Uuid::from_u128` takes the value's big-endian bytes and
/// `to_string` writes them as lower-case hex digits in groups of 8-4-4-4-12
/// separated by hyphens, which is what `uuid_text` states.
#[verifier::external_body]
pub fn uuid_to_string(v: u128) -> (res: String)
    ensures
        res@ == uuid_text(v),
{
    uuid::Uuid::from_u128(v).to_string()
}


/// Whether an identifier has the marks of a random (version 4) identifier:
/// its 13th hex digit is `4` and its 17th is one of `8`, `9`, `a`, `b`.
pub open spec fn is_random_id(v: u128) -> bool {
    nibble(v, 12) == 4 && 8 <= nibble(v, 16) <= 11
}

/// A fresh random identifier through `uuid::Uuid::new_v4`.
/// Trusted: the value is random, so only what holds of every outcome is
/// stated: `new_v4` masks random bits with `..4FFF_BFFF..` and sets
/// `0x4000_8000 << 64`, which fixes the version digit to 4 and the variant
/// digit to 8..b.
#[verifier::external_body]
pub fn new_random_id() -> (v: u128)
    ensures
        is_random_id(v),
{
    uuid::Uuid::new_v4().as_u128()
}

/// The identifier that `uuid::Uuid::parse_str` reads from a text, if it
/// reads one (it accepts the simple, hyphenated, URN and braced forms).
pub uninterp spec fn parsed_uuid(s: Seq<char>) -> Option<u128>;

/// Reads an identifier through `uuid::Uuid::parse_str`.
/// Trusted: the result depends on the text alone, and the hyphenated
/// lower-case form that `uuid_to_string` writes is read back as the value
/// it was written from (`parse_str` reads 36 characters as the hyphenated
/// form, and `as_u128` reads the bytes back big-endian). Which other texts
/// it accepts, and what it reads from them, is left to the name
/// `parsed_uuid`.
#[verifier::external_body]
pub fn parse_uuid(s: &str) -> (r: Option<u128>)
    ensures
        r == parsed_uuid(s@),
        forall|v: u128| s@ == #[trigger] uuid_text(v) ==> r == Some(v),
{
    match uuid::Uuid::parse_str(s) {
        Ok(u) => Some(u.as_u128()),
        Err(_) => None,
    }
}

} // verus!
