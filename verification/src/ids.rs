//! UUIDs as 128-bit values, and the uuid crate calls that make, parse and
//! print them.
use vstd::prelude::*;

verus! {

/// The lower-case hexadecimal digit for `d`, for `d < 16`.
pub open spec fn hex_digit(d: nat) -> char {
    if d < 10 {
        crate::text::digit_char(d)
    } else if d == 10 { 'a' }
    else if d == 11 { 'b' }
    else if d == 12 { 'c' }
    else if d == 13 { 'd' }
    else if d == 14 { 'e' }
    else { 'f' }
}

/// The last `width` hexadecimal digits of `v`, most significant first,
/// padded with zeros.
pub open spec fn hex_fixed(v: nat, width: nat) -> Seq<char>
    decreases width,
{
    if width == 0 {
        Seq::empty()
    } else {
        hex_fixed(v / 16, (width - 1) as nat) + seq![hex_digit(v % 16)]
    }
}

/// The 32 lower-case hex digits of a UUID without hyphens.
pub open spec fn simple_text(id: u128) -> Seq<char> {
    hex_fixed(id as nat, 32)
}

/// The canonical 8-4-4-4-12 lower-case hyphenated text of a UUID.
pub open spec fn hyphenated_text(id: u128) -> Seq<char> {
    let h = simple_text(id);
    h.subrange(0, 8) + "-"@ + h.subrange(8, 12) + "-"@ + h.subrange(12, 16) + "-"@
        + h.subrange(16, 20) + "-"@ + h.subrange(20, 32)
}

/// What `uuid::Uuid::parse_str` makes of a text, as a 128-bit value.
pub uninterp spec fn uuid_parsed(s: Seq<char>) -> Option<u128>;

/// Calls `uuid::Uuid::new_v4`. The value is random; the contract claims
/// only the version (4) and variant (RFC 4122) bits that its source fixes.
#[verifier::external_body]
pub fn new_v4() -> (r: u128)
    ensures
        (r >> 76u128) & 0xfu128 == 4,
        (r >> 62u128) & 0x3u128 == 2,
{
    uuid::Uuid::new_v4().as_u128()
}

/// Prints a UUID with `uuid::Uuid::simple`: its 32 lower-case hex digits.
#[verifier::external_body]
pub fn simple_string(id: u128) -> (r: String)
    ensures
        r@ == simple_text(id),
{
    uuid::Uuid::from_u128(id).simple().to_string()
}

/// Prints a UUID with `uuid::Uuid`'s `Display`: the hyphenated lower-case form.
#[verifier::external_body]
pub fn hyphenated_string(id: u128) -> (r: String)
    ensures
        r@ == hyphenated_text(id),
{
    uuid::Uuid::from_u128(id).to_string()
}

/// Parses a UUID with `uuid::Uuid::parse_str` (simple, hyphenated, braced
/// or URN form); the result is named, not described.
#[verifier::external_body]
pub fn parse(s: &str) -> (r: Option<u128>)
    ensures
        r == uuid_parsed(s@),
{
    match uuid::Uuid::parse_str(s) {
        Ok(u) => Some(u.as_u128()),
        Err(_) => None,
    }
}

} // verus!
