use vstd::prelude::*;

verus! {

/// The 128-bit value `uuid` reads from `text`, when the text is a UUID in one of the forms
/// `Uuid::parse_str` accepts (hyphenated, simple, braced or URN).
pub uninterp spec fn uuid_from_text(text: Seq<char>) -> Option<u128>;

/// Reads a UUID with `uuid::Uuid::parse_str`. Trusted: the result is `uuid_from_text` of the
/// text.
#[verifier::external_body]
pub(crate) fn parse_uuid(text: &str) -> (r: Option<u128>)
    ensures
        r == uuid_from_text(text@),
{
    match uuid::Uuid::parse_str(text) {
        Ok(u) => Some(u.as_u128()),
        Err(_) => None,
    }
}

/// The lower-case hexadecimal digit for `n` (0 to 15).
pub open spec fn hex_digit(n: int) -> char {
    if n < 10 {
        ('0' as int + n) as char
    } else {
        ('a' as int + n - 10) as char
    }
}

/// How many hyphens come before position `i` of a hyphenated UUID.
pub open spec fn hyphens_before(i: int) -> int {
    if i > 23 { 4 } else if i > 18 { 3 } else if i > 13 { 2 } else if i > 8 { 1 } else { 0 }
}

/// The text of a UUID: its 32 hexadecimal digits, most significant first and in lower case, in
/// groups of 8, 4, 4, 4 and 12 joined by hyphens.
pub open spec fn uuid_text(id: u128) -> Seq<char> {
    Seq::new(
        36,
        |i: int|
            if i == 8 || i == 13 || i == 18 || i == 23 {
                '-'
            } else {
                hex_digit((id as int / vstd::arithmetic::power::pow(16, (31 - (i - hyphens_before(i))) as nat)) % 16)
            },
    )
}

/// Writes a UUID with `uuid::Uuid`'s `Display`. Trusted: the result is `uuid_text` of the
/// value, the hyphenated lower-case form.
#[verifier::external_body]
pub(crate) fn format_uuid(id: u128) -> (r: String)
    ensures
        r@ == uuid_text(id),
        r@.len() == 36,
{
    uuid::Uuid::from_u128(id).to_string()
}

} // verus!
