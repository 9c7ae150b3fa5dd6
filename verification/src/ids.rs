//! Identifiers: 128-bit values, written and read in the hyphenated form.

use vstd::prelude::*;

verus! {

/// The identifier of a user, a resource or a session, as a 128-bit number.
pub type Id = u128;

/// The lower-case hexadecimal digit for a value below sixteen.
pub open spec fn hex_char(d: int) -> char {
    if d == 0 {
        '0'
    } else if d == 1 {
        '1'
    } else if d == 2 {
        '2'
    } else if d == 3 {
        '3'
    } else if d == 4 {
        '4'
    } else if d == 5 {
        '5'
    } else if d == 6 {
        '6'
    } else if d == 7 {
        '7'
    } else if d == 8 {
        '8'
    } else if d == 9 {
        '9'
    } else if d == 10 {
        'a'
    } else if d == 11 {
        'b'
    } else if d == 12 {
        'c'
    } else if d == 13 {
        'd'
    } else if d == 14 {
        'e'
    } else {
        'f'
    }
}

/// The four-bit group of `id` at place `k`, counted from the most significant.
pub open spec fn nibble(id: Id, k: int) -> int
    recommends
        0 <= k < 32,
{
    ((id >> ((4 * (31 - k)) as u128)) & 0xf) as int
}

/// How many hyphens stand before place `p` of the hyphenated form.
pub open spec fn hyphens_before(p: int) -> int {
    if p > 23 {
        4
    } else if p > 18 {
        3
    } else if p > 13 {
        2
    } else if p > 8 {
        1
    } else {
        0
    }
}

/// The hyphenated form of an identifier: 32 lower-case hexadecimal digits in
/// groups of 8, 4, 4, 4 and 12.
pub open spec fn hyphenated(id: Id) -> Seq<char> {
    Seq::new(
        36,
        |p: int|
            if p == 8 || p == 13 || p == 18 || p == 23 {
                '-'
            } else {
                hex_char(nibble(id, p - hyphens_before(p)))
            },
    )
}

/// What reading a text as an identifier gives: the identifier, or nothing where
/// the text is in none of the accepted forms.
pub uninterp spec fn parsed_id(text: Seq<char>) -> Option<Id>;

/// Writes an identifier in the hyphenated form.
///
/// Trusted: stands for `Uuid::from_u128` followed by the `Display` of
/// `uuid::Uuid`, which packs the number into sixteen bytes, most significant
/// first, and prints them as lower-case hexadecimal digits with hyphens after
/// the 8th, 12th, 16th and 20th digit.
#[verifier::external_body]
pub(crate) fn id_text(id: Id) -> (text: String)
    ensures
        text@ == hyphenated(id),
{
    uuid::Uuid::from_u128(id).to_string()
}

/// Reads an identifier from text.
///
/// Trusted: stands for `Uuid::parse_str` followed by `Uuid::as_u128`. The parser
/// takes several written forms and its result depends on the text alone, so the
/// contract only names it.
#[verifier::external_body]
pub(crate) fn parse_id_text(text: &str) -> (id: Option<Id>)
    ensures
        id == parsed_id(text@),
{
    match uuid::Uuid::parse_str(text) {
        Ok(uuid) => Some(uuid.as_u128()),
        Err(_) => None,
    }
}

/// The identifier as text, in the hyphenated form.
pub fn id_to_string(id: Id) -> (text: String)
    ensures
        text@ == hyphenated(id),
        text@.len() == 36,
{
    id_text(id)
}

/// Reads an identifier in any of the forms the reader accepts.
pub fn parse_id(text: &str) -> (id: Option<Id>)
    ensures
        id == parsed_id(text@),
{
    parse_id_text(text)
}

} // verus!
