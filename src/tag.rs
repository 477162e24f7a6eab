use std::str::FromStr;
use vstd::prelude::*;
use vstd::utf8::is_ascii_chars;

verus! {

/// The value of a hexadecimal digit of either case.
pub open spec fn hex_value(c: char) -> Option<nat> {
    let u = c as u32;
    if 48 <= u <= 57 {
        Some((u - 48) as nat)
    } else if 97 <= u <= 102 {
        Some((u - 87) as nat)
    } else if 65 <= u <= 70 {
        Some((u - 55) as nat)
    } else {
        None
    }
}

/// The number that four hexadecimal digits spell.
pub open spec fn hex4_value(s: Seq<char>) -> Option<u16> {
    if s.len() == 4 && hex_value(s[0]) is Some && hex_value(s[1]) is Some && hex_value(s[2]) is Some
        && hex_value(s[3]) is Some {
        Some(
            (hex_value(s[0])->0 * 4096 + hex_value(s[1])->0 * 256 + hex_value(s[2])->0 * 16 + hex_value(
                s[3],
            )->0) as u16,
        )
    } else {
        None
    }
}

pub open spec fn both(a: Option<u16>, b: Option<u16>) -> Option<(u16, u16)> {
    match (a, b) {
        (Some(x), Some(y)) => Some((x, y)),
        _ => None,
    }
}

/// The tag that an ASCII text spells: `ggggeeee`, `gggg,eeee` or `(gggg,eeee)`.
pub open spec fn tag_from_text(s: Seq<char>) -> Option<(u16, u16)> {
    if s.len() == 8 {
        both(hex4_value(s.subrange(0, 4)), hex4_value(s.subrange(4, 8)))
    } else if s.len() == 9 && s[4] == ',' {
        both(hex4_value(s.subrange(0, 4)), hex4_value(s.subrange(5, 9)))
    } else if s.len() == 11 && s[0] == '(' && s[5] == ',' && s[10] == ')' {
        both(hex4_value(s.subrange(1, 5)), hex4_value(s.subrange(6, 10)))
    } else {
        None
    }
}

/// The tag that a key of the wire form names; none for text that is not ASCII.
pub open spec fn tag_of_key(s: Seq<char>) -> Option<(u16, u16)> {
    if is_ascii_chars(s) {
        tag_from_text(s)
    } else {
        None
    }
}

/// Relies on dicom's `Tag::from_str`: on ASCII text it reads `ggggeeee`, `gggg,eeee` and
/// `(gggg,eeee)`, each part four hexadecimal digits of either case, and refuses any other text.
#[verifier::external_body]
fn dicom_parse_tag(s: &str) -> (r: Option<(u16, u16)>)
    requires
        s.is_ascii(),
    ensures
        r == tag_from_text(s@),
{
    dicom::core::Tag::from_str(s).ok().map(|t| (t.0, t.1))
}

/// Reads the tag that a key of the wire form names.
pub fn parse_tag(s: &str) -> (r: Option<(u16, u16)>)
    ensures
        r == tag_of_key(s@),
{
    if s.is_ascii() {
        dicom_parse_tag(s)
    } else {
        None
    }
}

} // verus!
