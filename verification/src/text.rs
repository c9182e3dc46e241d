//! Text building blocks: decimal rendering and character-wise string assembly.

use vstd::prelude::*;
use vstd::string::*;

verus! {

/// The character that stands for the decimal digit `d`.
pub open spec fn digit(d: int) -> char {
    if d == 0 {
        '0'
    } else if d == 1 {
        '1'
    } else if d == 2 {
        '2'
    } else if d == 3 {
        '3'
    } else if d == 4 {
        '4'
    } else if d == 5 {
        '5'
    } else if d == 6 {
        '6'
    } else if d == 7 {
        '7'
    } else if d == 8 {
        '8'
    } else {
        '9'
    }
}

/// The decimal numeral of `n`, most significant digit first, without padding.
pub open spec fn decimal(n: nat) -> Seq<char>
    decreases n,
{
    if n < 10 {
        seq![digit(n as int)]
    } else {
        decimal(n / 10).push(digit((n % 10) as int))
    }
}

/// Appends one character to a string.
///
/// Trusted: `String::push` extends the string by exactly the given character.
#[verifier::external_body]
pub(crate) fn push_char(s: &mut String, c: char)
    ensures
        final(s)@ == old(s)@.push(c),
{
    s.push(c);
}

/// Whether two string slices hold the same text.
///
/// Trusted: `str::eq`, the `==` of string slices, compares the two texts
/// character by character.
#[verifier::external_body]
pub(crate) fn str_eq(a: &str, b: &str) -> (same: bool)
    ensures
        same == (a@ == b@),
{
    a == b
}

/// Whether a character belongs to ASCII.
pub open spec fn is_ascii_char(c: char) -> bool {
    '\0' <= c <= '\u{7f}'
}

/// Whether a text consists of ASCII characters only.
pub open spec fn is_ascii_text(text: Seq<char>) -> bool {
    forall|i: int| 0 <= i < text.len() ==> is_ascii_char(#[trigger] text[i])
}

/// The white space of ASCII in the sense of Unicode: the space and the
/// controls from tab to carriage return.
pub open spec fn ascii_white_space(c: char) -> bool {
    c == ' ' || '\u{9}' <= c <= '\u{d}'
}

/// Whether a character outside ASCII is white space in the sense of Unicode.
pub uninterp spec fn wide_white_space(c: char) -> bool;

/// Whether a character is white space in the sense of Unicode.
pub open spec fn white_space(c: char) -> bool {
    if is_ascii_char(c) {
        ascii_white_space(c)
    } else {
        wide_white_space(c)
    }
}

/// The upper-case form of a character of ASCII: the capital of a small
/// letter, any other character as it is.
pub open spec fn ascii_upper(c: char) -> char {
    if 'a' <= c <= 'z' {
        ((c as u32) - 32) as char
    } else {
        c
    }
}

/// The upper-case form, in the sense of Unicode, of a text that is not all
/// ASCII.
pub uninterp spec fn wide_uppercase(text: Seq<char>) -> Seq<char>;

/// The upper-case form of a text in the sense of Unicode.
pub open spec fn uppercase(text: Seq<char>) -> Seq<char> {
    if is_ascii_text(text) {
        text.map_values(|c: char| ascii_upper(c))
    } else {
        wide_uppercase(text)
    }
}

/// The value of a decimal digit.
pub open spec fn digit_value(c: char) -> Option<nat> {
    if '0' <= c <= '9' {
        Some(((c as u32) - ('0' as u32)) as nat)
    } else {
        None
    }
}

/// The number that a text of decimal digits denotes; nothing for a text
/// that holds anything else.
pub open spec fn decimal_value(digits: Seq<char>) -> Option<nat>
    decreases digits.len(),
{
    if digits.len() == 0 {
        Some(0)
    } else {
        match (decimal_value(digits.drop_last()), digit_value(digits.last())) {
            (Some(front), Some(last)) => Some(10 * front + last),
            _ => None,
        }
    }
}

/// The 32-bit number that a text denotes: an optional sign, `+` or `-`, and
/// then decimal digits, at least one and nothing else. A number that does
/// not fit 32 bits is none.
pub open spec fn parsed_i32(text: Seq<char>) -> Option<i32> {
    let signed = text.len() > 0 && (text[0] == '+' || text[0] == '-');
    let digits = if signed {
        text.drop_first()
    } else {
        text
    };
    if digits.len() == 0 {
        None
    } else {
        match decimal_value(digits) {
            None => None,
            Some(value) => if text[0] == '-' {
                if value <= 0x8000_0000 {
                    Some((-(value as int)) as i32)
                } else {
                    None
                }
            } else {
                if value <= 0x7fff_ffff {
                    Some(value as i32)
                } else {
                    None
                }
            },
        }
    }
}

/// Whether a text begins with another.
///
/// Trusted: `str::starts_with` with a string slice as pattern, which tells
/// whether the pattern is a prefix of the text.
#[verifier::external_body]
pub(crate) fn starts_with(text: &str, prefix: &str) -> (found: bool)
    ensures
        found == prefix@.is_prefix_of(text@),
{
    text.starts_with(prefix)
}

/// A text as the debug form of a string shows it: in double quotes, with
/// escapes where the text needs them.
pub uninterp spec fn quoted(text: Seq<char>) -> Seq<char>;

/// The debug form of a string.
///
/// Trusted: the `Debug` form of `str`, through `format`. The result depends
/// on the text alone; the escaping rules are named, not written out.
#[verifier::external_body]
pub(crate) fn debug_text(text: &str) -> (shown: String)
    ensures
        shown@ == quoted(text@),
{
    format!("{:?}", text)
}

/// Whether a character is white space.
///
/// Trusted: `char::is_whitespace`, which tells whether the character has the
/// Unicode property `White_Space`. Within ASCII these are the space and the
/// controls from tab to carriage return; outside ASCII the property is named,
/// not listed. The result depends on the character alone.
#[verifier::external_body]
pub(crate) fn is_whitespace(c: char) -> (space: bool)
    ensures
        space == if is_ascii_char(c) {
            ascii_white_space(c)
        } else {
            wide_white_space(c)
        },
{
    c.is_whitespace()
}

/// The upper-case form of a text.
///
/// Trusted: `str::to_uppercase`, which maps the text to upper case by the
/// Unicode rules. On a text of ASCII these put the capital in the place of
/// each small letter and change nothing else; for any other text the mapping
/// is named, not written out. The result depends on the text alone.
#[verifier::external_body]
pub(crate) fn to_uppercase(text: &str) -> (upper: String)
    ensures
        upper@ == if is_ascii_text(text@) {
            text@.map_values(|c: char| ascii_upper(c))
        } else {
            wide_uppercase(text@)
        },
{
    text.to_uppercase()
}

/// Reads a decimal number of 32 bits.
///
/// Trusted: `str::parse` for `i32`, with the error dropped. The text is to
/// be an optional sign followed by decimal digits and nothing else; an empty
/// text, a sign alone, any other character and a number that overflows are
/// errors.
#[verifier::external_body]
pub(crate) fn parse_i32(text: &str) -> (number: Option<i32>)
    ensures
        number == parsed_i32(text@),
{
    text.parse::<i32>().ok()
}

/// The character of a single decimal digit.
pub fn digit_char(d: u8) -> (c: char)
    requires
        d < 10,
    ensures
        c == digit(d as int),
{
    match d {
        0 => '0',
        1 => '1',
        2 => '2',
        3 => '3',
        4 => '4',
        5 => '5',
        6 => '6',
        7 => '7',
        8 => '8',
        _ => '9',
    }
}

/// Appends the decimal numeral of `n` to `s`.
pub fn append_decimal(s: &mut String, n: u64)
    ensures
        final(s)@ == old(s)@ + decimal(n as nat),
    decreases n,
{
    if n >= 10 {
        append_decimal(s, n / 10);
    }
    push_char(s, digit_char((n % 10) as u8));
}

/// The decimal numeral of `n` as an owned string.
pub fn decimal_string(n: u64) -> (s: String)
    ensures
        s@ == decimal(n as nat),
{
    let mut s = String::new();
    append_decimal(&mut s, n);
    s
}

} // verus!
