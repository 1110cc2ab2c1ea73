//! Small string operations that the rest of the crate builds on.

use vstd::prelude::*;
use vstd::string::StrSliceExecFns;
use vstd::string::StringExecFns;

verus! {

/// Equality of two string slices.
///
/// Trusted: calls `str`'s `==` from the standard library, which compares the
/// two slices byte for byte; two slices hold the same bytes exactly when they
/// hold the same characters.
#[verifier::external_body]
pub(crate) fn str_eq(left: &str, right: &str) -> (same: bool)
    ensures
        same == (left@ == right@),
{
    left == right
}

/// The characters with the Unicode property `White_Space`.
pub open spec fn is_whitespace(c: char) -> bool {
    let code = c as u32;
    ||| 0x09 <= code <= 0x0D
    ||| code == 0x20
    ||| code == 0x85
    ||| code == 0xA0
    ||| code == 0x1680
    ||| 0x2000 <= code <= 0x200A
    ||| code == 0x2028
    ||| code == 0x2029
    ||| code == 0x202F
    ||| code == 0x205F
    ||| code == 0x3000
}

/// `text` without its leading whitespace.
pub open spec fn trim_start_of(text: Seq<char>) -> Seq<char>
    decreases text.len(),
{
    if text.len() > 0 && is_whitespace(text[0]) {
        trim_start_of(text.drop_first())
    } else {
        text
    }
}

/// `text` without its trailing whitespace.
pub open spec fn trim_end_of(text: Seq<char>) -> Seq<char>
    decreases text.len(),
{
    if text.len() > 0 && is_whitespace(text.last()) {
        trim_end_of(text.drop_last())
    } else {
        text
    }
}

/// `text` without its leading and trailing whitespace.
pub open spec fn trimmed(text: Seq<char>) -> Seq<char> {
    trim_end_of(trim_start_of(text))
}

/// Whether `text` holds nothing but whitespace.
pub open spec fn is_blank(text: Seq<char>) -> bool {
    trimmed(text).len() == 0
}

/// The slice of `text` without leading and trailing whitespace.
///
/// Trusted: calls `str::trim` from the standard library, which is documented
/// to return the slice with leading and trailing whitespace removed, where
/// whitespace is the Unicode property `White_Space`.
#[verifier::external_body]
pub(crate) fn trim(text: &str) -> (core: &str)
    ensures
        core@ == trimmed(text@),
{
    text.trim()
}

/// The decimal digit for a value below ten.
pub open spec fn digit_char(value: nat) -> char
    recommends
        value < 10,
{
    (('0' as u8) + (value as u8)) as char
}

/// The decimal numeral of `value`, without sign or leading zeros.
pub open spec fn decimal_digits(value: nat) -> Seq<char>
    decreases value,
{
    if value < 10 {
        seq![digit_char(value)]
    } else {
        decimal_digits(value / 10).push(digit_char(value % 10))
    }
}

/// The decimal numeral of `value`.
///
/// Trusted: calls `to_string` on a `u64`, which the standard library
/// documents to format the number in base ten.
#[verifier::external_body]
pub(crate) fn decimal_string(value: u64) -> (text: String)
    ensures
        text@ == decimal_digits(value as nat),
{
    value.to_string()
}

/// The last `limit` characters of `text`, or all of it where it is shorter.
pub open spec fn tail_of(text: Seq<char>, limit: nat) -> Seq<char> {
    if text.len() <= limit {
        text
    } else {
        text.subrange(text.len() - limit, text.len() as int)
    }
}

/// The first `limit` characters of `text`, or all of it where it is shorter.
pub open spec fn head_of(text: Seq<char>, limit: nat) -> Seq<char> {
    if text.len() <= limit {
        text
    } else {
        text.subrange(0, limit as int)
    }
}

/// The last `limit` characters of `text`.
pub fn last_chars(text: &str, limit: usize) -> (tail: String)
    ensures
        tail@ == tail_of(text@, limit as nat),
{
    let count = text.unicode_len();
    if count <= limit {
        String::from_str(text)
    } else {
        String::from_str(text.substring_char(count - limit, count))
    }
}

/// The first `limit` characters of `text`.
pub fn first_chars(text: &str, limit: usize) -> (head: String)
    ensures
        head@ == head_of(text@, limit as nat),
{
    let count = text.unicode_len();
    if count <= limit {
        String::from_str(text)
    } else {
        String::from_str(text.substring_char(0, limit))
    }
}

/// Whether `text` holds nothing but whitespace.
pub fn blank(text: &str) -> (empty: bool)
    ensures
        empty == is_blank(text@),
{
    trim(text).is_empty()
}

} // verus!
