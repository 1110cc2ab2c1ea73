//! Regular expressions, as the `regex` crate compiles and matches them.

use vstd::prelude::*;

verus! {

/// Makes `regex::Regex` known as an opaque type.
#[verifier::external_type_specification]
#[verifier::external_body]
pub struct ExRegex(regex::Regex);

/// Makes `regex::Error` known as an opaque type.
#[verifier::external_type_specification]
#[verifier::external_body]
pub struct ExRegexError(regex::Error);

/// Whether the `regex` crate compiles `source`: it is a valid pattern and
/// what it compiles to stays within the default size limit.
pub uninterp spec fn pattern_compiles(source: Seq<char>) -> bool;

/// The text that a compiled pattern was compiled from.
pub uninterp spec fn pattern_source(pattern: regex::Regex) -> Seq<char>;

/// What capture group `group` holds in the leftmost match of the pattern
/// `source` in `haystack`; `None` where the pattern does not match, has no
/// such group, or the group took no part in the match.
pub uninterp spec fn group_match(source: Seq<char>, group: nat, haystack: Seq<char>) -> Option<
    Seq<char>,
>;

/// What the first capture group holds in the leftmost match of the pattern
/// `source` in `haystack`.
pub open spec fn first_group_match(source: Seq<char>, haystack: Seq<char>) -> Option<Seq<char>> {
    group_match(source, 1, haystack)
}

/// Compiles a pattern.
///
/// Trusted: calls `Regex::new`, which fails on a pattern that is invalid or
/// compiles to more than the default size limit. Whether it succeeds
/// depends on the text of the pattern alone and is only named; the compiled
/// pattern keeps the text it was made from.
#[verifier::external_body]
pub(crate) fn compile(source: &str) -> (compiled: Result<regex::Regex, regex::Error>)
    ensures
        compiled is Ok <==> pattern_compiles(source@),
        compiled matches Ok(pattern) ==> pattern_source(pattern) == source@,
{
    regex::Regex::new(source)
}

/// The text of a capture group in the leftmost match.
///
/// Trusted: calls `Regex::captures`, which searches for the first match and
/// reports each group's part in it, then `Captures::get` for the group and
/// `Match::as_str` for the matched text. The contract only names the
/// outcome, which depends on the pattern, the group and the haystack alone.
#[verifier::external_body]
pub(crate) fn capture(pattern: &regex::Regex, group: usize, haystack: &str) -> (found: Option<
    String,
>)
    ensures
        found is Some <==> group_match(pattern_source(*pattern), group as nat, haystack@) is Some,
        found matches Some(text) ==> Some(text@) == group_match(
            pattern_source(*pattern),
            group as nat,
            haystack@,
        ),
{
    let taken = pattern.captures(haystack).and_then(|groups| groups.get(group));
    taken.map(|found| found.as_str().to_string())
}

/// The message of a compilation error.
///
/// Trusted: calls `to_string` on `regex::Error`; nothing is claimed of the
/// text.
#[verifier::external_body]
pub(crate) fn error_text(error: &regex::Error) -> (text: String) {
    error.to_string()
}

} // verus!
