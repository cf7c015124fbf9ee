//! The boundary to the `regex` crate.
//!
//! Everything in this module that is marked `external_body` is believed, not
//! proved: each such item names the function of `regex` it stands for and says
//! what is claimed of it.

use vstd::prelude::*;

verus! {

/// `regex::Regex`, a compiled regular expression, carried as an opaque value.
#[verifier::external_type_specification]
#[verifier::external_body]
pub struct ExRegex(regex::Regex);

/// `regex::Error`, the reason a pattern was refused, carried as an opaque value.
#[verifier::external_type_specification]
#[verifier::external_body]
pub struct ExRegexError(regex::Error);

/// What `regex::Regex::new` makes of a pattern: the compiled expression, or
/// nothing where the pattern is refused. Two expressions compiled from the
/// same pattern text count as the same value: they match alike.
pub uninterp spec fn compiled(pattern: Seq<char>) -> Option<regex::Regex>;

/// What `regex::Regex::find` returns for a line: the text of the leftmost
/// match, or nothing where the expression matches nowhere in the line.
pub uninterp spec fn first_match(rx: regex::Regex, line: Seq<char>) -> Option<Seq<char>>;

/// What `regex::Regex::capture_names` yields: for each capture group, in the
/// order of the group numbers and starting with the implicit group 0, its name
/// if it has one.
pub uninterp spec fn group_names(rx: regex::Regex) -> Seq<Option<Seq<char>>>;

/// What `regex::Regex::captures` returns for a line: nothing where the
/// expression matches nowhere; otherwise, for each capture group in the order
/// of the group numbers, the text it matched if it took part in the leftmost
/// match.
pub uninterp spec fn group_texts(rx: regex::Regex, line: Seq<char>) -> Option<
    Seq<Option<Seq<char>>>,
>;

/// `part` occurs in `whole` as a contiguous run of characters.
pub open spec fn is_slice_of(part: Seq<char>, whole: Seq<char>) -> bool {
    exists|from: int, to: int|
        0 <= from <= to <= whole.len() && part == #[trigger] whole.subrange(from, to)
}

/// Every text in `groups` occurs in `whole` as a contiguous run of characters.
pub open spec fn all_slices_of(groups: Seq<Option<Seq<char>>>, whole: Seq<char>) -> bool {
    forall|i: int|
        0 <= i < groups.len() ==> match #[trigger] groups[i] {
            Some(text) => is_slice_of(text, whole),
            None => true,
        }
}

/// Calls `regex::Regex::new`.
///
/// Claimed: whether the pattern is accepted, and the expression that results,
/// depend on the pattern text alone.
#[verifier::external_body]
pub(crate) fn new_regex(pattern: &str) -> (r: Result<regex::Regex, regex::Error>)
    ensures
        match r {
            Ok(rx) => compiled(pattern@) == Some(rx),
            Err(_) => compiled(pattern@) is None,
        },
{
    regex::Regex::new(pattern)
}

/// Formats a `regex::Error` with its `Debug` implementation, in the
/// pretty-printed form. Nothing is claimed of the text.
#[verifier::external_body]
pub(crate) fn error_text(e: &regex::Error) -> (text: String) {
    format!("{e:#?}")
}

/// Calls `regex::Regex::find` and copies the matched text out of the `Match`.
///
/// Claimed: the result depends on the expression and the line alone, and a
/// match is a piece of the line (`Match::as_str` slices the haystack).
#[verifier::external_body]
pub(crate) fn find_text(rx: &regex::Regex, line: &str) -> (r: Option<String>)
    ensures
        r.deep_view() == first_match(*rx, line@),
        r matches Some(text) ==> is_slice_of(text@, line@),
{
    rx.find(line).map(|m| m.as_str().to_string())
}

/// Calls `regex::Regex::capture_names` and copies each name out.
///
/// Claimed: the names depend on the expression alone.
#[verifier::external_body]
pub(crate) fn names_of(rx: &regex::Regex) -> (r: Vec<Option<String>>)
    ensures
        r.deep_view() == group_names(*rx),
{
    rx.capture_names().map(|name| name.map(|n| n.to_string())).collect()
}

/// Calls `regex::Regex::captures` and copies the text of each group out of
/// the `Captures`, walking it with `Captures::iter`.
///
/// Claimed: the result depends on the expression and the line alone, and each
/// group's text is a piece of the line.
#[verifier::external_body]
pub(crate) fn captures_text(rx: &regex::Regex, line: &str) -> (r: Option<Vec<Option<String>>>)
    ensures
        r.deep_view() == group_texts(*rx, line@),
        r matches Some(groups) ==> all_slices_of(groups.deep_view(), line@),
{
    rx.captures(line).map(|caps| caps.iter().map(|g| g.map(|m| m.as_str().to_string())).collect())
}

} // verus!
