//! The `regex` crate, reached through calls on pattern strings.
//!
//! A pattern is held as its text; each call compiles it with
//! `regex::Regex::new` (which either fails or yields the same regex for the
//! same text) and then runs the engine on plain values.

use vstd::prelude::*;

use crate::paths::{opt_string_view, strings_view};

verus! {

/// Whether `regex::Regex::new(pattern)` succeeds.
pub uninterp spec fn regex_compiles(pattern: Seq<char>) -> bool;

/// Whether `regex::RegexSet::new(patterns)` succeeds.
pub uninterp spec fn regex_set_compiles(patterns: Seq<Seq<char>>) -> bool;

/// For each successive non-overlapping match of `pattern` in `haystack`
/// (`Regex::captures_iter`), the text of the capture group named `group`,
/// or `None` when that group did not take part in the match.
pub uninterp spec fn regex_named_captures(
    pattern: Seq<char>,
    group: Seq<char>,
    haystack: Seq<char>,
) -> Seq<Option<Seq<char>>>;

/// What `Regex::replace_all(haystack, template)` returns: every
/// non-overlapping match of `pattern` replaced by `template`, in which `$name`
/// and `${name}` stand for capture groups and `$$` for a literal `$`.
pub uninterp spec fn regex_replace_all(
    pattern: Seq<char>,
    haystack: Seq<char>,
    template: Seq<char>,
) -> Seq<char>;

/// The views of a sequence of optional strings.
pub open spec fn opt_strings_view(v: Seq<Option<String>>) -> Seq<Option<Seq<char>>> {
    v.map_values(|o: Option<String>| opt_string_view(o))
}

/// Calls `regex::Regex::new(pattern)` and keeps whether it succeeded, with
/// the error when it did not.
#[verifier::external_body]
pub(crate) fn check_regex(pattern: &str) -> (r: Result<(), regex::Error>)
    ensures
        r is Ok == regex_compiles(pattern@),
{
    regex::Regex::new(pattern)?;
    Ok(())
}

/// Calls `regex::RegexSet::new(patterns)` and keeps whether it succeeded,
/// with the error when it did not.
#[verifier::external_body]
pub(crate) fn check_regex_set(patterns: &Vec<String>) -> (r: Result<(), regex::Error>)
    ensures
        r is Ok == regex_set_compiles(strings_view(patterns@)),
{
    regex::RegexSet::new(patterns)?;
    Ok(())
}

/// Compiles `pattern` and collects, for each match that
/// `Regex::captures_iter` yields on `haystack`, the capture named `group`
/// (`Captures::name`).
#[verifier::external_body]
pub(crate) fn named_captures(pattern: &str, group: &str, haystack: &str) -> (r: Result<
    Vec<Option<String>>,
    regex::Error,
>)
    ensures
        r is Ok == regex_compiles(pattern@),
        r matches Ok(v) ==> opt_strings_view(v@) == regex_named_captures(
            pattern@,
            group@,
            haystack@,
        ),
{
    let re = regex::Regex::new(pattern)?;
    let mut captures = Vec::new();
    for c in re.captures_iter(haystack) {
        captures.push(c.name(group).map(|m| m.as_str().to_string()));
    }
    Ok(captures)
}

/// Compiles `pattern` and calls `Regex::replace_all(haystack, template)`.
#[verifier::external_body]
pub(crate) fn replace_all(pattern: &str, haystack: &str, template: &str) -> (r: Result<
    String,
    regex::Error,
>)
    ensures
        r is Ok == regex_compiles(pattern@),
        r matches Ok(s) ==> s@ == regex_replace_all(pattern@, haystack@, template@),
{
    let re = regex::Regex::new(pattern)?;
    Ok(re.replace_all(haystack, template).into_owned())
}

} // verus!
