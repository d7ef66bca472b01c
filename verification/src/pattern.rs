//! Regular expressions, compiled and searched by the `regex` crate.

use vstd::prelude::*;

verus! {

#[verifier::external_type_specification]
#[verifier::external_body]
pub struct ExRegex(regex::Regex);

#[verifier::external_type_specification]
#[verifier::external_body]
pub struct ExRegexError(regex::Error);

/// Whether `regex::Regex::new` accepts `pattern`: it is well formed and the
/// compiled program stays under the default size limit. That limit counts
/// the sizes of the compiled states, which depend on the target's pointer
/// width, so this is a function of the pattern for a given target.
pub uninterp spec fn regex_compiles(pattern: Seq<char>) -> bool;

/// The text of capture group `group` of the leftmost-first match of
/// `pattern` in `haystack`, as `regex::Regex::captures` finds it; `None`
/// where there is no match or the group took no part in it.
pub uninterp spec fn regex_capture(pattern: Seq<char>, haystack: Seq<char>, group: usize) -> Option<
    Seq<char>,
>;

/// `s` occurs in `t` as a contiguous run of characters.
pub open spec fn is_infix_of(s: Seq<char>, t: Seq<char>) -> bool {
    exists|i: int| 0 <= i <= t.len() - s.len() && #[trigger] t.subrange(i, i + s.len()) == s
}

/// The view of an optional string.
pub open spec fn opt_view(o: Option<String>) -> Option<Seq<char>> {
    match o {
        Some(s) => Some(s@),
        None => None,
    }
}

/// Why a pattern could not be used.
#[derive(Debug, Clone, Copy, PartialEq, Eq, Structural)]
pub enum PatternError {
    /// `regex::Regex::new` refused the pattern (bad syntax, or too big).
    Invalid,
}

/// A regular expression together with the source it was compiled from.
/// Its only constructor is `compile_pattern`, which compiles the regex from
/// the very text it keeps as `source`.
pub struct Pattern {
    source: String,
    regex: regex::Regex,
}

/// Compiles `source` with `regex::Regex::new` and keeps `source` beside the
/// compiled regex. Claimed: the result is `Ok` exactly where the pattern
/// compiles (`regex_compiles`, a function of the pattern alone), and the
/// pattern built holds `source` as its source; nothing is claimed of the
/// error's contents.
#[verifier::external_body]
fn compile_pattern(source: &str) -> (r: Result<Pattern, regex::Error>)
    ensures
        r is Ok <==> regex_compiles(source@),
        r matches Ok(p) ==> p@ == source@,
{
    match regex::Regex::new(source) {
        Ok(regex) => Ok(Pattern { source: source.to_string(), regex }),
        Err(e) => Err(e),
    }
}

impl View for Pattern {
    type V = Seq<char>;

    closed spec fn view(&self) -> Seq<char> {
        self.source@
    }
}

/// Searches with `regex::Regex::captures`, then reads group `group` of the
/// match (`Captures::get`, `Match::as_str`). Claimed: the result is the
/// named `regex_capture` of the pattern's source, the haystack and the
/// group, and a text found is a contiguous part of the haystack (the
/// documentation of `Match::as_str`: "the substring of the haystack that
/// matched"). Relies on `pattern.regex` having been compiled from
/// `pattern.source`, which `compile_pattern`, the only constructor, does.
#[verifier::external_body]
fn capture_group(pattern: &Pattern, haystack: &str, group: usize) -> (r: Option<String>)
    ensures
        opt_view(r) == regex_capture(pattern@, haystack@, group),
        r matches Some(s) ==> is_infix_of(s@, haystack@),
{
    match pattern.regex.captures(haystack) {
        Some(caps) => match caps.get(group) {
            Some(m) => Some(m.as_str().to_string()),
            None => None,
        },
        None => None,
    }
}

impl Pattern {
    /// Compiles `source`; fails exactly where `regex::Regex::new` does.
    pub fn compile(source: &str) -> (r: Result<Pattern, PatternError>)
        ensures
            r is Ok <==> regex_compiles(source@),
            r matches Ok(p) ==> p@ == source@,
            r matches Err(e) ==> e == PatternError::Invalid,
    {
        match compile_pattern(source) {
            Ok(pattern) => Ok(pattern),
            Err(_) => Err(PatternError::Invalid),
        }
    }

    /// The text of capture group `group` of the first match in `haystack`.
    pub fn capture(&self, haystack: &str, group: usize) -> (r: Option<String>)
        ensures
            opt_view(r) == regex_capture(self@, haystack@, group),
            r matches Some(s) ==> is_infix_of(s@, haystack@),
    {
        capture_group(self, haystack, group)
    }
}

} // verus!
