//! The trusted boundary around the regular-expression engine: a pattern is
//! compiled once into a matcher, and the matcher is applied read-only to one
//! row's text at a time.

use vstd::prelude::*;

verus! {

#[verifier::external_type_specification]
#[verifier::external_body]
pub struct ExRegex(regex::Regex);

/// Whether the engine accepts a pattern string: compilation succeeds or fails
/// depending on the pattern text alone.
pub uninterp spec fn pattern_ok(pattern: Seq<char>) -> bool;

/// The text captured by the group at the given index within the leftmost
/// match of the pattern in the text, or `None` when the pattern does not
/// match, the index corresponds to no group of the pattern, or the group did
/// not participate in that match. The result depends on the three arguments
/// alone.
pub uninterp spec fn group_capture(pattern: Seq<char>, text: Seq<char>, group: int) -> Option<
    Seq<char>,
>;

/// A pattern compiled once per invocation and then applied to every row.
/// The pattern text it was compiled from is kept beside the engine's compiled
/// form so that contracts can speak of it.
pub struct CompiledPattern {
    re: regex::Regex,
    pattern: String,
}

impl CompiledPattern {
    /// The pattern text this matcher was compiled from.
    pub closed spec fn spec_pattern(&self) -> Seq<char> {
        self.pattern@
    }
}

/// Relies on `regex::Regex::new`: it returns `Ok` exactly when the pattern is
/// syntactically valid (and within the default size limit), a function of the
/// pattern text alone, here named `pattern_ok`.
#[verifier::external_body]
pub(crate) fn compile(pattern: &str) -> (r: Option<CompiledPattern>)
    ensures
        r is Some <==> pattern_ok(pattern@),
        r matches Some(cp) ==> cp.spec_pattern() == pattern@,
{
    match regex::Regex::new(pattern) {
        Ok(re) => Some(CompiledPattern { re, pattern: pattern.to_string() }),
        Err(_) => None,
    }
}

/// Relies on `regex::Regex::captures`, `regex::Captures::get` and
/// `regex::Match::as_str`: for a compiled pattern, `captures` finds the
/// leftmost match if there is one, and `get` returns the substring of the
/// group at the given index if that group participated in the match. The
/// result depends only on the pattern, the text and the index, here named
/// `group_capture`. Group 0 is documented to stand for the whole match and to
/// be present whenever any group is.
#[verifier::external_body]
pub(crate) fn capture_group(cp: &CompiledPattern, text: &str, group: usize) -> (r: Option<String>)
    ensures
        r is Some <==> group_capture(cp.spec_pattern(), text@, group as int) is Some,
        r matches Some(s) ==> group_capture(cp.spec_pattern(), text@, group as int) == Some(s@),
        r is Some ==> group_capture(cp.spec_pattern(), text@, 0) is Some,
{
    match cp.re.captures(text) {
        Some(caps) => match caps.get(group) {
            Some(m) => Some(m.as_str().to_string()),
            None => None,
        },
        None => None,
    }
}

} // verus!
