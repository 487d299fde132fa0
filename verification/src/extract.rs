//! Per-row capture extraction, and the laws it obeys.

use vstd::prelude::*;

use crate::matcher::CompiledPattern;
use crate::matcher::capture_group;
use crate::matcher::group_capture;

verus! {

/// The character sequences of a row of optional text, as the engine sees it:
/// an absent row is coerced to empty text rather than propagated as null.
pub open spec fn row_text(row: Option<Seq<char>>) -> Seq<char> {
    match row {
        Some(t) => t,
        None => Seq::empty(),
    }
}

/// The view of one optional text row.
pub open spec fn opt_view(row: Option<String>) -> Option<Seq<char>> {
    match row {
        Some(s) => Some(s@),
        None => None,
    }
}

/// The character sequences of a batch of produced rows.
pub open spec fn texts(rows: Seq<String>) -> Seq<Seq<char>> {
    rows.map_values(|s: String| s@)
}

/// What extraction yields for one row: the requested capture group of the
/// leftmost match in the row's text, or the empty string when the pattern
/// does not match, the group does not exist or did not participate, or the
/// group index is no representable position.
pub open spec fn spec_row_out(pattern: Seq<char>, row: Option<Seq<char>>, group: int) -> Seq<char> {
    if 0 <= group <= usize::MAX {
        match group_capture(pattern, row_text(row), group) {
            Some(captured) => captured,
            None => Seq::empty(),
        }
    } else {
        Seq::empty()
    }
}

/// Extract the requested capture group from one row's text with an
/// already-compiled pattern; any failure to capture yields the empty string.
pub(crate) fn single_regex_extract(input_str: &str, regexp: &CompiledPattern, group: usize) -> (out:
    String)
    ensures
        out@ == spec_row_out(regexp.spec_pattern(), Some(input_str@), group as int),
        group_capture(regexp.spec_pattern(), input_str@, group as int) is Some ==> group_capture(
            regexp.spec_pattern(),
            input_str@,
            0,
        ) is Some,
{
    match capture_group(regexp, input_str, group) {
        Some(captured) => captured,
        None => String::new(),
    }
}

/// Law: group 0 stands for the whole match. Whenever the pattern matches a
/// row's text at all (the engine reports a full-match capture), extraction
/// with group index 0 yields exactly that full-match text, never the
/// empty-string fallback.
pub proof fn lemma_group_zero_full_match(pattern: Seq<char>, row: Option<Seq<char>>)
    ensures
        group_capture(pattern, row_text(row), 0) is Some ==> spec_row_out(pattern, row, 0)
            == group_capture(pattern, row_text(row), 0)->0,
{
}

/// Law: an absent row behaves exactly like a present empty-string row; both
/// are coerced to the same empty text before matching, so every group index
/// yields the same output for the two.
pub proof fn lemma_absent_row_like_empty(pattern: Seq<char>, empty_row: Seq<char>, group: int)
    ensures
        empty_row.len() == 0 ==> spec_row_out(pattern, Some(empty_row), group) == spec_row_out(
            pattern,
            None,
            group,
        ),
{
    if empty_row.len() == 0 {
        assert(empty_row =~= Seq::<char>::empty());
    }
}

} // verus!
