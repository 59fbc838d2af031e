//! Unified line diffs between two texts, headed by `<name>.orig` and
//! `<name>.new`.
use vstd::prelude::*;

verus! {

/// The unified diff that similar renders for two texts compared line by
/// line, under the given header labels.
pub uninterp spec fn unified_diff_of(
    original: Seq<char>,
    updated: Seq<char>,
    old_label: Seq<char>,
    new_label: Seq<char>,
) -> Seq<char>;

/// The two header lines of a unified diff.
pub open spec fn diff_header(old_label: Seq<char>, new_label: Seq<char>) -> Seq<char> {
    "--- "@ + old_label + "\n"@ + "+++ "@ + new_label + "\n"@
}

/// The name that labels the two sides: the one given, else `file`.
pub open spec fn display_name(filename: Option<&str>) -> Seq<char> {
    match filename {
        Some(n) => n@,
        None => "file"@,
    }
}

/// The label of the original side.
pub open spec fn orig_label(filename: Option<&str>) -> Seq<char> {
    display_name(filename) + ".orig"@
}

/// The label of the updated side.
pub open spec fn new_label(filename: Option<&str>) -> Seq<char> {
    display_name(filename) + ".new"@
}

/// Relies on similar's `TextDiff::from_lines`, `TextDiff::unified_diff`,
/// `UnifiedDiff::header` and `UnifiedDiff`'s `Display` (through `to_string`).
/// Equal texts give only `Equal` operations, which form no hunk, and the
/// output is empty. Different texts give at least one hunk, and the header
/// lines are written before the first.
#[verifier::external_body]
fn render_unified_diff(original: &str, updated: &str, old_label: &str, new_label: &str) -> (r:
    String)
    ensures
        r@ == unified_diff_of(original@, updated@, old_label@, new_label@),
        original@ == updated@ ==> r@.len() == 0,
        original@ != updated@ ==> r@.len() >= diff_header(old_label@, new_label@).len()
            && r@.take(diff_header(old_label@, new_label@).len() as int) == diff_header(
            old_label@,
            new_label@,
        ),
{
    similar::TextDiff::from_lines(original, updated).unified_diff().header(
        old_label,
        new_label,
    ).to_string()
}

/// Renders the unified diff from `original` to `updated`, compared line by
/// line. The header names the sides `<name>.orig` and `<name>.new`, where
/// `name` is `filename` or `file`. Equal texts give the empty string; other
/// texts give the header followed by the hunks.
pub fn unified_diff(original: &str, updated: &str, filename: Option<&str>) -> (r: String)
    ensures
        r@ == unified_diff_of(original@, updated@, orig_label(filename), new_label(filename)),
        original@ == updated@ ==> r@.len() == 0,
        original@ != updated@ ==> r@.len() >= diff_header(
            orig_label(filename),
            new_label(filename),
        ).len() && r@.take(
            diff_header(orig_label(filename), new_label(filename)).len() as int,
        ) == diff_header(orig_label(filename), new_label(filename)),
{
    let name = match filename {
        Some(n) => n,
        None => "file",
    };
    let old_side = String::from_str(name).concat(".orig");
    let new_side = String::from_str(name).concat(".new");
    render_unified_diff(original, updated, old_side.as_str(), new_side.as_str())
}

} // verus!
