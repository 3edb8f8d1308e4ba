//! The diff engine: a unified diff of two line-oriented texts.

use vstd::prelude::*;
use vstd::string::StrSliceExecFns;
use imara_diff::intern::InternedInput;
use imara_diff::{diff, Algorithm, UnifiedDiffBuilder};

verus! {

/// The longest text, in characters, that the diff engine takes. The differ
/// counts lines in 32 bits, doubles the count of distinct lines, and
/// multiplies a text's length in bytes by twenty in a `usize`; below this
/// bound none of these can overflow, also where `usize` has 32 bits.
pub const MAX_TEXT_LEN: usize = 0x0200_0000;

/// Whether a text is short enough to be compared.
pub open spec fn comparable(text: Seq<char>) -> bool {
    text.len() <= MAX_TEXT_LEN
}

/// The unified diff that the histogram algorithm gives for two texts: hunks
/// headed by `@@` lines, with three lines of context, each line behind a
/// space, `-` or `+`.
pub uninterp spec fn unified_diff_text(before: Seq<char>, after: Seq<char>) -> Seq<char>;

/// Splits both texts into lines with `InternedInput::new` and runs
/// `imara_diff::diff` with `Algorithm::Histogram` into a
/// `UnifiedDiffBuilder`. The contract names the result, which depends on the
/// two texts alone, and claims one fact of it: equal texts share every line,
/// so no hunk is written and the result is empty.
#[verifier::external_body]
fn histogram_unified_diff(before: &str, after: &str) -> (out: String)
    requires
        comparable(before@),
        comparable(after@),
    ensures
        out@ == unified_diff_text(before@, after@),
        before@ == after@ ==> out@.len() == 0,
{
    let input = InternedInput::new(before, after);
    diff(Algorithm::Histogram, &input, UnifiedDiffBuilder::new(&input))
}

/// Whether `text` is short enough to be compared.
pub fn is_comparable(text: &str) -> (fits: bool)
    ensures
        fits == comparable(text@),
{
    text.unicode_len() <= MAX_TEXT_LEN
}

/// The unified diff from `before` to `after`. It is empty where the two are
/// equal, and the same two texts always give the same diff.
pub fn unified_diff(before: &str, after: &str) -> (out: String)
    requires
        comparable(before@),
        comparable(after@),
    ensures
        out@ == unified_diff_text(before@, after@),
        before@ == after@ ==> out@ == Seq::<char>::empty(),
{
    let out = histogram_unified_diff(before, after);
    assert(before@ == after@ ==> out@ =~= Seq::<char>::empty());
    out
}

/// The unified diff from `before` to `after`, or `None` where one of them is
/// too long to be compared.
pub fn checked_unified_diff(before: &str, after: &str) -> (out: Option<String>)
    ensures
        out is Some <==> comparable(before@) && comparable(after@),
        out matches Some(text) ==> text@ == unified_diff_text(before@, after@),
        out matches Some(text) ==> (before@ == after@ ==> text@ == Seq::<char>::empty()),
{
    if is_comparable(before) && is_comparable(after) {
        Some(unified_diff(before, after))
    } else {
        None
    }
}

} // verus!
