//! Grapheme-cluster counting, the unit in which columns are measured.

use unicode_segmentation::UnicodeSegmentation;
use vstd::prelude::*;

verus! {

/// The number of extended grapheme clusters in a text, as
/// `unicode_segmentation` segments it.
pub uninterp spec fn grapheme_count(text: Seq<char>) -> nat;

/// Counts the extended grapheme clusters of `text` by running
/// `UnicodeSegmentation::graphemes(text, true)` to its end.
///
/// Trusted: the segmentation tables are fixed data of the crate, so the
/// count depends on the characters of `text` alone; the contract only gives
/// that count its name.
#[verifier::external_body]
pub(crate) fn count_graphemes(text: &str) -> (count: usize)
    ensures
        count == grapheme_count(text@),
{
    text.graphemes(true).count()
}

} // verus!
