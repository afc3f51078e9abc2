//! Grapheme clusters: the unit in which a row counts its columns.

use unicode_segmentation::UnicodeSegmentation;
use vstd::prelude::*;

verus! {

/// The extended grapheme clusters of `text`, in order, as
/// `UnicodeSegmentation::graphemes(text, true)` yields them.
pub uninterp spec fn grapheme_clusters(text: Seq<char>) -> Seq<Seq<char>>;

/// `pieces` cut `text` into consecutive parts, none of them empty.
pub open spec fn is_partition(pieces: Seq<Seq<char>>, text: Seq<char>) -> bool {
    &&& pieces.flatten() == text
    &&& forall|i: int| 0 <= i < pieces.len() ==> (#[trigger] pieces[i]).len() > 0
}

/// The clusters of `text` are a partition of it. Every text that has been
/// segmented is known to be so.
pub open spec fn segmented(text: Seq<char>) -> bool {
    is_partition(grapheme_clusters(text), text)
}

/// How many clusters `text` has.
pub open spec fn cluster_count(text: Seq<char>) -> nat {
    grapheme_clusters(text).len()
}

/// Segments `text` with `UnicodeSegmentation::graphemes(text, true)` and
/// copies each cluster into a `String`.
///
/// Trusted: the result is what the name `grapheme_clusters` stands for, and,
/// as the iterator hands out one non-empty slice after the other from the
/// start of `text` to its end, the clusters are a partition of `text`.
#[verifier::external_body]
pub(crate) fn clusters_of(text: &str) -> (pieces: Vec<String>)
    ensures
        pieces.deep_view() == grapheme_clusters(text@),
        is_partition(pieces.deep_view(), text@),
{
    text.graphemes(true).map(String::from).collect()
}

/// Pieces that are not empty are no more than the characters they hold.
pub proof fn lemma_pieces_bounded(pieces: Seq<Seq<char>>)
    requires
        forall|i: int| 0 <= i < pieces.len() ==> (#[trigger] pieces[i]).len() > 0,
    ensures
        pieces.len() <= pieces.flatten().len(),
    decreases pieces.len(),
{
    if pieces.len() > 0 {
        lemma_pieces_bounded(pieces.drop_first());
    }
}

/// A segmented text has no more clusters than characters, and none only
/// where it is empty.
pub proof fn lemma_cluster_count(text: Seq<char>)
    requires
        segmented(text),
    ensures
        cluster_count(text) <= text.len(),
        cluster_count(text) == 0 <==> text.len() == 0,
{
    lemma_pieces_bounded(grapheme_clusters(text));
}

} // verus!
