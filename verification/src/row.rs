//! One line of text, edited by grapheme cluster.

use crate::pieces::{
    cut, cut_off, draw, drawn_span, lemma_range_join, lemma_span_halves, push_typed, remove_from,
    removed_from, span, type_into, typed, typed_into,
};
use crate::text::spaces;
use crate::segment::{
    cluster_count, clusters_of, grapheme_clusters, lemma_cluster_count, segmented,
};
use vstd::prelude::*;

verus! {

/// The text of the first `n` clusters of `text`: all of it where it has no
/// more than `n`.
pub open spec fn prefix(text: Seq<char>, n: int) -> Seq<char> {
    span(grapheme_clusters(text), 0, n)
}

/// The text of `text` from cluster `n` on: empty where it has no more than
/// `n`.
pub open spec fn suffix(text: Seq<char>, n: int) -> Seq<char> {
    span(grapheme_clusters(text), n, cluster_count(text) as int)
}

/// `text` after `c` was typed before cluster `at`; at the end where `text`
/// has no cluster `at`.
pub open spec fn inserted(text: Seq<char>, at: int, c: char) -> Seq<char> {
    if at >= cluster_count(text) {
        text + typed(c)
    } else {
        typed_into(grapheme_clusters(text), at, c)
    }
}

/// `text` without its cluster `at`; `text` itself where it has no such
/// cluster.
pub open spec fn deleted(text: Seq<char>, at: int) -> Seq<char> {
    if at >= cluster_count(text) {
        text
    } else {
        removed_from(grapheme_clusters(text), at)
    }
}

/// What `text` keeps when it is cut before cluster `at`: its first `at`
/// clusters.
pub open spec fn kept(text: Seq<char>, at: int) -> Seq<char> {
    prefix(text, at)
}

/// What is cut off when `text` is cut before cluster `at`: the clusters
/// from `at` on, behind `at` spaces.
pub open spec fn split_off(text: Seq<char>, at: int) -> Seq<char> {
    cut_off(grapheme_clusters(text), at)
}

/// What is drawn of `text` for the columns `start..end`: the clusters of
/// that range, as far as there are any, a tab as four spaces and any other
/// as it is.
pub open spec fn rendered(text: Seq<char>, start: int, end: int) -> Seq<char> {
    drawn_span(grapheme_clusters(text), start, end)
}

/// `c`, typed before cluster `at` of `text`, has come to stand as cluster
/// `at` of the new text, behind what stood before it. A character that
/// joins a neighbour to form one cluster with it does not, and a tab, typed
/// as spaces, does not either.
pub open spec fn stands_alone(text: Seq<char>, at: int, c: char) -> bool {
    let new = inserted(text, at, c);
    &&& at < cluster_count(new)
    &&& grapheme_clusters(new)[at] == seq![c]
    &&& prefix(new, at) == prefix(text, at)
}

/// To type a character and then to delete at the same column gives back the
/// text, and so the number of its clusters, when the character has come to
/// stand alone where it was typed.
pub proof fn lemma_insert_then_delete(text: Seq<char>, at: int, c: char)
    requires
        segmented(text),
        segmented(inserted(text, at, c)),
        0 <= at <= cluster_count(text),
        stands_alone(text, at, c),
    ensures
        deleted(inserted(text, at, c), at) == text,
        cluster_count(deleted(inserted(text, at, c), at)) == cluster_count(text),
{
    let new = inserted(text, at, c);
    let clusters = grapheme_clusters(new);
    let before = prefix(text, at);
    let behind = suffix(text, at);
    let rest = suffix(new, at + 1);
    lemma_span_halves(grapheme_clusters(text), at);
    lemma_range_join(clusters, 0, at, clusters.len() as int);
    lemma_range_join(clusters, at, at + 1, clusters.len() as int);
    assert(clusters.subrange(0, clusters.len() as int) =~= clusters);
    assert(clusters.subrange(at, at + 1) =~= seq![seq![c]]);
    seq![seq![c]].lemma_flatten_one_element();
    assert(new == before + (seq![c] + rest));
    assert(new[before.len() as int] == c);
    assert(rest =~= behind) by {
        assert forall|i: int| 0 <= i < rest.len() implies rest[i] == behind[i] by {
            assert(new[before.len() + 1 + i] == behind[i]);
        }
    }
}

/// To cut a text before cluster `at` loses nothing. What is cut off starts
/// with `at` spaces, and what is kept and what follows those spaces make up
/// the text. A text that has no cluster `at` is kept whole, and spaces only
/// are cut off.
pub proof fn lemma_split_parts(text: Seq<char>, at: int)
    requires
        segmented(text),
        0 <= at,
    ensures
        split_off(text, at).take(at) == spaces(at as nat),
        split_off(text, at).skip(at) == suffix(text, at),
        kept(text, at) + suffix(text, at) == text,
        at >= cluster_count(text) ==> kept(text, at) == text && split_off(text, at) == spaces(
            at as nat,
        ),
{
    lemma_span_halves(grapheme_clusters(text), at);
}

/// A line of text and the number of its grapheme clusters.
pub struct Row {
    string: String,
    len: usize,
}

impl View for Row {
    type V = Seq<char>;

    closed spec fn view(&self) -> Seq<char> {
        self.string@
    }
}

impl From<&str> for Row {
    /// The row that holds a copy of `slice`.
    fn from(slice: &str) -> (row: Row)
        ensures
            row@ == slice@,
            row.len() == cluster_count(row@),
    {
        Row::from_text(slice)
    }
}

/// No specification can make a `String`, so none gives the row that `from`
/// returns: the contract of `from` says what it is.
impl vstd::std_specs::convert::FromSpecImpl<&str> for Row {
    open spec fn obeys_from_spec() -> bool {
        false
    }

    open spec fn from_spec(slice: &str) -> Row {
        arbitrary()
    }
}

impl Default for Row {
    /// The row without text, and so without clusters.
    fn default() -> (row: Row)
        ensures
            row@ == Seq::<char>::empty(),
            row.len() == 0,
            cluster_count(row@) == 0,
    {
        proof {
            reveal_strlit("");
        }
        let row = Row::from_text("");
        proof {
            use_type_invariant(&row);
            lemma_cluster_count(row@);
        }
        row
    }
}

impl Row {
    /// The count is that of the text as it stands, and the text is cut by its
    /// clusters into non-empty parts.
    #[verifier::type_invariant]
    closed spec fn inv(&self) -> bool {
        &&& self.len == cluster_count(self.string@)
        &&& segmented(self.string@)
    }

    /// The number of clusters that the row holds its text to have.
    pub closed spec fn spec_len(&self) -> usize {
        self.len
    }

    /// The row that holds `string`, with its clusters counted.
    fn with_text(string: String) -> (row: Row)
        ensures
            row@ == string@,
            row.len() == cluster_count(row@),
    {
        let pieces = clusters_of(string.as_str());
        Row { string, len: pieces.len() }
    }

    /// The row that holds a copy of `slice`.
    pub fn from_text(slice: &str) -> (row: Row)
        ensures
            row@ == slice@,
            row.len() == cluster_count(row@),
    {
        Row::with_text(String::from_str(slice))
    }

    /// The text of the row.
    pub fn as_str(&self) -> (text: &str)
        ensures
            text@ == self@,
    {
        self.string.as_str()
    }

    /// The text drawn for the columns `start..end`: each cluster of that
    /// range as it stands, but a tab as four spaces. A range that reaches
    /// past the end is cut to it, and one that starts after it ends is empty.
    pub fn render(&self, start: usize, end: usize) -> (out: String)
        ensures
            out@ == rendered(self@, start as int, end as int),
    {
        let pieces = clusters_of(self.string.as_str());
        draw(&pieces, start, end)
    }

    /// The number of grapheme clusters of the text as it stands, whatever was
    /// done to the row before. The clusters of the text are a partition of
    /// it.
    #[verifier::when_used_as_spec(spec_len)]
    pub fn len(&self) -> (n: usize)
        ensures
            n == self.spec_len(),
            n == cluster_count(self@),
            segmented(self@),
    {
        proof {
            use_type_invariant(self);
        }
        self.len
    }

    /// Whether the row has no cluster, which is to say no text.
    pub fn is_empty(&self) -> (b: bool)
        ensures
            b == (cluster_count(self@) == 0),
            b == (self@.len() == 0),
    {
        proof {
            use_type_invariant(self);
            lemma_cluster_count(self@);
        }
        self.len == 0
    }

    /// Types `c` before cluster `at`, or at the end where the row has no
    /// cluster `at`. A tab is typed as four spaces.
    pub fn insert(&mut self, at: usize, c: char)
        ensures
            final(self)@ == inserted(old(self)@, at as int, c),
            final(self).len() == cluster_count(final(self)@),
    {
        proof {
            use_type_invariant(&*self);
        }
        let text = if at >= self.len {
            let mut text = self.string.clone();
            push_typed(&mut text, c);
            text
        } else {
            let pieces = clusters_of(self.string.as_str());
            type_into(&pieces, at, c)
        };
        *self = Row::with_text(text);
    }

    /// Removes cluster `at`. Does nothing where the row has no cluster `at`.
    pub fn delete(&mut self, at: usize)
        ensures
            final(self)@ == deleted(old(self)@, at as int),
            final(self).len() == cluster_count(final(self)@),
    {
        proof {
            use_type_invariant(&*self);
        }
        if at >= self.len {
            return ;
        }
        let pieces = clusters_of(self.string.as_str());
        *self = Row::with_text(remove_from(&pieces, at));
    }

    /// Puts the text of `rhs` behind the text of this row.
    pub fn append(&mut self, rhs: &Row)
        ensures
            final(self)@ == old(self)@ + rhs@,
            final(self).len() == cluster_count(final(self)@),
    {
        let mut text = self.string.clone();
        text.append(rhs.string.as_str());
        *self = Row::with_text(text);
    }

    /// Cuts the row before cluster `at`. The row keeps its first `at`
    /// clusters; the rest is returned as a row of its own, behind `at`
    /// spaces that stand where the kept clusters stood.
    pub fn split(&mut self, at: usize) -> (rest: Row)
        ensures
            final(self)@ == kept(old(self)@, at as int),
            final(self).len() == cluster_count(final(self)@),
            rest@ == split_off(old(self)@, at as int),
            rest.len() == cluster_count(rest@),
    {
        let pieces = clusters_of(self.string.as_str());
        let (kept, next) = cut(&pieces, at);
        *self = Row::with_text(kept);
        Row::with_text(next)
    }
}

} // verus!
