//! Editing a text that is given as its pieces, one behind the other.

use crate::text::{push_spaces, spaces};
use vstd::prelude::*;

verus! {

/// How wide a tab is drawn and typed, in spaces.
pub const TAB_WIDTH: usize = 4;

/// `i`, brought into `0..=n`.
pub open spec fn clamp(i: int, n: int) -> int {
    if i < 0 {
        0
    } else if i > n {
        n
    } else {
        i
    }
}

/// The text of the pieces `from..to`. `to` is cut to the number of pieces
/// and `from` to `to`, so every range is a valid one.
pub open spec fn span(pieces: Seq<Seq<char>>, from: int, to: int) -> Seq<char> {
    let to = clamp(to, pieces.len() as int);
    let from = clamp(from, to);
    pieces.subrange(from, to).flatten()
}

/// What typing `c` puts into a text: four spaces for a tab, else `c`
/// itself.
pub open spec fn typed(c: char) -> Seq<char> {
    if c == '\t' {
        spaces(TAB_WIDTH as nat)
    } else {
        seq![c]
    }
}

/// The text after `c` was typed before piece `at`: behind the last piece
/// where there is no piece `at`.
pub open spec fn typed_into(pieces: Seq<Seq<char>>, at: int, c: char) -> Seq<char> {
    span(pieces, 0, at) + typed(c) + span(pieces, at, pieces.len() as int)
}

/// The text without piece `at`: all of it where there is no piece `at`.
pub open spec fn removed_from(pieces: Seq<Seq<char>>, at: int) -> Seq<char> {
    span(pieces, 0, at) + span(pieces, at + 1, pieces.len() as int)
}

/// What is cut off when the text is cut before piece `at`: the pieces from
/// `at` on, behind `at` spaces that stand where the other pieces stood.
pub open spec fn cut_off(pieces: Seq<Seq<char>>, at: int) -> Seq<char> {
    spaces(at as nat) + span(pieces, at, pieces.len() as int)
}

/// How a piece is drawn: a tab as four spaces, any other as it is.
pub open spec fn drawn(piece: Seq<char>) -> Seq<char> {
    if piece == seq!['\t'] {
        spaces(TAB_WIDTH as nat)
    } else {
        piece
    }
}

/// Each of `pieces` as it is drawn.
pub open spec fn drawn_each(pieces: Seq<Seq<char>>) -> Seq<Seq<char>> {
    Seq::new(pieces.len(), |i: int| drawn(pieces[i]))
}

/// What is drawn for the pieces `start..end`: each of them as `drawn` gives
/// it. `end` is cut to the number of pieces and `start` to `end`.
pub open spec fn drawn_span(pieces: Seq<Seq<char>>, start: int, end: int) -> Seq<char> {
    let end = clamp(end, pieces.len() as int);
    let start = clamp(start, end);
    drawn_each(pieces.subrange(start, end)).flatten()
}

/// Taking one more piece into a range appends that piece to the joined text.
pub proof fn lemma_range_step(pieces: Seq<Seq<char>>, from: int, to: int)
    requires
        0 <= from <= to < pieces.len(),
    ensures
        pieces.subrange(from, to + 1).flatten() == pieces.subrange(from, to).flatten()
            + pieces[to],
{
    assert(pieces.subrange(from, to + 1) =~= pieces.subrange(from, to).push(pieces[to]));
    pieces.subrange(from, to).lemma_flatten_push(pieces[to]);
}

/// A range joined with the range that follows it is the range over both.
pub proof fn lemma_range_join(pieces: Seq<Seq<char>>, from: int, mid: int, to: int)
    requires
        0 <= from <= mid <= to <= pieces.len(),
    ensures
        pieces.subrange(from, to).flatten() == pieces.subrange(from, mid).flatten()
            + pieces.subrange(mid, to).flatten(),
    decreases to - mid,
{
    if mid < to {
        lemma_range_join(pieces, from, mid, to - 1);
        lemma_range_step(pieces, from, to - 1);
        lemma_range_step(pieces, mid, to - 1);
    }
}

/// The pieces before `at` and the pieces from `at` on make up the text.
pub proof fn lemma_span_halves(pieces: Seq<Seq<char>>, at: int)
    ensures
        span(pieces, 0, at) + span(pieces, at, pieces.len() as int) == pieces.flatten(),
{
    let cut = clamp(at, pieces.len() as int);
    lemma_range_join(pieces, 0, cut, pieces.len() as int);
    assert(pieces.subrange(0, pieces.len() as int) =~= pieces);
}

/// Appends the pieces `from..to` to `out`, in order. `to` is cut to the
/// number of pieces and `from` to `to`.
pub fn append_span(out: &mut String, pieces: &Vec<String>, from: usize, to: usize)
    ensures
        final(out)@ == old(out)@ + span(pieces.deep_view(), from as int, to as int),
{
    let to = if to < pieces.len() {
        to
    } else {
        pieces.len()
    };
    let from = if from < to {
        from
    } else {
        to
    };
    let mut i = from;
    while i < to
        invariant
            from <= i <= to <= pieces.len(),
            out@ == old(out)@ + pieces.deep_view().subrange(from as int, i as int).flatten(),
        decreases to - i,
    {
        out.append(pieces[i].as_str());
        proof {
            lemma_range_step(pieces.deep_view(), from as int, i as int);
        }
        i += 1;
    }
}

/// Appends to `out` what typing `c` puts into a text.
pub fn push_typed(out: &mut String, c: char)
    ensures
        final(out)@ == old(out)@ + typed(c),
{
    if c == '\t' {
        push_spaces(out, TAB_WIDTH);
    } else {
        out.push(c);
    }
}

/// The text of `pieces` after `c` was typed before piece `at`: behind the
/// last piece where there is no piece `at`. A tab is typed as four spaces.
pub fn type_into(pieces: &Vec<String>, at: usize, c: char) -> (text: String)
    ensures
        text@ == typed_into(pieces.deep_view(), at as int, c),
{
    let mut text = String::new();
    append_span(&mut text, pieces, 0, at);
    push_typed(&mut text, c);
    append_span(&mut text, pieces, at, pieces.len());
    text
}

/// The text of `pieces` without piece `at`: all of it where there is no
/// piece `at`.
pub fn remove_from(pieces: &Vec<String>, at: usize) -> (text: String)
    ensures
        text@ == removed_from(pieces.deep_view(), at as int),
{
    let mut text = String::new();
    append_span(&mut text, pieces, 0, at);
    if at < pieces.len() {
        append_span(&mut text, pieces, at + 1, pieces.len());
    }
    text
}

/// Cuts the text of `pieces` before piece `at`: what is kept, the pieces
/// before `at`, and what is cut off, the pieces from `at` on behind `at`
/// spaces.
pub fn cut(pieces: &Vec<String>, at: usize) -> (parts: (String, String))
    ensures
        parts.0@ == span(pieces.deep_view(), 0, at as int),
        parts.1@ == cut_off(pieces.deep_view(), at as int),
{
    let mut kept = String::new();
    append_span(&mut kept, pieces, 0, at);
    let mut rest = String::new();
    push_spaces(&mut rest, at);
    append_span(&mut rest, pieces, at, pieces.len());
    (kept, rest)
}

/// Whether `piece` is a tab and nothing else.
fn is_tab(piece: &str) -> (b: bool)
    ensures
        b == (piece@ == seq!['\t']),
{
    let b = piece.unicode_len() == 1 && piece.get_char(0) == '\t';
    proof {
        if b {
            assert(piece@ =~= seq!['\t']);
        }
    }
    b
}

/// What is drawn for the pieces `start..end`: each piece as it stands, but
/// a tab as four spaces. A range that reaches past the last piece is cut to
/// it, and one that starts behind its end is empty.
pub fn draw(pieces: &Vec<String>, start: usize, end: usize) -> (out: String)
    ensures
        out@ == drawn_span(pieces.deep_view(), start as int, end as int),
{
    let end = if end < pieces.len() {
        end
    } else {
        pieces.len()
    };
    let start = if start < end {
        start
    } else {
        end
    };
    let mut out = String::new();
    let mut i = start;
    let ghost all = pieces.deep_view();
    while i < end
        invariant
            start <= i <= end <= pieces.len(),
            all == pieces.deep_view(),
            out@ == drawn_each(all.subrange(start as int, i as int)).flatten(),
        decreases end - i,
    {
        if is_tab(pieces[i].as_str()) {
            push_spaces(&mut out, TAB_WIDTH);
        } else {
            out.append(pieces[i].as_str());
        }
        proof {
            let sofar = drawn_each(all.subrange(start as int, i as int));
            assert(drawn_each(all.subrange(start as int, i + 1)) =~= sofar.push(
                drawn(all[i as int]),
            ));
            sofar.lemma_flatten_push(drawn(all[i as int]));
        }
        i += 1;
    }
    out
}

} // verus!
