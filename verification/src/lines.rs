//! The text of a file as lines, and lines as the text of a file.

use vstd::prelude::*;
use vstd::std_specs::iter::IteratorSpec;

verus! {

/// Where the first line of `s` ends: the place of its first line feed, or
/// the length of `s` where it has none.
pub open spec fn line_end(s: Seq<char>) -> int
    decreases s.len(),
{
    if s.len() == 0 || s[0] == '\n' {
        0
    } else {
        1 + line_end(s.drop_first())
    }
}

/// `line` without the carriage return at its end, if it has one there.
pub open spec fn without_cr(line: Seq<char>) -> Seq<char> {
    if line.len() > 0 && line.last() == '\r' {
        line.drop_last()
    } else {
        line
    }
}

/// The lines of `s`. A line ends at a line feed, or at a carriage return
/// with a line feed behind it; neither belongs to the line. The last line
/// needs no line feed, and no line follows a line feed at the very end.
pub open spec fn lines_of(s: Seq<char>) -> Seq<Seq<char>>
    decreases s.len(),
{
    if s.len() == 0 {
        Seq::empty()
    } else {
        let end = line_end(s);
        if end >= s.len() {
            seq![s]
        } else {
            proof {
                lemma_line_end(s);
            }
            seq![without_cr(s.take(end))] + lines_of(s.skip(end + 1))
        }
    }
}

/// `lines` as one text: each line with a line feed behind it.
pub open spec fn joined(lines: Seq<Seq<char>>) -> Seq<char>
    decreases lines.len(),
{
    if lines.len() == 0 {
        Seq::empty()
    } else {
        joined(lines.drop_last()) + lines.last() + seq!['\n']
    }
}

/// No line feed stands in `line`, and no carriage return at its end: what a
/// line is written and read back as itself.
pub open spec fn is_plain_line(line: Seq<char>) -> bool {
    &&& forall|i: int| 0 <= i < line.len() ==> line[i] != '\n'
    &&& without_cr(line) == line
}

/// `line_end` finds the first line feed.
pub proof fn lemma_line_end(s: Seq<char>)
    ensures
        0 <= line_end(s) <= s.len(),
        forall|i: int| 0 <= i < line_end(s) ==> s[i] != '\n',
        line_end(s) < s.len() ==> s[line_end(s)] == '\n',
    decreases s.len(),
{
    if s.len() == 0 || s[0] == '\n' {
    } else {
        let rest = s.drop_first();
        lemma_line_end(rest);
        assert forall|i: int| 0 <= i < line_end(s) implies s[i] != '\n' by {
            if i > 0 {
                assert(s[i] == rest[i - 1]);
            }
        }
    }
}

/// A place with no line feed before it, and one at it or the end of `s`
/// there, is where the first line ends.
pub proof fn lemma_line_end_is(s: Seq<char>, end: int)
    requires
        0 <= end <= s.len(),
        forall|i: int| 0 <= i < end ==> s[i] != '\n',
        end < s.len() ==> s[end] == '\n',
    ensures
        line_end(s) == end,
{
    lemma_line_end(s);
}

/// Joined lines are the first line, a line feed, and the other lines joined.
pub proof fn lemma_joined_first(lines: Seq<Seq<char>>)
    requires
        lines.len() > 0,
    ensures
        joined(lines) == lines.first() + seq!['\n'] + joined(lines.drop_first()),
    decreases lines.len(),
{
    if lines.len() == 1 {
        assert(joined(lines.drop_last()) + lines.last() + seq!['\n'] =~= lines.first() + seq![
            '\n',
        ] + joined(lines.drop_first()));
    } else {
        let front = lines.drop_last();
        lemma_joined_first(front);
        assert(front.drop_first() =~= lines.drop_first().drop_last());
    }
}

/// Lines that are written and read again are the same lines, when none of
/// them holds a line feed or ends in a carriage return: a document that is
/// opened from what a document has saved has the rows of that document.
pub proof fn lemma_lines_round_trip(lines: Seq<Seq<char>>)
    requires
        forall|i: int| 0 <= i < lines.len() ==> is_plain_line(#[trigger] lines[i]),
    ensures
        lines_of(joined(lines)) == lines,
    decreases lines.len(),
{
    if lines.len() > 0 {
        let first = lines.first();
        let rest = lines.drop_first();
        let text = joined(lines);
        lemma_joined_first(lines);
        lemma_lines_round_trip(rest);
        lemma_line_end_is(text, first.len() as int);
        assert(text.take(first.len() as int) =~= first);
        assert(text.skip(first.len() as int + 1) =~= joined(rest));
    }
}

/// The line that starts at `start` and is cut off by the line feed at `end`
/// is the first of the lines from `start` on.
proof fn lemma_lines_step(s: Seq<char>, start: int, end: int)
    requires
        0 <= start <= end < s.len(),
        forall|k: int| start <= k < end ==> s[k] != '\n',
        s[end] == '\n',
    ensures
        lines_of(s.skip(start)) == seq![without_cr(s.subrange(start, end))] + lines_of(
            s.skip(end + 1),
        ),
{
    let tail = s.skip(start);
    lemma_line_end_is(tail, end - start);
    assert(tail.take(end - start) =~= s.subrange(start, end));
    assert(tail.skip(end - start + 1) =~= s.skip(end + 1));
}

/// What is left after the last line feed, if anything is, is the last line.
proof fn lemma_lines_last(s: Seq<char>, start: int)
    requires
        0 <= start <= s.len(),
        forall|k: int| start <= k < s.len() ==> s[k] != '\n',
    ensures
        lines_of(s.skip(start)) == if start < s.len() {
            seq![s.skip(start)]
        } else {
            Seq::empty()
        },
{
    let tail = s.skip(start);
    if start < s.len() {
        lemma_line_end_is(tail, tail.len() as int);
    }
}

/// Cuts `contents` into its lines.
pub fn split_lines(contents: &str) -> (lines: Vec<String>)
    ensures
        lines.deep_view() == lines_of(contents@),
{
    broadcast use vstd::string::group_string_axioms;

    let ghost s = contents@;
    let mut lines: Vec<String> = Vec::new();
    let mut line = String::new();
    // A carriage return was read and is held back: it belongs to the line
    // only if no line feed follows it.
    let mut held_cr = false;
    let mut begun = false;
    let mut it = contents.chars();
    let ghost mut start: int = 0;
    let ghost mut i: int = 0;
    proof {
        assert(s.skip(0) =~= s);
    }
    loop
        invariant
            s == contents@,
            0 <= start <= i <= s.len(),
            it.remaining() == s.skip(i),
            forall|k: int| start <= k < i ==> s[k] != '\n',
            s.subrange(start, i) == if held_cr {
                line@.push('\r')
            } else {
                line@
            },
            !held_cr ==> without_cr(line@) == line@,
            begun == (start < i),
            lines_of(s) == lines.deep_view() + lines_of(s.skip(start)),
        ensures
            i == s.len(),
        decreases s.len() - i,
    {
        match it.next() {
            None => {
                break ;
            },
            Some(c) => {
                if c == '\n' {
                    proof {
                        lemma_lines_step(s, start, i);
                        assert(without_cr(s.subrange(start, i)) == line@);
                    }
                    lines.push(line);
                    line = String::new();
                    held_cr = false;
                    begun = false;
                    proof {
                        start = i + 1;
                        i = i + 1;
                    }
                } else {
                    if held_cr {
                        line.push('\r');
                    }
                    if c == '\r' {
                        held_cr = true;
                    } else {
                        held_cr = false;
                        line.push(c);
                    }
                    begun = true;
                    proof {
                        i = i + 1;
                    }
                }
            },
        }
    }
    proof {
        lemma_lines_last(s, start);
    }
    if begun {
        if held_cr {
            line.push('\r');
        }
        lines.push(line);
    }
    lines
}

} // verus!
