//! A document: rows of text, one below the other.

use crate::editor::Position;
use crate::lines::{joined, lines_of, split_lines};
use crate::row::{deleted, inserted, kept, split_off, Row};
use crate::segment::cluster_count;
use vstd::prelude::*;

verus! {

/// `rows` after a line break was typed at column `x` of row `y`. At a row
/// of the document the row is cut before cluster `x`, and what follows the
/// cut becomes the next row, behind `x` spaces. One past the last row an
/// empty row is added. Further down nothing changes.
pub open spec fn with_line_break(rows: Seq<Seq<char>>, x: int, y: int) -> Seq<Seq<char>> {
    if y > rows.len() {
        rows
    } else if y == rows.len() {
        rows.push(Seq::empty())
    } else {
        rows.update(y, kept(rows[y], x)).insert(y + 1, split_off(rows[y], x))
    }
}

/// `rows` after `c` was typed at column `x` of row `y`. A line feed breaks
/// the line. Any other character is typed into row `y`; one past the last
/// row it makes a row of its own, which holds `c` and nothing else; further
/// down nothing changes.
pub open spec fn with_char(rows: Seq<Seq<char>>, x: int, y: int, c: char) -> Seq<Seq<char>> {
    if c == '\n' {
        with_line_break(rows, x, y)
    } else if y == rows.len() {
        rows.push(seq![c])
    } else if y < rows.len() {
        rows.update(y, inserted(rows[y], x, c))
    } else {
        rows
    }
}

/// `rows` after the deletion at column `x` of row `y`. At the end of a row
/// that is not the last, the next row is joined onto it. Elsewhere in a row
/// cluster `x` goes, if there is one. Below the last row nothing changes.
pub open spec fn without_char(rows: Seq<Seq<char>>, x: int, y: int) -> Seq<Seq<char>> {
    if y >= rows.len() {
        rows
    } else if x == cluster_count(rows[y]) && y < rows.len() - 1 {
        rows.update(y, rows[y] + rows[y + 1]).remove(y + 1)
    } else {
        rows.update(y, deleted(rows[y], x))
    }
}

/// The rows of a text, and the name of the file it is kept in, if it has
/// one.
pub struct Doc {
    rows: Vec<Row>,
    filename: Option<String>,
}

impl View for Doc {
    type V = Seq<Seq<char>>;

    /// The texts of the rows, from the first row down.
    closed spec fn view(&self) -> Seq<Seq<char>> {
        Seq::new(self.rows.len() as nat, |i: int| self.rows[i]@)
    }
}

impl Default for Doc {
    /// The document without rows and without a file.
    fn default() -> (doc: Doc)
        ensures
            doc@ == Seq::<Seq<char>>::empty(),
            doc.name() is None,
    {
        let doc = Doc { rows: Vec::new(), filename: None };
        doc
    }
}

impl Doc {
    /// The document that the file `filename` holds, given what was read from
    /// it: one row for each line of `contents`, in their order.
    pub fn open(filename: &str, contents: &str) -> (doc: Doc)
        ensures
            doc@ == lines_of(contents@),
            doc.name() == Some(filename@),
    {
        let lines = split_lines(contents);
        let mut rows: Vec<Row> = Vec::new();
        let mut i: usize = 0;
        while i < lines.len()
            invariant
                i <= lines.len(),
                rows.len() == i,
                forall|k: int| 0 <= k < i ==> (#[trigger] rows[k])@ == lines[k]@,
            decreases lines.len() - i,
        {
            rows.push(Row::from_text(lines[i].as_str()));
            i += 1;
        }
        let doc = Doc { rows, filename: Some(String::from_str(filename)) };
        doc
    }

    /// What is to be written to the file of the document: each row with a
    /// line feed behind it, in their order. A document without a file has
    /// nothing to write.
    pub fn save(&self) -> (contents: Option<String>)
        ensures
            contents is Some == self.name() is Some,
            contents matches Some(text) ==> text@ == joined(self@),
    {
        if self.filename.is_none() {
            return None;
        }
        let mut text = String::new();
        let mut i: usize = 0;
        while i < self.rows.len()
            invariant
                i <= self.rows.len(),
                text@ == joined(self@.take(i as int)),
            decreases self.rows.len() - i,
        {
            text.append(self.rows[i].as_str());
            text.push('\n');
            proof {
                let upto = self@.take(i + 1);
                assert(upto.drop_last() =~= self@.take(i as int));
            }
            i += 1;
        }
        proof {
            assert(self@.take(i as int) =~= self@);
        }
        Some(text)
    }

    /// The name of the file the document is kept in, if it has one.
    pub closed spec fn name(&self) -> Option<Seq<char>> {
        match self.filename {
            Some(name) => Some(name@),
            None => None,
        }
    }

    /// The name of the file the document is kept in, if it has one.
    pub fn filename(&self) -> (name: Option<&String>)
        ensures
            name is Some == self.name() is Some,
            name matches Some(n) ==> self.name() == Some(n@),
    {
        self.filename.as_ref()
    }

    /// The number of rows.
    pub fn len(&self) -> (n: usize)
        ensures
            n == self@.len(),
    {
        self.rows.len()
    }

    /// Whether the document has no row.
    pub fn is_empty(&self) -> (b: bool)
        ensures
            b == (self@.len() == 0),
    {
        self.rows.is_empty()
    }

    /// The row at `index`, if the document has that many rows.
    pub fn row(&self, index: usize) -> (row: Option<&Row>)
        ensures
            row is Some == (index < self@.len()),
            row matches Some(r) ==> r@ == self@[index as int],
    {
        if index < self.rows.len() {
            Some(&self.rows[index])
        } else {
            None
        }
    }

    /// Types a line break at `at`.
    pub fn insert_line(&mut self, at: &Position)
        ensures
            final(self)@ == with_line_break(old(self)@, at.x as int, at.y as int),
            final(self).name() == old(self).name(),
    {
        if at.y > self.rows.len() {
            return ;
        } else if at.y == self.rows.len() {
            self.rows.push(Row::default());
        } else {
            let new = self.rows[at.y].split(at.x);
            self.rows.insert(at.y + 1, new);
        }
    }

    /// Types `c` at `at`. One past the last row this adds exactly one row,
    /// below the others.
    pub fn insert(&mut self, at: &Position, c: char)
        ensures
            final(self)@ == with_char(old(self)@, at.x as int, at.y as int, c),
            final(self).name() == old(self).name(),
            at.y == old(self)@.len() ==> {
                &&& final(self)@.len() == old(self)@.len() + 1
                &&& final(self)@.drop_last() == old(self)@
            },
    {
        if c == '\n' {
            self.insert_line(at);
            return ;
        }
        if at.y == self.rows.len() {
            let mut text = String::new();
            text.push(c);
            self.rows.push(Row::from_text(text.as_str()));
        } else if at.y < self.rows.len() {
            self.rows[at.y].insert(at.x, c);
        }
    }

    /// Deletes at `at`. At the end of a row that is not the last this takes
    /// exactly one row away, the next, and puts its text behind that of the
    /// row.
    pub fn delete(&mut self, at: &Position)
        ensures
            final(self)@ == without_char(old(self)@, at.x as int, at.y as int),
            final(self).name() == old(self).name(),
            at.y + 1 < old(self)@.len() && at.x == cluster_count(old(self)@[at.y as int]) ==> {
                &&& final(self)@.len() == old(self)@.len() - 1
                &&& final(self)@[at.y as int] == old(self)@[at.y as int] + old(self)@[at.y + 1]
                &&& final(self)@.remove(at.y as int) == old(self)@.remove(at.y as int).remove(
                    at.y as int,
                )
            },
    {
        if at.y >= self.rows.len() {
            return ;
        }
        if at.x == self.rows[at.y].len() && at.y < self.rows.len() - 1 {
            let next = self.rows.remove(at.y + 1);
            self.rows[at.y].append(&next);
        } else {
            self.rows[at.y].delete(at.x);
        }
    }
}

} // verus!
