//! The cursor, the viewport and what a key does to them.

use crate::doc::{with_char, without_char, Doc};
use crate::lines::{joined, lines_of};
use crate::pieces::TAB_WIDTH;
use crate::row::{rendered, Row};
use crate::screen::{
    message_bar, minus, status_bar, welcome, Frame, BANNER, MESSAGE_LIFETIME, NO_NAME,
    PLACEHOLDER, VERSION,
};
use crate::segment::cluster_count;
use crate::terminal::Size;
use crate::text::{decimal, push_decimal, push_spaces};
use vstd::prelude::*;

verus! {

/// A place in a document: column `x`, counted in grapheme clusters, in row
/// `y`.
#[derive(Clone, Copy, Debug, PartialEq, Eq)]
pub struct Position {
    pub x: usize,
    pub y: usize,
}

impl Default for Position {
    /// The first column of the first row.
    fn default() -> (position: Position)
        ensures
            position.x == 0,
            position.y == 0,
    {
        Position { x: 0, y: 0 }
    }
}

/// A key as the editor tells them apart.
#[derive(Clone, Copy, Debug, PartialEq, Eq)]
pub enum Key {
    Char(char),
    Ctrl(char),
    Backspace,
    Delete,
    Up,
    Down,
    Left,
    Right,
    PageUp,
    PageDown,
    Home,
    End,
    /// Any key that the editor does not act on.
    Other,
}

/// How many clusters row `y` of `rows` has: none where there is no such row.
pub open spec fn row_len(rows: Seq<Seq<char>>, y: int) -> nat {
    if 0 <= y < rows.len() {
        cluster_count(rows[y])
    } else {
        0
    }
}

/// `i + 1`, as far as a `usize` reaches.
pub open spec fn next(i: usize) -> usize {
    if i < usize::MAX {
        (i + 1) as usize
    } else {
        i
    }
}

/// Where `key` sends the cursor from `at`, before the column is held to the
/// row it comes to stand in. The document has `height` rows, the row of the
/// cursor has `width` clusters and the row above it `width_above`.
pub open spec fn aimed(at: Position, key: Key, height: nat, width: nat, width_above: nat) -> Position {
    match key {
        Key::Up => Position {
            x: at.x,
            y: if at.y > 0 {
                (at.y - 1) as usize
            } else {
                0
            },
        },
        Key::Down => Position {
            x: at.x,
            y: if at.y < height {
                (at.y + 1) as usize
            } else {
                at.y
            },
        },
        Key::Left => if at.x > 0 {
            Position { x: (at.x - 1) as usize, y: at.y }
        } else if at.y > 0 {
            Position { x: width_above as usize, y: (at.y - 1) as usize }
        } else {
            at
        },
        Key::Right => if at.x == width {
            Position { x: 0, y: next(at.y) }
        } else {
            Position { x: next(at.x), y: at.y }
        },
        Key::PageUp => Position { x: at.x, y: 0 },
        Key::PageDown => Position { x: at.x, y: height as usize },
        Key::Home => Position { x: 0, y: at.y },
        Key::End => Position { x: width as usize, y: at.y },
        _ => at,
    }
}

/// `at` with its column held to a row of `width` clusters.
pub open spec fn held(at: Position, width: nat) -> Position {
    if at.x > width {
        Position { x: width as usize, y: at.y }
    } else {
        at
    }
}

/// Where the cursor stands after `key`, coming from `at`: where the key
/// sends it, with the column held to the length of the row it comes to
/// stand in, and so to the first column where it stands in no row.
pub open spec fn moved(rows: Seq<Seq<char>>, at: Position, key: Key) -> Position {
    let to = aimed(at, key, rows.len(), row_len(rows, at.y as int), row_len(rows, at.y - 1));
    held(to, row_len(rows, to.y as int))
}

/// Where `key` sends the cursor from `at`, before the column is held to the
/// row it comes to stand in. The document has `height` rows, the row of the
/// cursor has `width` clusters and the row above it `width_above`.
pub fn aim(at: Position, key: Key, height: usize, width: usize, width_above: usize) -> (to: Position)
    ensures
        to == aimed(at, key, height as nat, width as nat, width_above as nat),
{
    let Position { mut x, mut y } = at;
    match key {
        Key::Up => {
            y = y.saturating_sub(1);
        },
        Key::Down => {
            if y < height {
                y = y.saturating_add(1);
            }
        },
        Key::Left => {
            if x == 0 {
                if y > 0 {
                    y = y - 1;
                    x = width_above;
                }
            } else {
                x = x - 1;
            }
        },
        Key::Right => {
            if x == width {
                y = y.saturating_add(1);
                x = 0;
            } else {
                x = x.saturating_add(1);
            }
        },
        Key::PageUp => {
            y = 0;
        },
        Key::PageDown => {
            y = height;
        },
        Key::Home => {
            x = 0;
        },
        Key::End => {
            x = width;
        },
        _ => {},
    }
    Position { x, y }
}

/// `at` with its column held to a row of `width` clusters.
pub fn hold(at: Position, width: usize) -> (to: Position)
    ensures
        to == held(at, width as nat),
        to.x <= width,
{
    if at.x > width {
        Position { x: width, y: at.y }
    } else {
        at
    }
}

/// `at` after `key` was pressed `times` times.
pub open spec fn moved_times(rows: Seq<Seq<char>>, at: Position, key: Key, times: nat) -> Position
    decreases times,
{
    if times == 0 {
        at
    } else {
        moved(rows, moved_times(rows, at, key, (times - 1) as nat), key)
    }
}

/// `at` after the keys of `keys` were pressed, one after the other.
pub open spec fn moved_along(rows: Seq<Seq<char>>, at: Position, keys: Seq<Key>) -> Position
    decreases keys.len(),
{
    if keys.len() == 0 {
        at
    } else {
        moved(rows, moved_along(rows, at, keys.drop_last()), keys.last())
    }
}

/// `at` is in a column of the row it is in, or at its end: in the first
/// column where it is in no row.
pub open spec fn in_its_row(rows: Seq<Seq<char>>, at: Position) -> bool {
    at.x <= row_len(rows, at.y as int)
}

/// Whatever keys are pressed, and wherever the cursor was before, after
/// each of them the cursor is in a column of the row it is in, or at its
/// end.
pub proof fn lemma_moves_hold_column(rows: Seq<Seq<char>>, at: Position, keys: Seq<Key>)
    ensures
        forall|n: int|
            0 < n <= keys.len() ==> in_its_row(rows, #[trigger] moved_along(rows, at, keys.take(n))),
{
    assert forall|n: int| 0 < n <= keys.len() implies in_its_row(
        rows,
        #[trigger] moved_along(rows, at, keys.take(n)),
    ) by {
        let sofar = keys.take(n);
    }
}

/// How near the left edge of the window the cursor may come before the
/// window moves left.
pub const MARGIN: usize = 3;

/// `i`, as far as a `usize` reaches.
pub open spec fn capped(i: int) -> usize {
    if i > usize::MAX {
        usize::MAX
    } else if i < 0 {
        0
    } else {
        i as usize
    }
}

/// The first row shown, so that the row of the cursor is: the window goes
/// up to a cursor above it, and down to a cursor below it just as far as
/// brings the cursor to its last row.
pub open spec fn scrolled_y(cursor: int, offset: int, visible: int) -> int {
    if cursor < offset {
        cursor
    } else if cursor >= offset + visible {
        cursor - visible + 1
    } else {
        offset
    }
}

/// The first column shown, so that the column of the cursor is: the window
/// goes left to keep `MARGIN` columns before the cursor, as far as there
/// are that many, and right to a cursor behind it just as far as brings the
/// cursor to its last column.
pub open spec fn scrolled_x(cursor: int, offset: int, visible: int) -> int {
    if cursor <= offset + MARGIN {
        if cursor > MARGIN {
            cursor - MARGIN
        } else {
            0
        }
    } else if cursor >= offset + visible {
        cursor - visible + 1
    } else {
        offset
    }
}

/// The place of the document shown in the top left corner of a window of
/// `size`, when it was `offset` and the cursor has come to `cursor`.
pub open spec fn scrolled(cursor: Position, offset: Position, size: Size) -> Position {
    Position {
        x: capped(scrolled_x(cursor.x as int, offset.x as int, size.width as int)),
        y: capped(scrolled_y(cursor.y as int, offset.y as int, size.text_rows())),
    }
}

/// The window that has followed the cursor shows it: its row where the
/// window has a row for text, and its column where the window is wider than
/// the margin.
pub proof fn lemma_scrolled_shows_cursor(cursor: Position, offset: Position, size: Size)
    ensures
        size.text_rows() > 0 ==> scrolled(cursor, offset, size).y <= cursor.y < scrolled(
            cursor,
            offset,
            size,
        ).y + size.text_rows(),
        size.width > MARGIN ==> scrolled(cursor, offset, size).x <= cursor.x < scrolled(
            cursor,
            offset,
            size,
        ).x + size.width,
{
}

/// The first row shown after the cursor has come to row `cursor`.
fn scroll_rows(cursor: usize, offset: usize, visible: usize) -> (first: usize)
    ensures
        first == capped(scrolled_y(cursor as int, offset as int, visible as int)),
{
    if cursor < offset {
        cursor
    } else {
        match offset.checked_add(visible) {
            Some(below) => if cursor >= below {
                (cursor - visible).saturating_add(1)
            } else {
                offset
            },
            None => offset,
        }
    }
}

/// The first column shown after the cursor has come to column `cursor`.
fn scroll_columns(cursor: usize, offset: usize, visible: usize) -> (first: usize)
    ensures
        first == capped(scrolled_x(cursor as int, offset as int, visible as int)),
{
    if cursor.saturating_sub(MARGIN) <= offset {
        cursor.saturating_sub(MARGIN)
    } else {
        match offset.checked_add(visible) {
            Some(behind) => if cursor >= behind {
                (cursor - visible).saturating_add(1)
            } else {
                offset
            },
            None => offset,
        }
    }
}

/// What the message bar says, and when it began to say so.
pub struct StatusMessage {
    pub text: String,
    pub time: u64,
}

/// What the status is at the start.
pub const GREETING: &'static str = "Hello rtxt";

/// What the status is after the file could not be read; the name of the
/// file follows.
pub const OPEN_FAILED: &'static str = "Err: Failed to open ";

/// What the status is after the document was written.
pub const SAVED: &'static str = "Successfully saved.";

/// What the status is after the document could not be written.
pub const SAVE_FAILED: &'static str = "Failed to saved.";

/// The state of an editor, as the contracts speak of it.
pub struct State {
    /// The texts of the rows of the document.
    pub rows: Seq<Seq<char>>,
    /// The name of the file of the document, if it has one.
    pub name: Option<Seq<char>>,
    pub cursor: Position,
    /// The place of the document shown in the top left corner of the window.
    pub offset: Position,
    pub size: Size,
    pub quit: bool,
    /// What the message bar says.
    pub status: Seq<char>,
    /// When the message bar began to say so.
    pub since: u64,
}

/// The state after `c` was typed: it stands in the document where the
/// cursor was, and the cursor has gone on behind it: down for a line feed,
/// and right for any other character, four times for a tab.
pub open spec fn after_char(s: State, c: char) -> State {
    let rows = with_char(s.rows, s.cursor.x as int, s.cursor.y as int, c);
    let cursor = if c == '\n' {
        moved(rows, s.cursor, Key::Down)
    } else if c == '\t' {
        moved_times(rows, s.cursor, Key::Right, TAB_WIDTH as nat)
    } else {
        moved(rows, s.cursor, Key::Right)
    };
    State { rows, cursor, ..s }
}

/// The state after backspace: the cursor has gone left, and what stood
/// there is deleted.
pub open spec fn after_backspace(s: State) -> State {
    let cursor = moved(s.rows, s.cursor, Key::Left);
    State { rows: without_char(s.rows, cursor.x as int, cursor.y as int), cursor, ..s }
}

/// The state after `key`, before the window follows the cursor.
pub open spec fn acted(s: State, key: Key, now: u64) -> State {
    match key {
        Key::Ctrl(c) => if c == 'q' {
            State { quit: true, ..s }
        } else if c == 's' && s.name is None {
            State { status: SAVED@, since: now, ..s }
        } else {
            s
        },
        Key::Char(c) => after_char(s, c),
        Key::Backspace => after_backspace(s),
        Key::Delete => State {
            rows: without_char(s.rows, s.cursor.x as int, s.cursor.y as int),
            ..s
        },
        Key::Other => s,
        _ => State { cursor: moved(s.rows, s.cursor, key), ..s },
    }
}

/// The state after `key` was pressed at time `now`.
pub open spec fn pressed(s: State, key: Key, now: u64) -> State {
    let s = acted(s, key, now);
    State { offset: scrolled(s.cursor, s.offset, s.size), ..s }
}

/// Whether `key` asks for the document to be written to its file.
pub open spec fn asks_to_write(s: State, key: Key) -> bool {
    key == Key::Ctrl('s') && s.name is Some
}

/// The state of an editor that starts in a window of `size` at time `now`.
/// With the name of a file and what was read from it, the document is that
/// of the file. With the name of a file that could not be read, the document
/// is empty and the status says so. Without a file the document is empty.
pub open spec fn started(
    size: Size,
    filename: Option<Seq<char>>,
    contents: Option<Seq<char>>,
    now: u64,
) -> State {
    let opened = filename is Some && contents is Some;
    State {
        rows: if opened {
            lines_of(contents->0)
        } else {
            Seq::empty()
        },
        name: if opened {
            filename
        } else {
            None
        },
        cursor: Position { x: 0, y: 0 },
        offset: Position { x: 0, y: 0 },
        size,
        quit: false,
        status: if filename is Some && contents is None {
            OPEN_FAILED@ + filename->0
        } else {
            GREETING@
        },
        since: now,
    }
}

/// What row `r` of the window shows: the row of the document that the
/// window has there, from the first column of the window on and as wide as
/// the window; below the end of the document a placeholder; and in an empty
/// document, a third of the height of the window down, the welcome line.
pub open spec fn screen_row(s: State, r: int) -> Seq<char> {
    let y = s.offset.y + r;
    if y < s.rows.len() {
        rendered(s.rows[y], s.offset.x as int, capped(s.offset.x + s.size.width) as int)
    } else if s.rows.len() == 0 && r == s.size.height / 3 {
        welcome(s.size.width as int)
    } else {
        PLACEHOLDER@
    }
}

/// What the rows of the window show, from the top.
pub open spec fn screen_rows(s: State) -> Seq<Seq<char>> {
    Seq::new(s.size.text_rows() as nat, |r: int| screen_row(s, r))
}

/// Where in the window the cursor is.
pub open spec fn screen_cursor(s: State) -> Position {
    Position {
        x: minus(s.cursor.x as int, s.offset.x as int) as usize,
        y: minus(s.cursor.y as int, s.offset.y as int) as usize,
    }
}

/// An editor: a document, the cursor in it, and the window on it.
pub struct Editor {
    should_quit: bool,
    size: Size,
    cursor: Position,
    offset: Position,
    document: Doc,
    status: StatusMessage,
}

impl View for Editor {
    type V = State;

    closed spec fn view(&self) -> State {
        State {
            rows: self.document@,
            name: self.document.name(),
            cursor: self.cursor,
            offset: self.offset,
            size: self.size,
            quit: self.should_quit,
            status: self.status.text@,
            since: self.status.time,
        }
    }
}

impl Editor {
    /// An editor that starts in a window of `size` at time `now`, on the
    /// file `filename` where one is given. `contents` is what was read from
    /// that file, and `None` where it could not be read.
    pub fn default(
        size: Size,
        filename: Option<&str>,
        contents: Option<&str>,
        now: u64,
    ) -> (editor: Editor)
        ensures
            editor@ == started(
                size,
                match filename {
                    Some(name) => Some(name@),
                    None => None,
                },
                match contents {
                    Some(text) => Some(text@),
                    None => None,
                },
                now,
            ),
    {
        let mut status = String::from_str(GREETING);
        let document = match filename {
            Some(name) => match contents {
                Some(text) => Doc::open(name, text),
                None => {
                    status = String::from_str(OPEN_FAILED);
                    status.append(name);
                    Doc::default()
                },
            },
            None => Doc::default(),
        };
        Editor {
            should_quit: false,
            size,
            cursor: Position::default(),
            offset: Position::default(),
            document,
            status: StatusMessage { text: status, time: now },
        }
    }

    /// Whether the editor has been asked to quit.
    pub fn should_quit(&self) -> (quit: bool)
        ensures
            quit == self@.quit,
    {
        self.should_quit
    }

    /// Where the cursor is in the document.
    pub fn cursor(&self) -> (cursor: Position)
        ensures
            cursor == self@.cursor,
    {
        self.cursor
    }

    /// The place of the document shown in the top left corner of the
    /// window.
    pub fn offset(&self) -> (offset: Position)
        ensures
            offset == self@.offset,
    {
        self.offset
    }

    /// The document.
    pub fn document(&self) -> (document: &Doc)
        ensures
            document@ == self@.rows,
            document.name() == self@.name,
    {
        &self.document
    }

    /// What the message bar says, and since when.
    pub fn status(&self) -> (status: &StatusMessage)
        ensures
            status.text@ == self@.status,
            status.time == self@.since,
    {
        &self.status
    }

    /// The welcome line.
    fn draw_welcome(&self) -> (line: String)
        ensures
            line@ == welcome(self@.size.width as int),
    {
        let mut message = String::from_str(BANNER);
        message.append(VERSION);
        let width = self.size.width as usize;
        let len = message.as_str().unicode_len();
        let padding = width.saturating_sub(len) / 2;
        let mut line = String::from_str(PLACEHOLDER);
        push_spaces(&mut line, padding.saturating_sub(1));
        line.append(message.as_str());
        if width < line.as_str().unicode_len() {
            String::from_str(line.as_str().substring_char(0, width))
        } else {
            line
        }
    }

    /// What the window shows of `row`.
    fn draw_row(&self, row: &Row) -> (line: String)
        ensures
            line@ == rendered(
                row@,
                self@.offset.x as int,
                capped(self@.offset.x + self@.size.width) as int,
            ),
    {
        let start = self.offset.x;
        let end = self.offset.x.saturating_add(self.size.width as usize);
        row.render(start, end)
    }

    /// What the rows of the window show, from the top.
    fn draw_rows(&self) -> (lines: Vec<String>)
        ensures
            lines.deep_view() == screen_rows(self@),
    {
        let height = self.size.visible_rows();
        let count = self.document.len();
        let mut lines: Vec<String> = Vec::new();
        let mut row_index: u16 = 0;
        while row_index < height
            invariant
                row_index <= height,
                height == self@.size.text_rows(),
                count == self@.rows.len(),
                lines.len() == row_index,
                forall|r: int| 0 <= r < row_index ==> (#[trigger] lines[r])@ == screen_row(self@, r),
            decreases height - row_index,
        {
            let shown = match self.offset.y.checked_add(row_index as usize) {
                Some(y) => self.document.row(y),
                None => None,
            };
            let line = match shown {
                Some(row) => self.draw_row(row),
                None => if count == 0 && row_index == self.size.height / 3 {
                    self.draw_welcome()
                } else {
                    String::from_str(PLACEHOLDER)
                },
            };
            lines.push(line);
            row_index += 1;
        }
        lines
    }

    /// The status bar.
    fn draw_status_bar(&self) -> (bar: String)
        ensures
            bar@ == status_bar(
                self@.name,
                self@.rows.len(),
                self@.cursor,
                self@.size.width as int,
            ),
    {
        let Position { x, y } = self.cursor;
        let width = self.size.width as usize;
        let lines = self.document.len();
        let mut status = match self.document.filename() {
            Some(file) => file.clone(),
            None => String::from_str(NO_NAME),
        };
        status.push(' ');
        push_decimal(&mut status, lines);
        let mut index = String::new();
        push_decimal(&mut index, x);
        index.append(", ");
        push_decimal(&mut index, y);
        proof {
            reveal_strlit(", ");
            assert(", "@ =~= seq![',', ' ']);
        }
        let room = width.saturating_sub(status.as_str().len()).saturating_sub(
            index.as_str().len(),
        );
        let ghost left = status@;
        push_spaces(&mut status, room);
        status.append(index.as_str());
        proof {
            assert(left =~= match self@.name {
                Some(name) => name,
                None => NO_NAME@,
            } + seq![' '] + decimal(lines as nat));
        }
        status
    }

    /// The message bar at time `now`.
    fn draw_message_bar(&self, now: u64) -> (bar: String)
        ensures
            bar@ == message_bar(self@.status, self@.since, now, self@.size.width as int),
    {
        let width = self.size.width as usize;
        let mut bar = String::new();
        if now.saturating_sub(self.status.time) < MESSAGE_LIFETIME {
            bar.append(self.status.text.as_str());
            push_spaces(&mut bar, width.saturating_sub(self.status.text.as_str().len()));
        } else {
            push_spaces(&mut bar, width);
        }
        bar
    }

    /// What is to be drawn at time `now`.
    pub fn refresh_screen(&self, now: u64) -> (frame: Frame)
        ensures
            self@.quit ==> frame is Farewell,
            !self@.quit ==> (frame matches Frame::Screen { rows, status, message, cursor } && {
                &&& rows.deep_view() == screen_rows(self@)
                &&& status@ == status_bar(
                    self@.name,
                    self@.rows.len(),
                    self@.cursor,
                    self@.size.width as int,
                )
                &&& message@ == message_bar(
                    self@.status,
                    self@.since,
                    now,
                    self@.size.width as int,
                )
                &&& cursor == screen_cursor(self@)
            }),
    {
        if self.should_quit {
            Frame::Farewell
        } else {
            Frame::Screen {
                rows: self.draw_rows(),
                status: self.draw_status_bar(),
                message: self.draw_message_bar(now),
                cursor: Position {
                    x: self.cursor.x.saturating_sub(self.offset.x),
                    y: self.cursor.y.saturating_sub(self.offset.y),
                },
            }
        }
    }

    /// The length of row `y` of the document, and 0 where it has no such
    /// row.
    fn width_of(&self, y: usize) -> (width: usize)
        ensures
            width == row_len(self@.rows, y as int),
    {
        match self.document.row(y) {
            Some(row) => row.len(),
            None => 0,
        }
    }

    /// Moves the cursor as `key` says, and holds its column to the row it
    /// comes to stand in.
    pub fn move_cursor(&mut self, key: Key)
        ensures
            final(self)@ == (State {
                cursor: moved(old(self)@.rows, old(self)@.cursor, key),
                ..old(self)@
            }),
            in_its_row(final(self)@.rows, final(self)@.cursor),
    {
        let at = self.cursor;
        let width = self.width_of(at.y);
        let width_above = if at.y > 0 {
            self.width_of(at.y - 1)
        } else {
            0
        };
        let to = aim(at, key, self.document.len(), width, width_above);
        self.cursor = hold(to, self.width_of(to.y));
    }

    /// Moves the window so that it shows the cursor.
    pub fn scroll(&mut self)
        ensures
            final(self)@ == (State {
                offset: scrolled(old(self)@.cursor, old(self)@.offset, old(self)@.size),
                ..old(self)@
            }),
    {
        let y = scroll_rows(self.cursor.y, self.offset.y, self.size.visible_rows() as usize);
        let x = scroll_columns(self.cursor.x, self.offset.x, self.size.width as usize);
        self.offset = Position { x, y };
    }

    /// Does what `key`, pressed at time `now`, asks for, and moves the
    /// window after the cursor. Where the key asks for the document to be
    /// written to its file, the text to write is returned, and the caller
    /// reports with `save_done` how the writing went.
    pub fn process_press(&mut self, key: Key, now: u64) -> (to_write: Option<String>)
        ensures
            final(self)@ == pressed(old(self)@, key, now),
            to_write is Some == asks_to_write(old(self)@, key),
            to_write matches Some(text) ==> text@ == joined(old(self)@.rows),
    {
        let mut to_write: Option<String> = None;
        match key {
            Key::Ctrl(c) => {
                if c == 'q' {
                    self.should_quit = true;
                } else if c == 's' {
                    to_write = self.document.save();
                    if to_write.is_none() {
                        self.status = StatusMessage { text: String::from_str(SAVED), time: now };
                    }
                }
            },
            Key::Char(c) => {
                self.document.insert(&self.cursor, c);
                if c == '\n' {
                    self.move_cursor(Key::Down);
                } else if c == '\t' {
                    let ghost typed = self@;
                    let mut i: usize = 0;
                    while i < TAB_WIDTH
                        invariant
                            i <= TAB_WIDTH,
                            self@ == (State {
                                cursor: moved_times(typed.rows, typed.cursor, Key::Right, i as nat),
                                ..typed
                            }),
                        decreases TAB_WIDTH - i,
                    {
                        self.move_cursor(Key::Right);
                        i += 1;
                    }
                } else {
                    self.move_cursor(Key::Right);
                }
            },
            Key::Backspace => {
                self.move_cursor(Key::Left);
                self.document.delete(&self.cursor);
            },
            Key::Delete => {
                self.document.delete(&self.cursor);
            },
            Key::Other => {},
            _ => {
                self.move_cursor(key);
            },
        }
        self.scroll();
        to_write
    }

    /// Takes note of how the writing of the document went.
    pub fn save_done(&mut self, written: bool, now: u64)
        ensures
            final(self)@ == (State {
                status: if written {
                    SAVED@
                } else {
                    SAVE_FAILED@
                },
                since: now,
                ..old(self)@
            }),
    {
        let text = if written {
            String::from_str(SAVED)
        } else {
            String::from_str(SAVE_FAILED)
        };
        self.status = StatusMessage { text, time: now };
    }
}

} // verus!
