//! What the window shows: the lines of a frame.

use crate::editor::Position;
use crate::text::{byte_len, decimal, spaces};
use vstd::prelude::*;

verus! {

/// What a row of the window shows below the end of the document.
pub const PLACEHOLDER: &'static str = "~";

/// What the welcome line says, before the version.
pub const BANNER: &'static str = "Rtxt editor -- version ";

/// The version that the welcome line gives.
pub const VERSION: &'static str = "0.1.0";

/// The name shown for a document without a file.
pub const NO_NAME: &'static str = "No Name";

/// What is shown once the editor has quit.
pub const FAREWELL: &'static str = "Successfully Quit.";

/// For how long a message is shown, in milliseconds.
pub const MESSAGE_LIFETIME: u64 = 5000;

/// `a - b`, and 0 where `b` is the greater.
pub open spec fn minus(a: int, b: int) -> nat {
    if a > b {
        (a - b) as nat
    } else {
        0
    }
}

/// The welcome line for a window `width` columns wide: a placeholder, then
/// the banner with the version, moved towards the middle by spaces, and all
/// of it cut to the width of the window.
pub open spec fn welcome(width: int) -> Seq<char> {
    let message = BANNER@ + VERSION@;
    let padding = minus(width, message.len() as int) / 2;
    let line = PLACEHOLDER@ + spaces(minus(padding as int, 1)) + message;
    if width < line.len() {
        line.take(width)
    } else {
        line
    }
}

/// The status bar for a window `width` columns wide: the name of the file
/// and the number of rows at the left, the cursor at the right, and between
/// them the spaces that fill the bar, counting each byte of both as a
/// column.
pub open spec fn status_bar(name: Option<Seq<char>>, rows: nat, cursor: Position, width: int) -> Seq<
    char,
> {
    let name = match name {
        Some(name) => name,
        None => NO_NAME@,
    };
    let left = name + seq![' '] + decimal(rows);
    let right = decimal(cursor.x as nat) + seq![',', ' '] + decimal(cursor.y as nat);
    left + spaces(minus(minus(width, byte_len(left) as int) as int, byte_len(right) as int))
        + right
}

/// The message bar for a window `width` columns wide, at time `now`: the
/// message that was set at time `since`, filled up with spaces, counting
/// each byte of it as a column, while it is younger than
/// `MESSAGE_LIFETIME`; after that spaces only.
pub open spec fn message_bar(message: Seq<char>, since: u64, now: u64, width: int) -> Seq<char> {
    if now - since < MESSAGE_LIFETIME {
        message + spaces(minus(width, byte_len(message) as int))
    } else {
        spaces(width as nat)
    }
}

/// What is to be drawn.
pub enum Frame {
    /// The editor has quit: the window is cleared and shows `FAREWELL`.
    Farewell,
    /// The window of a running editor.
    Screen {
        /// The rows that show the document, from the top.
        rows: Vec<String>,
        /// The status bar, which is drawn below the rows.
        status: String,
        /// The message bar, which is drawn below the status bar.
        message: String,
        /// Where in the window the cursor is.
        cursor: Position,
    },
}

} // verus!
