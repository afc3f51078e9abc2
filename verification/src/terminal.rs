//! The size of the terminal window.

use vstd::prelude::*;

verus! {

/// How many rows at the bottom of the window are kept for the status bar and
/// the message bar.
pub const RESERVED_ROWS: u16 = 2;

/// The size of the terminal window, in character cells.
#[derive(Clone, Copy, Debug, PartialEq, Eq)]
pub struct Size {
    pub width: u16,
    pub height: u16,
}

impl Size {
    /// The rows of the window that show the document: all but the reserved
    /// ones.
    pub open spec fn text_rows(self) -> int {
        if self.height >= RESERVED_ROWS {
            self.height - RESERVED_ROWS
        } else {
            0
        }
    }

    /// The rows of the window that show the document: all but the reserved
    /// ones.
    pub fn visible_rows(&self) -> (rows: u16)
        ensures
            rows == self.text_rows(),
    {
        if self.height >= RESERVED_ROWS {
            self.height - RESERVED_ROWS
        } else {
            0
        }
    }
}

} // verus!
