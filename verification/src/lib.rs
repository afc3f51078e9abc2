//! The text buffer of a small terminal editor: rows of text addressed by
//! grapheme cluster, a document of rows, and the cursor and viewport that
//! follow the edits.

pub mod doc;
pub mod editor;
pub mod lines;
pub mod pieces;
pub mod row;
pub mod screen;
pub mod segment;
pub mod terminal;
pub mod text;

pub use doc::Doc;
pub use editor::{Editor, Key, Position};
pub use row::Row;
pub use terminal::Size;
