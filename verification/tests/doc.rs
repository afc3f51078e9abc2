use rtxt::lines::split_lines;
use rtxt::{Doc, Position};

fn texts(doc: &Doc) -> Vec<String> {
    let mut rows = Vec::new();
    let mut index = 0;
    while let Some(row) = doc.row(index) {
        rows.push(String::from(row.as_str()));
        index += 1;
    }
    assert_eq!(index, doc.len());
    rows
}

fn two_rows() -> Doc {
    Doc::open("notes.txt", "ab\ncde\n")
}

#[test]
fn default_doc_is_empty() {
    let doc = Doc::default();
    assert!(doc.is_empty());
    assert_eq!(doc.len(), 0);
    assert!(doc.row(0).is_none());
    assert!(doc.filename().is_none());
}

#[test]
fn open_makes_a_row_of_each_line() {
    let doc = two_rows();
    assert_eq!(texts(&doc), vec!["ab", "cde"]);
    assert_eq!(doc.len(), 2);
    assert!(!doc.is_empty());
    assert_eq!(doc.filename().map(|name| name.as_str()), Some("notes.txt"));
}

#[test]
fn open_of_an_empty_file_has_no_row() {
    let doc = Doc::open("empty", "");
    assert!(doc.is_empty());
    assert_eq!(doc.filename().map(|name| name.as_str()), Some("empty"));
}

#[test]
fn row_is_absent_past_the_end() {
    let doc = two_rows();
    assert_eq!(doc.row(0).map(|row| row.as_str()), Some("ab"));
    assert_eq!(doc.row(1).map(|row| row.as_str()), Some("cde"));
    assert!(doc.row(2).is_none());
    assert!(doc.row(usize::MAX).is_none());
}

#[test]
fn insert_newline_splits_the_row_and_pads_the_rest() {
    let mut doc = two_rows();
    doc.insert_line(&Position { x: 1, y: 0 });
    assert_eq!(texts(&doc), vec!["a", " b", "cde"]);
}

#[test]
fn insert_of_a_line_feed_breaks_the_line() {
    let mut doc = two_rows();
    doc.insert(&Position { x: 1, y: 0 }, '\n');
    assert_eq!(texts(&doc), vec!["a", " b", "cde"]);
    doc.insert(&Position { x: 3, y: 2 }, '\n');
    assert_eq!(texts(&doc), vec!["a", " b", "cde", "   "]);
    doc.insert(&Position { x: 0, y: 0 }, '\n');
    assert_eq!(texts(&doc), vec!["", "a", " b", "cde", "   "]);
}

#[test]
fn insert_newline_one_past_the_last_row_adds_an_empty_row() {
    let mut doc = two_rows();
    doc.insert_line(&Position { x: 7, y: 2 });
    assert_eq!(texts(&doc), vec!["ab", "cde", ""]);
    let mut empty = Doc::default();
    empty.insert(&Position { x: 0, y: 0 }, '\n');
    assert_eq!(texts(&empty), vec![""]);
}

#[test]
fn insert_newline_further_down_does_nothing() {
    let mut doc = two_rows();
    doc.insert_line(&Position { x: 0, y: 3 });
    doc.insert(&Position { x: 0, y: usize::MAX }, '\n');
    assert_eq!(texts(&doc), vec!["ab", "cde"]);
}

#[test]
fn insert_types_into_the_row() {
    let mut doc = two_rows();
    doc.insert(&Position { x: 1, y: 1 }, 'x');
    assert_eq!(texts(&doc), vec!["ab", "cxde"]);
    doc.insert(&Position { x: 9, y: 0 }, 'y');
    assert_eq!(texts(&doc), vec!["aby", "cxde"]);
    doc.insert(&Position { x: 0, y: 0 }, '\t');
    assert_eq!(texts(&doc), vec!["    aby", "cxde"]);
}

#[test]
fn insert_one_past_the_last_row_appends_exactly_one_row() {
    let mut doc = two_rows();
    doc.insert(&Position { x: 0, y: 2 }, 'x');
    assert_eq!(doc.len(), 3);
    assert_eq!(texts(&doc), vec!["ab", "cde", "x"]);
    doc.insert(&Position { x: 5, y: 3 }, 'y');
    assert_eq!(texts(&doc), vec!["ab", "cde", "x", "y"]);
    let mut empty = Doc::default();
    empty.insert(&Position { x: 0, y: 0 }, 'z');
    assert_eq!(texts(&empty), vec!["z"]);
}

#[test]
fn insert_further_down_does_nothing() {
    let mut doc = two_rows();
    doc.insert(&Position { x: 0, y: 3 }, 'x');
    doc.insert(&Position { x: 0, y: usize::MAX }, 'x');
    assert_eq!(texts(&doc), vec!["ab", "cde"]);
}

#[test]
fn delete_at_the_end_of_a_row_joins_the_next_row() {
    let mut doc = two_rows();
    doc.delete(&Position { x: 2, y: 0 });
    assert_eq!(doc.len(), 1);
    assert_eq!(texts(&doc), vec!["abcde"]);
    assert_eq!(doc.row(0).map(|row| row.len()), Some(5));
}

#[test]
fn delete_joins_only_the_next_row() {
    let mut doc = Doc::open("f", "a\nb\nc\nd");
    doc.delete(&Position { x: 1, y: 1 });
    assert_eq!(texts(&doc), vec!["a", "bc", "d"]);
}

#[test]
fn delete_in_a_row_removes_a_cluster() {
    let mut doc = two_rows();
    doc.delete(&Position { x: 1, y: 1 });
    assert_eq!(texts(&doc), vec!["ab", "ce"]);
    doc.delete(&Position { x: 0, y: 0 });
    assert_eq!(texts(&doc), vec!["b", "ce"]);
}

#[test]
fn delete_at_the_end_of_the_last_row_does_nothing() {
    let mut doc = two_rows();
    doc.delete(&Position { x: 3, y: 1 });
    assert_eq!(texts(&doc), vec!["ab", "cde"]);
}

#[test]
fn delete_past_the_end_of_a_row_does_nothing() {
    let mut doc = two_rows();
    doc.delete(&Position { x: 3, y: 0 });
    doc.delete(&Position { x: usize::MAX, y: 1 });
    assert_eq!(texts(&doc), vec!["ab", "cde"]);
}

#[test]
fn delete_below_the_last_row_does_nothing() {
    let mut doc = two_rows();
    doc.delete(&Position { x: 0, y: 2 });
    doc.delete(&Position { x: 0, y: usize::MAX });
    assert_eq!(texts(&doc), vec!["ab", "cde"]);
    let mut empty = Doc::default();
    empty.delete(&Position { x: 0, y: 0 });
    assert!(empty.is_empty());
}

#[test]
fn edits_keep_the_filename() {
    let mut doc = two_rows();
    doc.insert(&Position { x: 0, y: 0 }, 'x');
    doc.insert(&Position { x: 0, y: 0 }, '\n');
    doc.delete(&Position { x: 0, y: 0 });
    assert_eq!(doc.filename().map(|name| name.as_str()), Some("notes.txt"));
}

#[test]
fn save_writes_each_row_with_a_line_feed() {
    let doc = two_rows();
    assert_eq!(doc.save(), Some(String::from("ab\ncde\n")));
    let unterminated = Doc::open("f", "ab\ncde");
    assert_eq!(unterminated.save(), Some(String::from("ab\ncde\n")));
    let empty = Doc::open("f", "");
    assert_eq!(empty.save(), Some(String::new()));
}

#[test]
fn save_without_a_file_writes_nothing() {
    let mut doc = Doc::default();
    doc.insert(&Position { x: 0, y: 0 }, 'x');
    assert_eq!(doc.save(), None);
}

#[test]
fn save_after_open_gives_back_the_lines() {
    for contents in ["", "ab\ncde\n", "one", "\n\nx\n", "a\tb\n  c", "e\u{301}\n\u{1F1F7}\u{1F1FA}\n"] {
        let lines = split_lines(contents);
        let saved = Doc::open("f", contents).save().unwrap();
        assert_eq!(split_lines(&saved), lines);
        let again = Doc::open("f", &saved);
        assert_eq!(texts(&again), lines);
        assert_eq!(again.save().unwrap(), saved);
    }
}

#[test]
fn a_line_that_ends_in_a_carriage_return_is_not_read_back() {
    let doc = Doc::open("f", "a\r");
    assert_eq!(texts(&doc), vec!["a\r"]);
    let saved = doc.save().unwrap();
    assert_eq!(saved, "a\r\n");
    assert_eq!(texts(&Doc::open("f", &saved)), vec!["a"]);
}

#[test]
fn insert_one_past_the_last_row_makes_a_row_of_the_character_alone() {
    let mut doc = two_rows();
    doc.insert(&Position { x: 4, y: 2 }, '\t');
    assert_eq!(texts(&doc), vec!["ab", "cde", "\t"]);
    assert_eq!(doc.row(2).map(|row| row.len()), Some(1));
    assert_eq!(doc.row(2).map(|row| row.render(0, 1)), Some(String::from("    ")));
}
