use rtxt::lines::split_lines;

fn lines(contents: &str) -> Vec<String> {
    split_lines(contents)
}

#[test]
fn split_lines_of_nothing_is_no_line() {
    assert_eq!(lines(""), Vec::<String>::new());
}

#[test]
fn split_lines_at_line_feeds() {
    assert_eq!(lines("ab\ncde\n"), vec!["ab", "cde"]);
    assert_eq!(lines("ab\ncde"), vec!["ab", "cde"]);
    assert_eq!(lines("ab"), vec!["ab"]);
}

#[test]
fn split_lines_keeps_empty_lines() {
    assert_eq!(lines("\n"), vec![""]);
    assert_eq!(lines("\n\n"), vec!["", ""]);
    assert_eq!(lines("a\n\nb"), vec!["a", "", "b"]);
    assert_eq!(lines("\na"), vec!["", "a"]);
}

#[test]
fn split_lines_drops_a_carriage_return_before_a_line_feed() {
    assert_eq!(lines("ab\r\ncde\r\n"), vec!["ab", "cde"]);
    assert_eq!(lines("\r\n"), vec![""]);
    assert_eq!(lines("a\r\r\nb"), vec!["a\r", "b"]);
}

#[test]
fn split_lines_keeps_other_carriage_returns() {
    assert_eq!(lines("a\rb\n"), vec!["a\rb"]);
    assert_eq!(lines("ab\r"), vec!["ab\r"]);
    assert_eq!(lines("\r"), vec!["\r"]);
    assert_eq!(lines("\r\ra"), vec!["\r\ra"]);
}

#[test]
fn split_lines_agrees_with_std() {
    for contents in ["", "a", "a\n", "a\r\n\r\nb\r", "\n\r\n", "x\r\ry\n\nz", "é\n\u{1F1F7}\u{1F1FA}"] {
        let expected: Vec<String> = contents.lines().map(String::from).collect();
        assert_eq!(lines(contents), expected);
    }
}
