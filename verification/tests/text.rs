use rtxt::text::{push_decimal, push_spaces};

#[test]
fn push_spaces_appends_that_many() {
    let mut out = String::from("a");
    push_spaces(&mut out, 3);
    assert_eq!(out, "a   ");
    push_spaces(&mut out, 0);
    assert_eq!(out, "a   ");
}

#[test]
fn push_decimal_writes_the_digits() {
    let mut out = String::from("n=");
    push_decimal(&mut out, 0);
    assert_eq!(out, "n=0");
    push_decimal(&mut out, 7);
    assert_eq!(out, "n=07");
    push_decimal(&mut out, 10);
    assert_eq!(out, "n=0710");
    let mut big = String::new();
    push_decimal(&mut big, 1234567890);
    assert_eq!(big, "1234567890");
    let mut max = String::new();
    push_decimal(&mut max, usize::MAX);
    assert_eq!(max, format!("{}", usize::MAX));
}
