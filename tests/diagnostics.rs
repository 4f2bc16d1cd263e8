use muxi::diagnostics::{line_range, parse_line_number};

#[test]
fn line_number_after_chunk_name() {
    assert_eq!(
        parse_line_number("[string \"init.lua\"]:5: unexpected symbol near '}'"),
        Some(5)
    );
}

#[test]
fn line_number_between_last_two_colons() {
    assert_eq!(parse_line_number("init.lua:12: syntax error"), Some(12));
    assert_eq!(parse_line_number("init.lua: 7 :oops"), Some(7));
}

#[test]
fn no_line_number() {
    assert_eq!(parse_line_number("no colon at all"), None);
    assert_eq!(parse_line_number("one: colon"), None);
    assert_eq!(parse_line_number("chunk]: abc"), None);
    assert_eq!(parse_line_number("a:99999999999999999999999:b"), None);
}

#[test]
fn ranges_of_lines() {
    let code = "a\nbc\r\n\nd";
    assert_eq!(line_range(code, 0), None);
    assert_eq!(line_range(code, 1), Some((0, 1)));
    assert_eq!(line_range(code, 2), Some((2, 2)));
    assert_eq!(line_range(code, 3), Some((6, 0)));
    assert_eq!(line_range(code, 4), Some((7, 1)));
    assert_eq!(line_range(code, 5), None);
}

#[test]
fn ranges_count_bytes() {
    assert_eq!(line_range("", 1), Some((0, 0)));
    assert_eq!(line_range("é\nx", 2), Some((3, 1)));
    assert_eq!(line_range("x\n", 2), None);
}
