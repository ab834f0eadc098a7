use judger::checker::check_files;

#[test]
fn equal_texts_are_equivalent() {
    assert!(check_files("3 4\n", "3 4\n"));
}

#[test]
fn trailing_whitespace_per_line_is_ignored() {
    assert!(check_files("a \t\nbb   \n", "a\nbb\n"));
}

#[test]
fn trailing_newline_is_ignored() {
    assert!(check_files("1\n2\n", "1\n2"));
}

#[test]
fn extra_trailing_blank_lines_are_ignored() {
    assert!(check_files("1\n2\n\n\n", "1\n2"));
    assert!(check_files("1\n2\n   \n\t\n", "1\n2\n"));
}

#[test]
fn carriage_returns_are_trailing_whitespace() {
    assert!(check_files("1\r\n2\r\n", "1\n2\n"));
    assert!(check_files("1\r\n2", "1\n2\n"));
}

#[test]
fn differing_content_is_not_equivalent() {
    assert!(!check_files("7\n", "8\n"));
    assert!(!check_files("1\n2\n", "1\n3\n"));
}

#[test]
fn leading_whitespace_is_significant() {
    assert!(!check_files(" a\n", "a\n"));
}

#[test]
fn interior_whitespace_is_significant() {
    assert!(!check_files("a b\n", "ab\n"));
    assert!(!check_files("a  b\n", "a b\n"));
}

#[test]
fn missing_lines_are_significant() {
    assert!(!check_files("1\n2\n", "1\n"));
    assert!(!check_files("1\n", "1\n2\n"));
}

#[test]
fn empty_and_blank_outputs() {
    assert!(check_files("", ""));
    assert!(check_files("", "\n"));
    assert!(check_files("\n", "  \n"));
    assert!(!check_files("", "x"));
}

#[test]
fn symmetry_on_samples() {
    let cases = [("1\n2\n", "1\n2"), ("7\n", "8\n"), ("a \n", "a\n"), ("", "\n")];
    for (a, b) in cases {
        assert_eq!(check_files(a, b), check_files(b, a));
    }
}
