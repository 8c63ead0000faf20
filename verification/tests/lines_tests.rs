use mcp_stdio_http_bridge::lines::{clean_input_line, terminated_line};

#[test]
fn line_endings_are_stripped() {
    assert_eq!(clean_input_line("hello\n").as_deref(), Some("hello"));
    assert_eq!(clean_input_line("hello\r\n").as_deref(), Some("hello"));
    assert_eq!(clean_input_line("hello").as_deref(), Some("hello"));
}

#[test]
fn blank_lines_are_discarded() {
    assert_eq!(clean_input_line(""), None);
    assert_eq!(clean_input_line("\n"), None);
    assert_eq!(clean_input_line("\r\n"), None);
}

#[test]
fn whitespace_only_lines_are_discarded() {
    assert_eq!(clean_input_line("   \n"), None);
    assert_eq!(clean_input_line("\t \t\r\n"), None);
    assert_eq!(clean_input_line("  "), None);
}

#[test]
fn unicode_whitespace_only_lines_are_discarded() {
    assert_eq!(clean_input_line("\u{a0}\n"), None);
    assert_eq!(clean_input_line("\u{2003}\u{3000}\r\n"), None);
}

#[test]
fn interior_whitespace_is_preserved() {
    assert_eq!(clean_input_line(" a b \n").as_deref(), Some(" a b "));
}

#[test]
fn terminated_line_appends_one_newline() {
    assert_eq!(terminated_line("x"), "x\n");
    assert_eq!(terminated_line(""), "\n");
}
