use optd_cost_model::dbms::{unescape_input, UnescapeError};

#[test]
fn unescape_replaces_escapes() {
    assert_eq!(unescape_input("a\\nb").unwrap(), "a\nb");
    assert_eq!(unescape_input("\\t\\r\\0").unwrap(), "\t\r\0");
    assert_eq!(unescape_input("back\\\\slash").unwrap(), "back\\slash");
    assert_eq!(unescape_input("plain text").unwrap(), "plain text");
    assert_eq!(unescape_input("").unwrap(), "");
    assert_eq!(unescape_input("héllo\\n").unwrap(), "héllo\n");
}

#[test]
fn unescape_drops_a_trailing_backslash() {
    assert_eq!(unescape_input("abc\\").unwrap(), "abc");
    assert_eq!(unescape_input("\\").unwrap(), "");
}

#[test]
fn unescape_refuses_unsupported_escapes() {
    assert_eq!(unescape_input("a\\xb"), Err(UnescapeError::UnsupportedEscapeChar('x')));
    assert_eq!(unescape_input("\\n\\q"), Err(UnescapeError::UnsupportedEscapeChar('q')));
}

#[test]
fn test_unescape_undoes_escape() {
    let original = "a\tb\\c\nd\0e\rf\"g";
    let mut escaped = String::new();
    for c in original.chars() {
        match c {
            '\0' => escaped.push_str("\\0"),
            '\n' => escaped.push_str("\\n"),
            '\r' => escaped.push_str("\\r"),
            '\t' => escaped.push_str("\\t"),
            '\\' => escaped.push_str("\\\\"),
            other => escaped.push(other),
        }
    }
    assert_eq!(escaped, "a\\tb\\\\c\\nd\\0e\\rf\"g");
    assert_eq!(unescape_input(&escaped), Ok(original.to_string()));
}
