use mcp_shell_server::text::{
    is_blank, join, same_text, split, trim, white_space, write_decimal, write_signed_decimal,
};

#[test]
fn white_space_is_that_of_char() {
    for n in 0..0x11_0000u32 {
        if let Some(c) = char::from_u32(n) {
            assert_eq!(white_space(c), c.is_whitespace());
        }
    }
}

#[test]
fn trimming_takes_white_space_off_both_ends() {
    for text in ["", " ", "a", " a ", "\t\na b\u{a0}\u{2003}", "\u{85}x", "x\u{3000}", "a  b"] {
        assert_eq!(trim(text), text.trim());
        assert_eq!(is_blank(text), text.trim().is_empty());
    }
}

#[test]
fn splitting_and_joining_undo_each_other() {
    for text in ["", ",", "a", "a,b", ",a,,b,", "\u{e9},\u{1f600}"] {
        let pieces = split(text, ',');
        let expected: Vec<&str> = text.split(',').collect();
        assert_eq!(pieces, expected);
        assert_eq!(join(&pieces, ","), text);
    }
    assert_eq!(join(&[], ", "), "");
    assert_eq!(join(&["a".to_string(), "b".to_string(), "c".to_string()], ", "), "a, b, c");
}

#[test]
fn texts_are_compared_whole() {
    assert!(same_text("", ""));
    assert!(same_text("\u{e9}a", "\u{e9}a"));
    assert!(!same_text("a", "ab"));
    assert!(!same_text("ab", "a"));
    assert!(!same_text("ab", "ac"));
}

#[test]
fn numbers_are_written_in_decimal() {
    for n in [0u64, 7, 9, 10, 99, 100, 65535, u64::MAX] {
        assert_eq!(write_decimal(n), n.to_string());
    }
    for n in [0i32, 1, -1, 127, -128, i32::MAX, i32::MIN] {
        assert_eq!(write_signed_decimal(n), n.to_string());
    }
}
