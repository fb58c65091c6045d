use zellij_cmd_k::text::{is_whitespace, join, push_decimal, repeat_str, trim};

#[test]
fn trim_removes_outer_whitespace_only() {
    assert_eq!(trim("  spaces  "), "spaces");
    assert_eq!(trim("\t a b \n"), "a b");
    assert_eq!(trim("   "), "");
    assert_eq!(trim(""), "");
    assert_eq!(trim("\u{3000}wide\u{2003}"), "wide");
    assert_eq!(trim("x"), "x");
}

#[test]
fn trim_agrees_with_std() {
    for s in ["", " a", "a ", "\u{85}z\u{a0}", "\u{200b}keep\u{200b}", " é ", "\u{1680}\u{2028}q"] {
        assert_eq!(trim(s), s.trim());
    }
}

#[test]
fn whitespace_agrees_with_std() {
    for u in 0u32..0x3100 {
        if let Some(c) = char::from_u32(u) {
            assert_eq!(is_whitespace(c), c.is_whitespace(), "{:?}", c);
        }
    }
}

#[test]
fn decimal_writes_digits() {
    let mut s = String::new();
    push_decimal(&mut s, 0);
    assert_eq!(s, "0");
    let mut s = "n=".to_string();
    push_decimal(&mut s, 1203);
    assert_eq!(s, "n=1203");
    let mut s = String::new();
    push_decimal(&mut s, usize::MAX);
    assert_eq!(s, usize::MAX.to_string());
}

#[test]
fn repeat_and_join() {
    assert_eq!(repeat_str("─", 3), "───");
    assert_eq!(repeat_str("ab", 0), "");
    let parts = vec!["a".to_string(), "b".to_string(), "c".to_string()];
    assert_eq!(join(&parts, ", "), "a, b, c");
    assert_eq!(join(&vec!["solo".to_string()], "+"), "solo");
    assert_eq!(join(&vec![], "+"), "");
}
