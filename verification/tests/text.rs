use runner::text::{
    chars_of, clone_texts, has_nul, is_whitespace, lines, strip_prefix, to_slash_form, trim,
};

#[test]
fn trim_drops_blanks_at_both_ends() {
    assert_eq!(trim("  health  "), "health");
    assert_eq!(trim("\t a b \r\n"), "a b");
    assert_eq!(trim("abc"), "abc");
}

#[test]
fn trim_of_blanks_is_empty() {
    assert_eq!(trim(""), "");
    assert_eq!(trim("   "), "");
    assert_eq!(trim("\u{3000}\u{2003}"), "");
}

#[test]
fn trim_agrees_with_std() {
    let samples = [
        "",
        " ",
        "a",
        " a",
        "a ",
        " a b ",
        "\u{a0}x\u{a0}",
        "\u{85}y\u{1680}",
        "\u{2028}z\u{2029}",
        "\u{202f}w\u{205f}",
        "\u{200b}v\u{200b}",
        "\u{feff}u",
        "é ü ",
    ];
    for s in samples {
        assert_eq!(trim(s), s.trim(), "on {:?}", s);
    }
}

#[test]
fn whitespace_agrees_with_std() {
    let mut n: u32 = 0;
    while n < 0x11000 {
        if let Some(c) = char::from_u32(n) {
            assert_eq!(is_whitespace(c), c.is_whitespace(), "on U+{:04X}", n);
        }
        n += 1;
    }
}

#[test]
fn slash_form_turns_every_backslash() {
    assert_eq!(to_slash_form("py\\src\\main.py"), "py/src/main.py");
    assert_eq!(to_slash_form("py/src"), "py/src");
    assert_eq!(to_slash_form("\\\\"), "//");
    assert_eq!(to_slash_form(""), "");
}

#[test]
fn nul_is_found_anywhere() {
    assert!(has_nul("file\0.txt"));
    assert!(has_nul("\0"));
    assert!(has_nul("end\0"));
    assert!(!has_nul("file.txt"));
    assert!(!has_nul(""));
}

#[test]
fn lines_split_at_line_feeds() {
    assert_eq!(lines("hello world\nline 2"), vec!["hello world", "line 2"]);
    assert_eq!(lines("a\n"), vec!["a"]);
    assert_eq!(lines("a\n\nb"), vec!["a", "", "b"]);
    assert_eq!(lines("\n"), vec![""]);
    assert!(lines("").is_empty());
}

#[test]
fn lines_drop_the_carriage_return_before_a_line_feed() {
    assert_eq!(lines("a\r\nb\r\n"), vec!["a", "b"]);
    assert_eq!(lines("a\r\r\nb"), vec!["a\r", "b"]);
    assert_eq!(lines("a\rb"), vec!["a\rb"]);
    assert_eq!(lines("a\r"), vec!["a\r"]);
}

#[test]
fn lines_agree_with_std() {
    let samples = ["", "\n", "\r\n", "a", "a\n", "a\r", "a\r\n", "a\n\r", "\r\na\n\nb\r\n\r", "é\nü"];
    for s in samples {
        let expected: Vec<String> = s.lines().map(|l| l.to_string()).collect();
        assert_eq!(lines(s), expected, "on {:?}", s);
    }
}

#[test]
fn strip_prefix_gives_what_follows() {
    assert_eq!(strip_prefix("Bearer abc", "Bearer "), Some("abc".to_string()));
    assert_eq!(strip_prefix("Bearer ", "Bearer "), Some(String::new()));
    assert_eq!(strip_prefix("bearer abc", "Bearer "), None);
    assert_eq!(strip_prefix("Bear", "Bearer "), None);
    assert_eq!(strip_prefix("abc", ""), Some("abc".to_string()));
}

#[test]
fn chars_are_taken_one_by_one() {
    assert_eq!(chars_of("héllo"), vec!['h', 'é', 'l', 'l', 'o']);
    assert!(chars_of("").is_empty());
}

#[test]
fn clone_texts_copies_each_string() {
    let v = vec!["a".to_string(), "".to_string(), "bc".to_string()];
    assert_eq!(clone_texts(&v), v);
}
