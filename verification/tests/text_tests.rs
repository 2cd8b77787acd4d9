use clash_tiny::escape::{
    escape_for_applescript, keep_name_chars, replace_spaces, sanitize_filename, sanitize_version_text,
    xml_escape,
};
use clash_tiny::text::{char_len, contains, find, lines, split_char, starts_with, trim, trim_with};

#[test]
fn trim_removes_unicode_whitespace() {
    assert_eq!(trim("  a b \t\n"), "a b");
    assert_eq!(trim("\u{3000}名字\u{3000}"), "名字");
    assert_eq!(trim(""), "");
    assert_eq!(trim(" \r\n "), "");
    assert_eq!(trim("x"), "x");
}

#[test]
fn char_len_counts_characters() {
    assert_eq!(char_len("名字ab"), 4);
}

#[test]
fn starts_with_and_contains() {
    assert!(starts_with("https://x", "https://"));
    assert!(!starts_with("http", "https://"));
    assert!(starts_with("abc", ""));
    assert!(contains("error (-128) here", "(-128)"));
    assert!(!contains("abc", "abcd"));
    assert_eq!(find("a.app/Contents/MacOS/b", ".app/Contents/MacOS/"), Some(1));
    assert_eq!(find("abab", "ab"), Some(0));
    assert_eq!(find("abc", "x"), None);
    assert_eq!(find("名字.app", ".app"), Some(2));
}

#[test]
fn split_keeps_empty_pieces() {
    assert_eq!(split_char("a\u{1f}b\u{1f}", '\u{1f}'), vec!["a", "b", ""]);
    assert_eq!(split_char("", '/'), vec![""]);
    assert_eq!(split_char("/usr/bin", '/'), vec!["", "usr", "bin"]);
}

#[test]
fn lines_follow_str_lines() {
    assert_eq!(lines("a\r\nb\n\nc\r"), vec!["a", "b", "", "c\r"]);
    assert_eq!(lines("one\n"), vec!["one"]);
    assert_eq!(lines(""), Vec::<String>::new());
    assert_eq!(lines("\n"), vec![""]);
}

#[test]
fn xml_escape_writes_entities() {
    assert_eq!(xml_escape("a&b<c>\"d'"), "a&amp;b&lt;c&gt;&quot;d'");
    assert_eq!(xml_escape("/Applications/Clash Tiny.app"), "/Applications/Clash Tiny.app");
    assert_eq!(xml_escape("&amp;"), "&amp;amp;");
}

#[test]
fn xml_escaped_text_has_no_markup() {
    let e = xml_escape("<<\"x\">>&");
    assert!(!e.contains('<') && !e.contains('>') && !e.contains('"'));
}

#[test]
fn applescript_escape_doubles_backslashes_and_escapes_quotes() {
    assert_eq!(escape_for_applescript(r#"say "hi" \ bye"#), r#"say \"hi\" \\ bye"#);
    assert_eq!(escape_for_applescript(r#"\""#), r#"\\\""#);
    assert_eq!(escape_for_applescript("plain"), "plain");
}

#[test]
fn applescript_escape_round_trips() {
    let original = "a\"b\\c\\nd";
    let escaped = escape_for_applescript(original);
    let mut decoded = String::new();
    let mut it = escaped.chars();
    while let Some(c) = it.next() {
        if c == '"' {
            panic!("bare quote");
        }
        if c == '\\' {
            let n = it.next().expect("dangling backslash");
            decoded.push(match n {
                'n' => '\n',
                't' => '\t',
                'r' => '\r',
                other => other,
            });
        } else {
            decoded.push(c);
        }
    }
    assert_eq!(decoded, original);
}

#[test]
fn version_text_is_made_safe() {
    assert_eq!(sanitize_version_text("v1.18 (\"meta\")\\"), "v1.18 ('meta'");
    assert_eq!(sanitize_version_text("未运行"), "未运行");
}

#[test]
fn sanitize_filename_keeps_safe_characters() {
    assert_eq!(sanitize_filename("My Sub/名字 #1"), "My_Sub名字_1");
    assert_eq!(sanitize_filename("  a.b-c_d  "), "a.b-c_d");
    assert_eq!(sanitize_filename("../../etc"), "....etc");
    assert_eq!(sanitize_filename("!!!"), "");
    assert_eq!(sanitize_filename(" x  y "), "x__y");
}

#[test]
fn sanitized_names_hold_only_safe_characters() {
    let s = sanitize_filename("a b\t/c:d*e?f\"g<h>i|j名");
    assert!(s.chars().all(|c| c.is_alphanumeric() || c == '-' || c == '_' || c == '.'));
    assert_eq!(s, "a_bcdefghij名");
}

#[test]
fn keep_name_chars_follows_the_flags() {
    assert_eq!(keep_name_chars("a/b c", &vec![true, false, true, false, true]), "ab c");
    assert_eq!(keep_name_chars("x#y", &vec![false, true, false]), "#");
    assert_eq!(keep_name_chars("-_.", &vec![false, false, false]), "-_.");
    assert_eq!(keep_name_chars("", &vec![]), "");
}

#[test]
fn replace_spaces_writes_underscores() {
    assert_eq!(replace_spaces("a b  c"), "a_b__c");
    assert_eq!(replace_spaces("abc"), "abc");
    assert_eq!(replace_spaces(" "), "_");
}

#[test]
fn trim_with_uses_the_given_flags() {
    assert_eq!(trim_with("xaby", &vec![true, false, false, true]), "ab");
    assert_eq!(trim_with("  ", &vec![true, true]), "");
    assert_eq!(trim_with(" a ", &vec![false, false, false]), " a ");
}

#[test]
fn whitespace_test_agrees_with_char_is_whitespace() {
    for n in 0u32..=0x10FFFF {
        if let Some(c) = char::from_u32(n) {
            assert_eq!(clash_tiny::text::is_whitespace_char(c), c.is_whitespace(), "U+{:04X}", n);
        }
    }
}

#[test]
fn sanitize_is_idempotent() {
    assert_eq!(sanitize_filename(" my sub!/v2 "), "my_subv2");
    for s in [" my sub!/v2 ", "a  b", "\u{3000}x y\u{3000}", "-._", "名 字"] {
        let once = sanitize_filename(s);
        assert_eq!(sanitize_filename(&once), once);
    }
}

#[test]
fn trim_uses_white_space() {
    assert_eq!(trim(" x"), "x");
    assert_eq!(trim("\u{85}\u{a0}x\u{2029}"), "x");
    assert_eq!(trim("\u{200b}x"), "\u{200b}x");
}
