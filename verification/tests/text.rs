use oko_monitor::numbers::{decimal_text, hex_text};
use oko_monitor::text::{
    chars_of, contains, eq_ignore_ascii_case, join2, join3, replace, same, split_first, starts_with,
    string_of, strip_prefix, text_after, trim, white, without_last,
};

fn samples() -> Vec<&'static str> {
    vec![
        "",
        " ",
        "a",
        "  a  ",
        "\u{3000}Процесс\u{2003}\u{85}",
        "\t\r\n",
        "ERROR: Invalid password\n",
        "aaaa",
        "abababa",
        "a\u{200b}",
        "\u{feff}x\u{feff}",
        "😀 я\u{301} \0 end \u{1680}",
    ]
}

#[test]
fn white_space_is_unicode_white_space() {
    for n in 0u32..=0x10ffff {
        if let Some(c) = char::from_u32(n) {
            assert_eq!(white(c), c.is_whitespace(), "{:x}", n);
        }
    }
}

#[test]
fn trim_agrees_with_std() {
    for s in samples() {
        assert_eq!(trim(s), s.trim());
    }
}

#[test]
fn searching_agrees_with_std() {
    for s in samples() {
        for p in ["", "a", "aa", "aba", "Invalid password", "я", "\n", "😀"] {
            assert_eq!(starts_with(s, p), s.starts_with(p));
            assert_eq!(contains(s, p), s.contains(p));
            assert_eq!(strip_prefix(s, p), s.strip_prefix(p).map(|t| t.to_string()));
            assert_eq!(
                text_after(s, p),
                s.find(p).map(|k| s[k + p.len()..].to_string())
            );
            assert_eq!(
                split_first(s, p),
                s.split_once(p).map(|(a, b)| (a.to_string(), b.to_string()))
            );
        }
    }
}

#[test]
fn replace_agrees_with_std() {
    for s in samples() {
        for p in ["a", "aa", "aba", "Invalid password", "\n", "я"] {
            for q in ["", "b", "aa", "Неверный пароль"] {
                assert_eq!(replace(s, p, q), s.replace(p, q));
            }
        }
    }
}

#[test]
fn ascii_case_is_ignored_and_no_other() {
    assert!(eq_ignore_ascii_case("SuSpEnDeD", "Suspended"));
    assert!(!eq_ignore_ascii_case("Suspended ", "Suspended"));
    assert!(!eq_ignore_ascii_case("Я", "я"));
    assert!(!eq_ignore_ascii_case("[", "{"));
    assert!(!eq_ignore_ascii_case("@", "`"));
}

#[test]
fn characters_and_strings() {
    let v = chars_of("aя😀");
    assert_eq!(v, vec!['a', 'я', '😀']);
    assert_eq!(string_of(&v, 1, 3), "я😀");
    assert_eq!(string_of(&v, 2, 2), "");
    assert!(same("я", "я"));
    assert!(!same("я", "Я"));
    assert_eq!(join2("a", "b"), "ab");
    assert_eq!(join3("a", "", "c"), "ac");
    assert_eq!(without_last("ab😀"), "ab");
    assert_eq!(without_last(""), "");
}

#[test]
fn numbers_in_decimal_and_hexadecimal() {
    for n in [0u64, 7, 9, 10, 99, 100, 4294967295, u64::MAX] {
        assert_eq!(decimal_text(n), n.to_string());
    }
    assert_eq!(hex_text(&vec![0, 1, 15, 16, 171, 255]), "00010f10abff");
    assert_eq!(hex_text(&vec![]), "");
    assert_ne!(hex_text(&vec![1, 0]), hex_text(&vec![0, 1]));
}
