use orbit::text::{chars_of, contains, decimal, same_text, trim};

#[test]
fn trim_strips_both_ends() {
    assert_eq!(trim("  \t Foo Bar \n"), "Foo Bar");
    assert_eq!(trim("x"), "x");
    assert_eq!(trim("a  b"), "a  b");
}

#[test]
fn trim_of_white_space_only_is_empty() {
    assert_eq!(trim(" \u{3000} "), "");
    assert_eq!(trim(""), "");
    assert_eq!(trim("\n"), "");
}

#[test]
fn trim_knows_unicode_white_space() {
    assert_eq!(trim("\u{a0}é \u{2003}"), "é");
    assert_eq!(trim("\u{200b}x\u{200b}"), "\u{200b}x\u{200b}");
}

#[test]
fn trim_agrees_with_std() {
    for s in ["", " ", "a", " a", "a ", " a b ", "\t\r\n x y \u{85}", "日本 語 ", "\u{1680}z"] {
        assert_eq!(trim(s), s.trim());
    }
}

#[test]
fn same_text_compares_characters() {
    assert!(same_text("name", "name"));
    assert!(same_text("", ""));
    assert!(!same_text("name", "Name"));
    assert!(!same_text("name", "names"));
    assert!(!same_text("", "a"));
}

#[test]
fn chars_of_lists_every_character() {
    assert_eq!(chars_of("héy"), vec!['h', 'é', 'y']);
    assert_eq!(chars_of(""), Vec::<char>::new());
}

#[test]
fn contains_finds_a_needle_anywhere() {
    assert!(contains("Your branch is up to date with 'origin/main'.", "Your branch is up to date"));
    assert!(contains("xxab", "ab"));
    assert!(contains("abxx", "ab"));
    assert!(contains("xabx", "ab"));
    assert!(contains("aab", "ab"));
}

#[test]
fn contains_rejects_what_is_not_there() {
    assert!(!contains("Your branch is behind", "Your branch is up to date"));
    assert!(!contains("ab", "abc"));
    assert!(!contains("", "a"));
    assert!(!contains("aXb", "ab"));
}

#[test]
fn contains_finds_the_empty_needle() {
    assert!(contains("", ""));
    assert!(contains("abc", ""));
}

#[test]
fn contains_agrees_with_std() {
    let hay = ["", "a", "abcabd", "ééa", "On branch main\nYour branch is up to date"];
    let pins = ["", "a", "abd", "éa", "bc", "date", "x"];
    for h in hay {
        for p in pins {
            assert_eq!(contains(h, p), h.contains(p));
        }
    }
}

#[test]
fn decimal_writes_numbers_without_leading_zeros() {
    assert_eq!(decimal(0), "0");
    assert_eq!(decimal(7), "7");
    assert_eq!(decimal(10), "10");
    assert_eq!(decimal(1500), "1500");
    assert_eq!(decimal(4294967295), "4294967295");
}

#[test]
fn white_space_is_the_twenty_five_characters_of_unicode() {
    let mut listed: Vec<u32> = vec![0x20, 0x85, 0xa0, 0x1680, 0x2028, 0x2029, 0x202f, 0x205f, 0x3000];
    listed.extend(0x09..=0x0d);
    listed.extend(0x2000..=0x200a);
    assert_eq!(listed.len(), 25);
    for code in 0..=0x10ffff_u32 {
        if let Some(c) = char::from_u32(code) {
            let text = format!("a{}", c);
            let white = listed.contains(&code);
            assert_eq!(c.is_whitespace(), white, "U+{:04X}", code);
            assert_eq!(trim(&text).len() == 1, white, "U+{:04X}", code);
        }
    }
}

#[test]
fn trim_keeps_a_text_without_white_space_at_its_ends() {
    assert_eq!(trim("Foo"), "Foo");
    assert_eq!(trim("Foo Bar"), "Foo Bar");
    assert_eq!(trim(" Foo "), trim("Foo"));
}
