use fanqie_todo::text::{
    chars_of, find_first, find_last, has_prefix_at, push_chars, string_of, strip_bounds,
    CharClass,
};

fn trimmed(text: &str) -> String {
    let chars = chars_of(text);
    let (lo, hi) = strip_bounds(&chars, 0, chars.len(), CharClass::Whitespace);
    string_of(&chars, lo, hi)
}

#[test]
fn whitespace_class_is_the_standard_one() {
    for code in 0..=0x10ffffu32 {
        if let Some(c) = char::from_u32(code) {
            assert_eq!(CharClass::Whitespace.contains(c), c.is_whitespace(), "{:x}", code);
        }
    }
}

#[test]
fn single_character_class_holds_that_character_only() {
    assert!(CharClass::Only('`').contains('`'));
    assert!(!CharClass::Only('`').contains('\''));
    assert!(!CharClass::Only('`').contains(' '));
}

#[test]
fn chars_and_strings_convert_both_ways() {
    let text = "a β\u{3000}字🙂";
    let chars = chars_of(text);
    assert_eq!(chars, text.chars().collect::<Vec<char>>());
    assert_eq!(string_of(&chars, 0, chars.len()), text);
    assert_eq!(string_of(&chars, 2, 4), "β\u{3000}");
    assert_eq!(string_of(&chars, 3, 3), "");
    assert_eq!(chars_of(""), Vec::<char>::new());
}

#[test]
fn push_chars_appends_a_range() {
    let mut text = String::from("x=");
    let chars = chars_of("hello");
    push_chars(&mut text, &chars, 1, 4);
    assert_eq!(text, "x=ell");
}

#[test]
fn trimming_agrees_with_the_standard_trim() {
    let samples = [
        "", " ", "   ", "a", " a", "a ", "  a b  ", "\n\t x \r\n", "\u{a0}x\u{2003}",
        "\u{3000}\u{3000}", "x\u{200b}", "\u{85}y\u{1680}", " 字 ",
    ];
    for text in samples {
        assert_eq!(trimmed(text), text.trim(), "{:?}", text);
    }
}

#[test]
fn stripping_one_character_agrees_with_trim_matches() {
    for text in ["", "`", "```", "```a```", "`a`b`", "a```", "```a", " ```a``` "] {
        let chars = chars_of(text);
        let (lo, hi) = strip_bounds(&chars, 0, chars.len(), CharClass::Only('`'));
        assert_eq!(string_of(&chars, lo, hi), text.trim_matches('`'), "{:?}", text);
    }
}

#[test]
fn stripping_stays_inside_the_given_range() {
    let chars = chars_of("  ab  cd  ");
    assert_eq!(strip_bounds(&chars, 0, 10, CharClass::Whitespace), (2, 8));
    assert_eq!(strip_bounds(&chars, 3, 7, CharClass::Whitespace), (3, 7));
    assert_eq!(strip_bounds(&chars, 3, 6, CharClass::Whitespace), (3, 4));
    assert_eq!(strip_bounds(&chars, 4, 6, CharClass::Whitespace), (6, 6));
    assert_eq!(strip_bounds(&chars, 5, 5, CharClass::Whitespace), (5, 5));
}

#[test]
fn finds_first_and_last_occurrence() {
    let chars = chars_of("a{b{c}d}e");
    assert_eq!(find_first(&chars, 0, chars.len(), '{'), Some(1));
    assert_eq!(find_last(&chars, 0, chars.len(), '}'), Some(7));
    assert_eq!(find_first(&chars, 2, chars.len(), '{'), Some(3));
    assert_eq!(find_last(&chars, 0, 7, '}'), Some(5));
    assert_eq!(find_first(&chars, 4, chars.len(), '{'), None);
    assert_eq!(find_last(&chars, 0, 5, '}'), None);
    assert_eq!(find_first(&chars, 0, 0, 'a'), None);
    assert_eq!(find_first(&chars, 0, chars.len(), 'z'), None);
    assert_eq!(find_last(&chars, 0, chars.len(), 'z'), None);
}

#[test]
fn prefix_test_looks_at_the_range_only() {
    let chars = chars_of("xxjsonyy");
    let pattern = chars_of("json");
    assert!(has_prefix_at(&chars, 2, 8, &pattern));
    assert!(has_prefix_at(&chars, 2, 6, &pattern));
    assert!(!has_prefix_at(&chars, 2, 5, &pattern));
    assert!(!has_prefix_at(&chars, 1, 8, &pattern));
    assert!(has_prefix_at(&chars, 3, 3, &Vec::new()));
}
