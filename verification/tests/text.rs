use forum_scraper::text::{
    back_spaces_in, char_is_space, chars_of, skip_spaces_in, stands_at, str_is_blank,
};

#[test]
fn whitespace_is_what_the_standard_library_calls_whitespace() {
    let mut code: u32 = 0;
    while code <= 0x10ffff {
        if let Some(c) = char::from_u32(code) {
            assert_eq!(char_is_space(c), c.is_whitespace(), "code point {:x}", code);
        }
        code += 1;
    }
}

#[test]
fn blank_texts() {
    assert!(str_is_blank(""));
    assert!(str_is_blank(" \t\r\n"));
    assert!(str_is_blank("\u{a0}\u{2003}\u{3000}"));
    assert!(!str_is_blank(" x "));
    assert!(!str_is_blank("\u{200b}"));
}

#[test]
fn blank_agrees_with_trim() {
    for text in ["", " ", "a", " a", "a ", "\n\n", "\u{85}", "\u{feff}", " . "] {
        assert_eq!(str_is_blank(text), text.trim().is_empty(), "text {:?}", text);
    }
}

#[test]
fn characters_in_order() {
    assert_eq!(chars_of("héllo"), vec!['h', 'é', 'l', 'l', 'o']);
    assert_eq!(chars_of(""), Vec::<char>::new());
}

#[test]
fn skipping_whitespace_from_both_ends() {
    let chars = chars_of("  ab c \n");
    assert_eq!(skip_spaces_in(&chars, 0, chars.len()), 2);
    assert_eq!(skip_spaces_in(&chars, 2, chars.len()), 2);
    assert_eq!(skip_spaces_in(&chars, 4, chars.len()), 5);
    assert_eq!(skip_spaces_in(&chars, 6, chars.len()), 8);
    assert_eq!(back_spaces_in(&chars, 0, chars.len()), 6);
    assert_eq!(back_spaces_in(&chars, 0, 5), 4);
    assert_eq!(back_spaces_in(&chars, 0, 2), 0);
    assert_eq!(back_spaces_in(&chars, 1, 2), 1);
}

#[test]
fn what_is_no_range_is_left_alone() {
    let chars = chars_of("   ");
    assert_eq!(skip_spaces_in(&chars, 2, 1), 2);
    assert_eq!(skip_spaces_in(&chars, 0, 4), 0);
    assert_eq!(back_spaces_in(&chars, 2, 1), 1);
    assert_eq!(back_spaces_in(&chars, 0, 4), 4);
}

#[test]
fn a_pattern_stands_where_its_characters_stand() {
    let chars = chars_of("abcabc");
    let pat = chars_of("bc");
    assert!(stands_at(&chars, 1, &pat));
    assert!(stands_at(&chars, 4, &pat));
    assert!(!stands_at(&chars, 0, &pat));
    assert!(!stands_at(&chars, 5, &pat));
    assert!(!stands_at(&chars, 6, &pat));
    assert!(!stands_at(&chars, 100, &pat));
    assert!(stands_at(&chars, 6, &Vec::new()));
    assert!(!stands_at(&chars, 7, &Vec::new()));
}
