use ghl::text::{chars_of, leading_white, same_text, text_of, trim, white_space};

#[test]
fn white_space_matches_the_unicode_property() {
    let mut code: u32 = 0;
    while code <= 0x10ffff {
        if let Some(c) = char::from_u32(code) {
            assert_eq!(white_space(c), c.is_whitespace(), "U+{:04X}", code);
        }
        code += 1;
    }
}

#[test]
fn trim_removes_white_space_at_both_ends() {
    assert_eq!(trim("  add login \t"), "add login");
    assert_eq!(trim("add login"), "add login");
    assert_eq!(trim("\n\u{3000}x y\u{a0}\u{2028}"), "x y");
}

#[test]
fn trim_of_white_space_only_is_empty() {
    assert_eq!(trim(""), "");
    assert_eq!(trim(" "), "");
    assert_eq!(trim(" \t\r\n\u{85}\u{1680}\u{2009}"), "");
}

#[test]
fn trim_keeps_inner_white_space() {
    assert_eq!(trim(" a  b\tc "), "a  b\tc");
}

#[test]
fn trim_agrees_with_the_standard_library() {
    let samples = [
        "",
        " ",
        "x",
        " x",
        "x ",
        "  handle expired tokens  ",
        "\u{feff}x\u{feff}",
        "\u{200b}x\u{200b}",
        "\u{2000}é\u{200a}",
        "\u{1f}x\u{1f}",
        "\u{b}x\u{c}",
    ];
    for s in samples {
        assert_eq!(trim(s), s.trim(), "{:?}", s);
    }
}

#[test]
fn trim_twice_is_trim_once() {
    let samples = ["  a b  ", "\tx", "y\n", "   ", "déjà vu "];
    for s in samples {
        assert_eq!(trim(&trim(s)), trim(s));
    }
}

#[test]
fn chars_of_lists_every_character() {
    assert_eq!(chars_of("aé-1"), vec!['a', 'é', '-', '1']);
    assert_eq!(chars_of(""), Vec::<char>::new());
}

#[test]
fn text_of_takes_a_range_of_characters() {
    let chars = vec!['p', 'r', 'o', 'j', '-', '1'];
    assert_eq!(text_of(&chars, 0, 4), "proj");
    assert_eq!(text_of(&chars, 5, 6), "1");
    assert_eq!(text_of(&chars, 3, 3), "");
    assert_eq!(text_of(&chars, 0, 6), "proj-1");
}

#[test]
fn leading_white_counts_characters_not_bytes() {
    assert_eq!(leading_white(&vec!['\u{3000}', ' ', 'x', ' ']), 2);
    assert_eq!(leading_white(&vec![' ', ' ']), 2);
    assert_eq!(leading_white(&vec!['x']), 0);
    assert_eq!(leading_white(&Vec::new()), 0);
}

#[test]
fn same_text_compares_character_by_character() {
    assert!(same_text("feat", "feat"));
    assert!(same_text("", ""));
    assert!(!same_text("feat", "fear"));
    assert!(!same_text("feat", "feature"));
    assert!(!same_text("é", "e"));
}
