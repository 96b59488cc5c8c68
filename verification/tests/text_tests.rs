use task_manager::text::{chars_of, is_whitespace, trim};

#[test]
fn whitespace_is_the_unicode_property() {
    let mut code: u32 = 0;
    while code <= 0x10FFFF {
        if let Some(c) = char::from_u32(code) {
            assert_eq!(is_whitespace(c), c.is_whitespace(), "code point {:#x}", code);
        }
        code += 1;
    }
}

#[test]
fn whitespace_named_characters() {
    assert!(is_whitespace(' '));
    assert!(is_whitespace('\t'));
    assert!(is_whitespace('\n'));
    assert!(is_whitespace('\r'));
    assert!(is_whitespace('\u{0B}'));
    assert!(is_whitespace('\u{0C}'));
    assert!(is_whitespace('\u{85}'));
    assert!(is_whitespace('\u{A0}'));
    assert!(is_whitespace('\u{1680}'));
    assert!(is_whitespace('\u{2000}'));
    assert!(is_whitespace('\u{200A}'));
    assert!(is_whitespace('\u{2028}'));
    assert!(is_whitespace('\u{2029}'));
    assert!(is_whitespace('\u{202F}'));
    assert!(is_whitespace('\u{205F}'));
    assert!(is_whitespace('\u{3000}'));
    assert!(!is_whitespace('a'));
    assert!(!is_whitespace('0'));
    assert!(!is_whitespace('\u{200B}'));
    assert!(!is_whitespace('\u{08}'));
    assert!(!is_whitespace('\u{0E}'));
}

#[test]
fn trim_removes_whitespace_at_both_ends() {
    assert_eq!(trim("  Buy milk \n"), "Buy milk");
    assert_eq!(trim("Buy milk"), "Buy milk");
    assert_eq!(trim("\tBuy milk"), "Buy milk");
    assert_eq!(trim("Buy milk\r\n"), "Buy milk");
}

#[test]
fn trim_keeps_whitespace_inside() {
    assert_eq!(trim(" a  b\tc "), "a  b\tc");
}

#[test]
fn trim_of_blank_text_is_empty() {
    assert_eq!(trim(""), "");
    assert_eq!(trim("   "), "");
    assert_eq!(trim("\n"), "");
    assert_eq!(trim(" \t\r\n\u{3000}"), "");
}

#[test]
fn trim_of_one_character() {
    assert_eq!(trim("x"), "x");
    assert_eq!(trim(" x"), "x");
    assert_eq!(trim("x "), "x");
}

#[test]
fn trim_counts_characters_not_bytes() {
    assert_eq!(trim("\u{3000}été\u{A0}"), "été");
    assert_eq!(trim(" 牛乳を買う\n"), "牛乳を買う");
}

#[test]
fn trim_agrees_with_std() {
    let samples = [
        "",
        " ",
        "a",
        " a",
        "a ",
        " a ",
        "\n\n1\n",
        "  two words  ",
        "\u{2028}x\u{2029}",
        "\u{200B} zero width is kept \u{200B}",
        "\u{85}\u{A0}\u{1680}mixed\u{205F}\u{202F}",
        "   \t  ",
    ];
    for sample in samples {
        assert_eq!(trim(sample), sample.trim(), "sample {:?}", sample);
    }
}

#[test]
fn trim_twice_is_trim_once() {
    let samples = ["  a b  ", "", " \n", "x", "\t1\t"];
    for sample in samples {
        assert_eq!(trim(trim(sample)), trim(sample));
    }
}

#[test]
fn chars_of_gives_every_character() {
    assert_eq!(chars_of(""), Vec::<char>::new());
    assert_eq!(chars_of("a b"), vec!['a', ' ', 'b']);
    assert_eq!(chars_of("é牛"), vec!['é', '牛']);
}
