use chat_relay::text::{
    chars_of, piece, same_text, scan, split_spaces, split_three, split_words, trim, CharClass,
};

fn samples() -> Vec<&'static str> {
    vec![
        "",
        " ",
        "  ",
        "a",
        " a",
        "a ",
        "login alice secret",
        "login  alice   secret ",
        " /whisper carol hi there",
        "/whisper\tcarol hi",
        "\t/help\r\n",
        "one\u{a0}two\u{3000}three four",
        "\u{2003}lead and trail\u{2028}",
        "h\u{e9}llo w\u{f6}rld  \u{1f600} end",
        "/history all   ",
        "a b c d e f",
    ]
}

#[test]
fn split_spaces_keeps_empty_fields() {
    assert_eq!(split_spaces("login alice secret"), vec!["login", "alice", "secret"]);
    assert_eq!(split_spaces("a  b "), vec!["a", "", "b", ""]);
    assert_eq!(split_spaces(""), vec![""]);
}

#[test]
fn split_three_leaves_the_rest_whole() {
    assert_eq!(
        split_three("/whisper carol hi there  you"),
        vec!["/whisper", "carol", "hi there  you"]
    );
    assert_eq!(split_three("/whisper carol"), vec!["/whisper", "carol"]);
    assert_eq!(split_three("/whisper"), vec!["/whisper"]);
    assert_eq!(split_three(" x"), vec!["", "x"]);
}

#[test]
fn split_words_drops_all_white_space() {
    assert_eq!(split_words("  /ban \t bob\u{a0}now "), vec!["/ban", "bob", "now"]);
    assert_eq!(split_words(" \n "), Vec::<String>::new());
}

#[test]
fn trim_cuts_both_ends() {
    assert_eq!(trim(" \t/help\r\n"), "/help");
    assert_eq!(trim("\u{3000}"), "");
    assert_eq!(trim("a b"), "a b");
}

#[test]
fn white_space_is_what_the_standard_library_takes_for_it() {
    for code in 0u32..=0x10ffff {
        if let Some(c) = char::from_u32(code) {
            assert_eq!(CharClass::Blank.holds(c), c.is_whitespace(), "U+{:04X}", code);
            assert_eq!(CharClass::Space.holds(c), c == ' ', "U+{:04X}", code);
        }
    }
}

#[test]
fn cutting_agrees_with_the_standard_library() {
    for s in samples() {
        assert_eq!(split_spaces(s), s.split(' ').collect::<Vec<_>>(), "{:?}", s);
        assert_eq!(split_three(s), s.splitn(3, ' ').collect::<Vec<_>>(), "{:?}", s);
        assert_eq!(split_words(s), s.split_whitespace().collect::<Vec<_>>(), "{:?}", s);
        assert_eq!(trim(s), s.trim(), "{:?}", s);
    }
}

#[test]
fn same_text_compares_character_by_character() {
    assert!(same_text("", ""));
    assert!(same_text("/ban", "/ban"));
    assert!(!same_text("/ban", "/bam"));
    assert!(!same_text("/ban", "/ba"));
    assert!(!same_text("a", "A"));
    assert!(same_text("h\u{e9}", "h\u{e9}"));
}

#[test]
fn scan_finds_the_end_of_a_run() {
    let cs = chars_of("  ab c");
    assert_eq!(cs, vec![' ', ' ', 'a', 'b', ' ', 'c']);
    assert_eq!(scan(&cs, 0, CharClass::Blank, true), 2);
    assert_eq!(scan(&cs, 2, CharClass::Blank, false), 4);
    assert_eq!(scan(&cs, 2, CharClass::Space, false), 4);
    assert_eq!(scan(&cs, 5, CharClass::Space, false), 6);
    assert_eq!(scan(&cs, 6, CharClass::Space, false), 6);
    assert_eq!(scan(&cs, 2, CharClass::Blank, true), 2);
}

#[test]
fn piece_counts_characters_not_bytes() {
    assert_eq!(piece("h\u{e9}llo", 1, 3), "\u{e9}l");
    assert_eq!(piece("abc", 0, 0), "");
    assert_eq!(piece("abc", 0, 3), "abc");
}
