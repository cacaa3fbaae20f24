use twitch_link::text::{
    chars_of, contains, is_key_text, matches_at, split_lines, starts_with, string_of,
};

fn chars(s: &str) -> Vec<char> {
    s.chars().collect()
}

#[test]
fn chars_of_gives_each_character() {
    assert_eq!(chars_of(""), Vec::<char>::new());
    assert_eq!(chars_of("ab c"), vec!['a', 'b', ' ', 'c']);
    assert_eq!(chars_of("h\u{e9}\u{1F600}"), vec!['h', '\u{e9}', '\u{1F600}']);
}

#[test]
fn string_of_joins_the_characters() {
    assert_eq!(string_of(&chars("h\u{e9}llo")), "h\u{e9}llo");
    assert_eq!(string_of(&chars("")), "");
    assert_eq!(string_of(&vec!['a', '\n', '\u{1F600}']), "a\n\u{1F600}");
}

#[test]
fn lines_end_at_line_feeds() {
    assert_eq!(split_lines(""), vec![chars("")]);
    assert_eq!(split_lines("abc"), vec![chars("abc")]);
    assert_eq!(split_lines("a\nb"), vec![chars("a"), chars("b")]);
    assert_eq!(split_lines("a\nb\n"), vec![chars("a"), chars("b"), chars("")]);
    assert_eq!(split_lines("\n"), vec![chars(""), chars("")]);
    assert_eq!(split_lines("\n\nx"), vec![chars(""), chars(""), chars("x")]);
    assert_eq!(split_lines("a\r\nb"), vec![chars("a\r"), chars("b")]);
}

#[test]
fn lines_agree_with_the_standard_split() {
    for text in ["", "\n", "one", "one\ntwo", "one\n\ntwo\n", "\n\n\n", "a\nb\nc\nd"] {
        let expected: Vec<Vec<char>> = text.split('\n').map(chars).collect();
        assert_eq!(split_lines(text), expected);
    }
}

#[test]
fn starts_with_compares_the_beginning() {
    assert!(starts_with(&chars("https://x"), "https"));
    assert!(starts_with(&chars("https"), "https"));
    assert!(!starts_with(&chars("http"), "https"));
    assert!(!starts_with(&chars("xhttps"), "https"));
    assert!(starts_with(&chars("abc"), ""));
    assert!(starts_with(&chars(""), ""));
    assert!(!starts_with(&chars(""), "a"));
}

#[test]
fn contains_finds_the_needle_anywhere() {
    assert!(contains(&chars("GROUP-ID"), "GROUP-ID"));
    assert!(contains(&chars("xxGROUP-ID"), "GROUP-ID"));
    assert!(contains(&chars("GROUP-IDxx"), "GROUP-ID"));
    assert!(contains(&chars("GROUP-GROUP-ID"), "GROUP-ID"));
    assert!(!contains(&chars("GROUP-I"), "GROUP-ID"));
    assert!(!contains(&chars("GROUP_ID GROUPID"), "GROUP-ID"));
    assert!(!contains(&chars(""), "GROUP-ID"));
    assert!(contains(&chars(""), ""));
    assert!(contains(&chars("abc"), ""));
    assert!(contains(&chars("abc"), "c"));
    assert!(contains(&chars("abc"), "a"));
}

#[test]
fn matches_at_compares_in_place() {
    let text = chars("abcabc");
    assert!(matches_at(&text, &chars("abc"), 0));
    assert!(matches_at(&text, &chars("abc"), 3));
    assert!(!matches_at(&text, &chars("abc"), 1));
    assert!(!matches_at(&text, &chars("abc"), 4));
    assert!(!matches_at(&text, &chars("abc"), usize::MAX));
    assert!(matches_at(&text, &chars(""), 6));
    assert!(!matches_at(&text, &chars(""), 7));
    assert!(!matches_at(&text, &chars("abcabcabc"), 0));
}

#[test]
fn key_segments_are_lower_case_digits_and_underscores() {
    assert!(is_key_text(&chars("a")));
    assert!(is_key_text(&chars("z")));
    assert!(is_key_text(&chars("0")));
    assert!(is_key_text(&chars("9")));
    assert!(is_key_text(&chars("_")));
    assert!(is_key_text(&chars("51b4df78ae6d180ce585_elizabethzaks_48380328493_1682528600")));
    assert!(!is_key_text(&chars("")));
    assert!(!is_key_text(&chars("A")));
    assert!(!is_key_text(&chars("a-b")));
    assert!(!is_key_text(&chars("a/b")));
    assert!(!is_key_text(&chars("ab ")));
    assert!(!is_key_text(&chars("`")));
    assert!(!is_key_text(&chars("{")));
    assert!(!is_key_text(&chars("/")));
    assert!(!is_key_text(&chars(":")));
    assert!(!is_key_text(&chars("\u{e9}")));
}
