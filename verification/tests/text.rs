use jodo::text::{
    char_count, chars_of, display_width, find_char, find_pair, fixed_width_string, join_words,
    pad_right, split_words, str_eq, string_of, trim_bounds, truncate_str,
};

fn chars(s: &str) -> Vec<char> {
    s.chars().collect()
}

#[test]
fn chars_of_gives_each_character() {
    assert_eq!(chars_of("a\u{4e2d}b"), vec!['a', '\u{4e2d}', 'b']);
    assert_eq!(chars_of(""), Vec::<char>::new());
    assert_eq!(string_of(&chars("hello"), 1, 4), "ell");
    assert_eq!(string_of(&chars("hello"), 2, 2), "");
    assert_eq!(char_count("a\u{4e2d}b"), 3);
}

#[test]
fn str_eq_compares_texts() {
    assert!(str_eq("abc", "abc"));
    assert!(str_eq("", ""));
    assert!(!str_eq("abc", "abd"));
    assert!(!str_eq("abc", "ab"));
    assert!(!str_eq("", "a"));
}

#[test]
fn find_char_gives_the_first_place() {
    let text = chars("a-b-c");
    assert_eq!(find_char(&text, 0, 5, '-'), 1);
    assert_eq!(find_char(&text, 2, 5, '-'), 1);
    assert_eq!(find_char(&text, 4, 5, '-'), 1);
    assert_eq!(find_char(&text, 0, 1, '-'), 1);
    assert_eq!(find_char(&text, 0, 0, '-'), 0);
}

#[test]
fn find_pair_gives_the_first_place() {
    let text = chars("1to2to3");
    assert_eq!(find_pair(&text, 0, 7, 't', 'o'), 1);
    assert_eq!(find_pair(&text, 3, 7, 't', 'o'), 1);
    assert_eq!(find_pair(&text, 6, 7, 't', 'o'), 1);
    assert_eq!(find_pair(&text, 0, 2, 't', 'o'), 2);
    assert_eq!(find_pair(&chars("tto"), 0, 3, 't', 'o'), 1);
    assert_eq!(find_pair(&chars("t"), 0, 1, 't', 'o'), 1);
    assert_eq!(find_pair(&chars("ot"), 0, 2, 't', 'o'), 2);
}

#[test]
fn trim_bounds_drops_white_space_at_both_ends() {
    let text = chars("  a b \t\n");
    assert_eq!(trim_bounds(&text, 0, text.len()), (2, 5));
    assert_eq!(trim_bounds(&text, 3, 5), (4, 5));
    let blank = chars(" \t ");
    assert_eq!(trim_bounds(&blank, 0, 3), (3, 3));
    assert_eq!(trim_bounds(&chars("ab"), 0, 2), (0, 2));
    assert_eq!(trim_bounds(&chars(""), 0, 0), (0, 0));
    let wide = chars("\u{3000}x\u{a0}");
    assert_eq!(trim_bounds(&wide, 0, 3), (1, 2));
}

#[test]
fn trim_bounds_agrees_with_std() {
    for text in ["", " ", "a", " a", "a ", "  a  b  ", "\u{2003}a\u{2003}", "\u{feff}a", "_ a _"] {
        let c = chars(text);
        let (a, b) = trim_bounds(&c, 0, c.len());
        assert_eq!(string_of(&c, a, b), text.trim());
    }
}

#[test]
fn split_words_at_white_space() {
    assert_eq!(split_words(":a  buy \t milk\n"), vec![":a", "buy", "milk"]);
    assert_eq!(split_words(""), Vec::<String>::new());
    assert_eq!(split_words("   "), Vec::<String>::new());
    assert_eq!(split_words("one"), vec!["one"]);
    assert_eq!(split_words("a\u{3000}b"), vec!["a", "b"]);
    assert_eq!(split_words("a_b"), vec!["a_b"]);
}

#[test]
fn split_words_agrees_with_std() {
    for text in ["", " ", "a", " a b ", "a\tb\nc\r\nd", "x\u{a0}y", "\u{1680}z", ":e 1 -t  tm"] {
        let expected: Vec<String> = text.split_whitespace().map(|w| w.to_string()).collect();
        assert_eq!(split_words(text), expected);
    }
}

#[test]
fn join_words_with_single_spaces() {
    let words: Vec<String> = ["a", "b", "c", "d"].iter().map(|w| w.to_string()).collect();
    assert_eq!(join_words(&words, 0, 4), "a b c d");
    assert_eq!(join_words(&words, 1, 3), "b c");
    assert_eq!(join_words(&words, 2, 3), "c");
    assert_eq!(join_words(&words, 2, 2), "");
}

#[test]
fn display_width_counts_wide_characters_twice() {
    assert_eq!(display_width(""), 0);
    assert_eq!(display_width("abc"), 3);
    assert_eq!(display_width("\u{4e2d}\u{6587}"), 4);
    assert_eq!(display_width("a\u{4e2d}b"), 4);
    assert_eq!(display_width("\u{7f}"), 1);
    assert_eq!(display_width("\u{80}"), 2);
    assert_eq!(display_width("\u{e9}"), 2);
}

#[test]
fn truncate_str_leaves_what_fits() {
    assert_eq!(truncate_str("hello", 5), "hello");
    assert_eq!(truncate_str("hello", 36), "hello");
    assert_eq!(truncate_str("", 0), "");
    assert_eq!(truncate_str("\u{4e2d}\u{6587}", 4), "\u{4e2d}\u{6587}");
}

#[test]
fn truncate_str_cuts_and_adds_dots() {
    assert_eq!(truncate_str("hello", 4), "hell...");
    assert_eq!(truncate_str("hello", 0), "...");
    assert_eq!(truncate_str("\u{4e2d}\u{6587}", 3), "\u{4e2d}...");
    assert_eq!(truncate_str("\u{4e2d}\u{6587}", 1), "...");
    assert_eq!(truncate_str("a\u{4e2d}b", 2), "a...");
    assert_eq!(truncate_str("a\u{4e2d}b", 3), "a\u{4e2d}...");
    let long = "x".repeat(40);
    assert_eq!(truncate_str(&long, 36), format!("{}...", "x".repeat(36)));
}

#[test]
fn fixed_width_string_adds_spaces() {
    assert_eq!(fixed_width_string("ab", 5), "ab   ");
    assert_eq!(fixed_width_string("ab", 2), "ab");
    assert_eq!(fixed_width_string("abc", 2), "abc");
    assert_eq!(fixed_width_string("", 3), "   ");
    assert_eq!(fixed_width_string("\u{4e2d}", 4), "\u{4e2d}  ");
    assert_eq!(fixed_width_string("\u{4e2d}\u{6587}", 3), "\u{4e2d}\u{6587}");
}

#[test]
fn pad_right_counts_characters() {
    assert_eq!(pad_right("ab", 5), "ab   ");
    assert_eq!(pad_right("abc", 2), "abc");
    assert_eq!(pad_right("\u{4e2d}", 3), "\u{4e2d}  ");
    assert_eq!(pad_right("7.", 3), format!("{:3}", "7."));
}
