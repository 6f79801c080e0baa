use bible_io::error::BibleError;
use bible_io::reference::read_reference;
use bible_io::text::{
    char_is_ascii_alphanumeric, char_is_whitespace, char_to_ascii_lowercase, chars_of,
    eq_ignore_ascii_case, parse_usize, push_decimal, to_ascii_lowercase, trimmed,
};

fn chars(s: &str) -> Vec<char> {
    s.chars().collect()
}

#[test]
fn character_classes_agree_with_the_standard_library() {
    let mut code = 0u32;
    while code <= 0x3100 {
        if let Some(c) = char::from_u32(code) {
            assert_eq!(char_is_ascii_alphanumeric(c), c.is_ascii_alphanumeric(), "{:x}", code);
            assert_eq!(char_is_whitespace(c), c.is_whitespace(), "{:x}", code);
            assert_eq!(char_to_ascii_lowercase(c), c.to_ascii_lowercase(), "{:x}", code);
        }
        code += 1;
    }
}

#[test]
fn lower_casing_touches_ascii_letters_only() {
    assert_eq!(to_ascii_lowercase("GeN 1:1 ÄÖ"), "gen 1:1 ÄÖ");
    assert_eq!(to_ascii_lowercase(""), "");
    assert!(eq_ignore_ascii_case("Genesis", "gENESIS"));
    assert!(!eq_ignore_ascii_case("Genesis", "Genesi"));
    assert!(!eq_ignore_ascii_case("ä", "Ä"));
    assert_eq!(chars_of("aé1"), vec!['a', 'é', '1']);
}

#[test]
fn trimming_drops_whitespace_at_both_ends_only() {
    for s in ["", " ", "a", " a", "a ", "  a b  ", "\t\r\n x \u{2003}\u{3000}", "\u{a0}y\u{85}", "_ a _"] {
        let expected: Vec<char> = s.trim().chars().collect();
        assert_eq!(trimmed(&chars(s)), expected, "{:?}", s);
    }
}

#[test]
fn numbers_parse_as_the_machine_word_does() {
    for s in [
        "", "+", "-", "0", "+0", "7", "007", "+42", "-1", "12a", "a12", " 1", "1 ", "1_0", "++1",
        "٣", "18446744073709551615", "18446744073709551616", "4294967295", "4294967296",
        "99999999999999999999999", "+-1",
    ] {
        assert_eq!(parse_usize(&chars(s)), s.parse::<usize>().ok(), "{:?}", s);
    }
    assert_eq!(parse_usize(&chars("316")), Some(316));
}

#[test]
fn decimals_are_written_without_padding() {
    for n in [0usize, 1, 9, 10, 11, 99, 100, 101, 12345, usize::MAX] {
        let mut out = String::from("n=");
        push_decimal(&mut out, n);
        assert_eq!(out, format!("n={}", n));
    }
}

#[test]
fn the_grammar_splits_at_the_last_colon_and_the_last_space_before_it() {
    assert_eq!(read_reference("Gen 1:1"), Ok(("Gen".to_string(), 1, 1)));
    assert_eq!(
        read_reference(" Song of Solomon  2: 10 "),
        Ok(("Song of Solomon ".to_string(), 2, 10))
    );
    assert_eq!(
        read_reference(" Song of Solomon 2 :10 "),
        Err("Song of Solomon 2 ".to_string())
    );
    assert_eq!(read_reference("1 Co 13:1"), Ok(("1 Co".to_string(), 13, 1)));
    assert_eq!(read_reference("Jn  3:16"), Ok(("Jn ".to_string(), 3, 16)));
    assert_eq!(read_reference("a:b 3:4"), Ok(("a:b".to_string(), 3, 4)));
    assert_eq!(read_reference(" 3:4"), Err("3".to_string()));
    assert_eq!(read_reference("  3:4"), Err("3".to_string()));
    assert_eq!(read_reference("x:  3:4"), Ok(("x: ".to_string(), 3, 4)));
    assert_eq!(read_reference("x  3:4"), Ok(("x ".to_string(), 3, 4)));
    assert_eq!(read_reference("Genesis 1"), Err("Genesis 1".to_string()));
    assert_eq!(read_reference("Gen 1:1:x"), Err("Gen 1:1:x".to_string()));
    assert_eq!(read_reference("Gen 1:"), Err("Gen 1:".to_string()));
    assert_eq!(read_reference("Gen:1"), Err("Gen".to_string()));
    assert_eq!(read_reference("Gen x:1"), Err("Gen x".to_string()));
    assert_eq!(read_reference(":"), Err(":".to_string()));
}

#[test]
fn error_messages() {
    assert_eq!(
        BibleError::BookNotFound {
            book_abbrev: "ex".to_string(),
            book_name: "Exodus".to_string(),
            translation: "King James Version".to_string(),
        }
        .to_string(),
        "Book Exodus ('ex') not found in the 'King James Version' Bible translation"
    );
    assert_eq!(
        BibleError::ChapterOutOfBounds {
            book_abbrev: "gn".to_string(),
            book_name: "Genesis".to_string(),
            chapter: 99,
            max_chapter: 50,
        }
        .to_string(),
        "Chapter 99 is out of bounds for book Genesis ('gn') (max 50)"
    );
    assert_eq!(
        BibleError::VerseOutOfBounds {
            book_abbrev: "gn".to_string(),
            book_name: "Genesis".to_string(),
            chapter: 1,
            verse: 32,
            max_verse: 31,
        }
        .to_string(),
        "Verse 32 is out of bounds for book Genesis ('gn') chapter 1 (max 31)"
    );
    assert_eq!(
        BibleError::ReferenceParseError { reference: "Genesis 1".to_string() }.to_string(),
        "Cannot parse 'Genesis 1' as a verse reference"
    );
    let e = BibleError::ReferenceParseError { reference: "x".to_string() };
    assert_eq!(e.clone(), e);
}
