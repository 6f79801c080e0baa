use bible_io::{Bible, BibleError, BookData};

fn chapter_with(verse: usize, text: &str) -> Vec<String> {
    let mut texts = vec!["...".to_string(); verse];
    texts[verse - 1] = text.to_string();
    texts
}

fn book_with(title: &str, chapter: usize, verse: usize, text: &str) -> BookData {
    let mut chapters = vec![vec!["...".to_string()]; chapter];
    chapters[chapter - 1] = chapter_with(verse, text);
    BookData { name: title.to_string(), chapters }
}

fn excerpts() -> Bible {
    let entries = vec![
        (
            "gn".to_string(),
            book_with(
                "Genesis",
                1,
                1,
                "In the beginning God created the heaven and the earth.",
            ),
        ),
        (
            "ex".to_string(),
            book_with(
                "Exodus",
                3,
                14,
                "And God said unto Moses, I AM THAT I AM: and he said, Thus shalt thou say unto the children of Israel, I AM hath sent me unto you.",
            ),
        ),
        (
            "jo".to_string(),
            book_with(
                "John",
                3,
                16,
                "For God so loved the world, that he gave his only begotten Son, that whosoever believeth in him should not perish, but have everlasting life.",
            ),
        ),
        (
            "1co".to_string(),
            book_with(
                "1 Corinthians",
                13,
                1,
                "Though I speak with the tongues of men and of angels, and have not charity, I am become as sounding brass, or a tinkling cymbal.",
            ),
        ),
        (
            "re".to_string(),
            book_with(
                "Revelation",
                22,
                21,
                "The grace of our Lord Jesus Christ be with you all. Amen.",
            ),
        ),
    ];
    Bible::from_entries(
        entries,
        "en-kjv".to_string(),
        "King James Version".to_string(),
        "Excerpts".to_string(),
        "English".to_string(),
    )
}

#[test]
fn test_get_verse_by_reference_valid() {
    let bible = excerpts();

    let verse = bible
        .get_verse_by_reference("Gen 1:1")
        .expect("Verse not found");
    assert_eq!(
        verse.text(),
        "In the beginning God created the heaven and the earth."
    );

    let verse = bible
        .get_verse_by_reference("Jn 3:16")
        .expect("Verse not found");
    assert!(verse.text().starts_with("For God so loved the world"));

    let verse = bible
        .get_verse_by_reference("Exo 3:14")
        .expect("Verse not found");
    assert!(verse
        .text()
        .starts_with("And God said unto Moses, I AM THAT I AM"));

    let verse = bible
        .get_verse_by_reference("1Co 13:1")
        .expect("Verse not found");
    assert!(verse
        .text()
        .starts_with("Though I speak with the tongues of men and of angels"));

    let verse = bible
        .get_verse_by_reference("Rev 22:21")
        .expect("Verse not found");
    assert!(verse
        .text()
        .starts_with("The grace of our Lord Jesus Christ be with you all"));
}

#[test]
fn test_get_verse_by_reference_invalid() {
    let bible = excerpts();

    assert!(bible.get_verse_by_reference("Unknown 1:1").is_err());
    assert!(bible.get_verse_by_reference("Genesis 1").is_err());
}

fn parse_failure(bible: &Bible, reference: &str) -> String {
    match bible.get_verse_by_reference(reference) {
        Err(BibleError::ReferenceParseError { reference }) => reference,
        other => panic!("expected a parse failure, got {:?}", other),
    }
}

#[test]
fn parse_failures_carry_the_part_not_understood() {
    let bible = excerpts();
    // no colon: the whole string, trimmed
    assert_eq!(parse_failure(&bible, "  Genesis 1  "), "Genesis 1");
    assert_eq!(parse_failure(&bible, ""), "");
    // verse is no number: the whole string, trimmed
    assert_eq!(parse_failure(&bible, " Gen 1:x "), "Gen 1:x");
    assert_eq!(parse_failure(&bible, "Gen 1:"), "Gen 1:");
    assert_eq!(parse_failure(&bible, "Gen 1:-1"), "Gen 1:-1");
    // no space before the colon: what stands before the colon
    assert_eq!(parse_failure(&bible, "Gen1:1"), "Gen1");
    // chapter is no number: what stands before the colon
    assert_eq!(parse_failure(&bible, "Gen one:1"), "Gen one");
    assert_eq!(parse_failure(&bible, "Gen 1 :1"), "Gen 1 ");
    // the book is not known: the book as written
    assert_eq!(parse_failure(&bible, "Unknown 1:1"), "Unknown");
    assert_eq!(parse_failure(&bible, "No  such book  1:1"), "No  such book ");
}

#[test]
fn references_allow_whitespace_and_signs() {
    let bible = excerpts();
    let expected = "In the beginning God created the heaven and the earth.";
    for reference in [
        "Gen 1:1",
        "  Gen 1:1  ",
        "Gen 1: 1",
        "Gen  1:1",
        "\tgen 1:1\n",
        "GEN 1:1",
        "Gen +1:+1",
        "Gen 01:001",
        "gn 1:1",
        "Ge 1:1",
        "Genesis 1:1",
        "genesis 1:1",
    ] {
        let verse = bible.get_verse_by_reference(reference).unwrap();
        assert_eq!(verse.text(), expected, "{}", reference);
    }
}

#[test]
fn reference_lookup_failures_are_those_of_the_lookup() {
    let bible = excerpts();
    assert_eq!(
        bible.get_verse_by_reference("Gen 2:1").unwrap_err(),
        BibleError::ChapterOutOfBounds {
            book_abbrev: "gn".to_string(),
            book_name: "Genesis".to_string(),
            chapter: 2,
            max_chapter: 1,
        }
    );
    assert_eq!(
        bible.get_verse_by_reference("Gen 1:2").unwrap_err(),
        BibleError::VerseOutOfBounds {
            book_abbrev: "gn".to_string(),
            book_name: "Genesis".to_string(),
            chapter: 1,
            verse: 2,
            max_verse: 1,
        }
    );
    assert_eq!(
        bible.get_verse_by_reference("Matt 1:1").unwrap_err(),
        BibleError::BookNotFound {
            book_abbrev: "mt".to_string(),
            book_name: "Matthew".to_string(),
            translation: "King James Version".to_string(),
        }
    );
    let too_large = format!("Gen 1:{}0", usize::MAX);
    assert_eq!(parse_failure(&bible, &too_large), too_large);
}

#[test]
fn reference_resolves_to_the_same_verse_as_the_address() {
    let bible = excerpts();
    let by_reference = bible.get_verse_by_reference("Gen 1:1").unwrap();
    let by_address = bible
        .get_verse(bible_io::BibleBook::Genesis, 1, 1)
        .unwrap();
    assert_eq!(by_reference, by_address);
    assert!(std::ptr::eq(by_reference, by_address));
}

#[test]
fn references_against_a_single_verse_corpus() {
    let bible = Bible::from_entries(
        vec![(
            "gn".to_string(),
            BookData {
                name: "Genesis".to_string(),
                chapters: vec![vec!["In the beginning".to_string()]],
            },
        )],
        String::new(),
        String::new(),
        String::new(),
        String::new(),
    );
    let by_address = bible.get_verse(bible_io::BibleBook::Genesis, 1, 1).unwrap();
    assert_eq!(by_address.text(), "In the beginning");
    let by_reference = bible.get_verse_by_reference("Gen 1:1").unwrap();
    assert!(std::ptr::eq(by_reference, by_address));
    assert_eq!(
        bible.get_verse_by_reference("Genesis 1").unwrap_err(),
        BibleError::ReferenceParseError { reference: "Genesis 1".to_string() }
    );
    assert_eq!(
        bible.get_verse_by_reference("Unknown 1:1").unwrap_err(),
        BibleError::ReferenceParseError { reference: "Unknown".to_string() }
    );
}
