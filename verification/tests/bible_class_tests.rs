use bible_io::{Bible, BibleBook, BibleError, Book, BookData, Chapter, Verse};
use indexmap::IndexMap;

fn genesis_first_verse() -> Verse {
    Verse::new(
        "In the beginning God created the heaven and the earth.".to_string(),
        1,
    )
}

fn genesis_first_chapter() -> Chapter {
    let verses = vec![
        Verse::new("In the beginning God created the heaven and the earth.".to_string(), 1),
        Verse::new("And the earth was without form, and void; and darkness was upon the face of the deep.".to_string(), 2),
        Verse::new("And the Spirit of God moved upon the face of the waters.".to_string(), 3),
    ];
    Chapter::new(verses, 1)
}

fn genesis_two_chapters() -> Book {
    let chapters = vec![
        genesis_first_chapter(),
        Chapter::new(
            vec![
                Verse::new(
                    "Thus the heavens and the earth were finished.".to_string(),
                    1,
                ),
                Verse::new("And on the seventh day God ended his work.".to_string(), 2),
            ],
            2,
        ),
    ];
    Book::new("gn".to_string(), "Genesis".to_string(), chapters)
}

fn king_james_genesis() -> Bible {
    Bible::from_books(
        vec![genesis_two_chapters()],
        "en-kjv".to_string(),
        "King James Version".to_string(),
        "Test Bible".to_string(),
        "English".to_string(),
    )
}

fn wrapped_genesis_map() -> IndexMap<String, BookData> {
    let mut map = IndexMap::new();
    map.insert(
        "gn".to_string(),
        BookData {
            name: "Genesis".to_string(),
            chapters: vec![
                vec!["Verse 1".to_string(), "Verse 2".to_string()],
                vec!["Verse 1".to_string()],
            ],
        },
    );
    map
}

#[test]
fn test_bible_parse_new_wrapped_format() {
    let bible = Bible::new_from_map_with_meta(
        wrapped_genesis_map(),
        "en-kjv".to_string(),
        "King James Version".to_string(),
        "King James Version of the Holy Bible".to_string(),
        "English".to_string(),
    );

    assert_eq!(bible.id(), "en-kjv");
    assert_eq!(bible.name(), "King James Version");
    assert_eq!(bible.description(), "King James Version of the Holy Bible");
    assert_eq!(bible.language(), "English");

    let gn = bible.get_book_by_abbrev("gn").unwrap();
    assert_eq!(gn.title(), "Genesis");
    assert_eq!(gn.get_chapter(1).unwrap().get_verses().len(), 2);
    assert_eq!(gn.get_chapter(2).unwrap().get_verses().len(), 1);
}

#[test]
fn test_verse_creation() {
    let verse = genesis_first_verse();
    assert_eq!(
        verse.text(),
        "In the beginning God created the heaven and the earth."
    );
    assert_eq!(verse.number(), 1);
}

#[test]
fn test_verse_display() {
    let verse = genesis_first_verse();
    let display = verse.to_string();
    assert_eq!(
        display,
        "1: In the beginning God created the heaven and the earth."
    );
}

#[test]
fn test_chapter_creation() {
    let chapter = genesis_first_chapter();
    assert_eq!(chapter.number(), 1);
    assert_eq!(chapter.get_verses().len(), 3);
}

#[test]
fn test_chapter_get_verses() {
    let chapter = genesis_first_chapter();
    let verses = chapter.get_verses();
    assert_eq!(verses.len(), 3);
    assert_eq!(verses[0].number(), 1);
    assert_eq!(verses[1].number(), 2);
    assert_eq!(verses[2].number(), 3);
}

#[test]
fn test_chapter_get_verse() {
    let chapter = genesis_first_chapter();

    // Valid verse
    let verse = chapter.get_verse(2);
    assert!(verse.is_some());
    assert_eq!(verse.unwrap().number(), 2);

    // Invalid verse
    let verse = chapter.get_verse(99);
    assert!(verse.is_none());
}

#[test]
fn test_chapter_display() {
    let chapter = genesis_first_chapter();
    let display = chapter.to_string();
    assert!(display.contains("Chapter 1:"));
    assert!(display.contains("1: In the beginning God created the heaven and the earth."));
    assert!(display.contains("2: And the earth was without form, and void; and darkness was upon the face of the deep."));
    assert!(display.contains("3: And the Spirit of God moved upon the face of the waters."));
}

#[test]
fn test_book_creation() {
    let book = genesis_two_chapters();
    assert_eq!(book.abbrev(), "gn");
    assert_eq!(book.title(), "Genesis");
    assert_eq!(book.chapters().len(), 2);
}

#[test]
fn test_book_get_chapter() {
    let book = genesis_two_chapters();

    // Valid chapter
    let chapter = book.get_chapter(1).unwrap();
    assert_eq!(chapter.number(), 1);

    // Invalid chapter
    let err = book.get_chapter(99).unwrap_err();
    assert!(matches!(err, BibleError::ChapterOutOfBounds { .. }));
}

#[test]
fn test_book_get_verses() {
    let book = genesis_two_chapters();

    // Valid chapter
    let verses = book.get_verses(1).unwrap();
    assert_eq!(verses.len(), 3);

    // Invalid chapter
    let err = book.get_verses(99).unwrap_err();
    assert!(matches!(err, BibleError::ChapterOutOfBounds { .. }));
}

#[test]
fn test_book_get_verse() {
    let book = genesis_two_chapters();

    // Valid verse
    let verse = book.get_verse(1, 2).unwrap();
    assert_eq!(verse.number(), 2);

    // Invalid chapter
    let err = book.get_verse(99, 1).unwrap_err();
    assert!(matches!(err, BibleError::ChapterOutOfBounds { .. }));

    // Invalid verse
    let err = book.get_verse(1, 99).unwrap_err();
    assert!(matches!(err, BibleError::VerseOutOfBounds { .. }));
}

#[test]
fn test_book_display() {
    let book = genesis_two_chapters();
    let display = book.to_string();
    assert_eq!(display, "Book: Genesis (gn)");
}

#[test]
fn test_bible_creation() {
    let bible = king_james_genesis();
    assert_eq!(bible.books().len(), 1);
    assert!(bible.get_book_by_abbrev("gn").is_ok());
}

#[test]
fn test_bible_get_book() {
    let bible = king_james_genesis();

    // Valid book
    let book = bible.get_book(BibleBook::Genesis).unwrap();
    assert_eq!(book.abbrev(), "gn");

    // Invalid book
    let err = bible.get_book(BibleBook::Exodus).unwrap_err();
    if let BibleError::BookNotFound { translation, .. } = err {
        assert_eq!(translation, "King James Version");
    } else {
        panic!("Expected BookNotFound error");
    }
}

#[test]
fn test_bible_get_book_by_abbrev() {
    let bible = king_james_genesis();

    // Valid abbreviation
    let book = bible.get_book_by_abbrev("gn").unwrap();
    assert_eq!(book.title(), "Genesis");

    // Case-insensitive lookup
    let book = bible.get_book_by_abbrev("GN").unwrap();
    assert_eq!(book.title(), "Genesis");

    // Invalid abbreviation
    let err = bible.get_book_by_abbrev("ex").unwrap_err();
    assert!(matches!(err, BibleError::BookNotFound { .. }));
}

#[test]
fn test_bible_get_verses() {
    let bible = king_james_genesis();

    // Valid book and chapter
    let verses = bible.get_verses(BibleBook::Genesis, 1).unwrap();
    assert_eq!(verses.len(), 3);

    // Invalid book
    let err = bible.get_verses(BibleBook::Exodus, 1).unwrap_err();
    assert!(matches!(err, BibleError::BookNotFound { .. }));

    // Invalid chapter
    let err = bible.get_verses(BibleBook::Genesis, 99).unwrap_err();
    assert!(matches!(err, BibleError::ChapterOutOfBounds { .. }));
}

#[test]
fn test_bible_get_verse() {
    let bible = king_james_genesis();

    // Valid verse
    let verse = bible.get_verse(BibleBook::Genesis, 1, 2).unwrap();
    assert_eq!(verse.number(), 2);

    // Invalid book
    let err = bible.get_verse(BibleBook::Exodus, 1, 1).unwrap_err();
    assert!(matches!(err, BibleError::BookNotFound { .. }));

    // Invalid chapter
    let err = bible.get_verse(BibleBook::Genesis, 99, 1).unwrap_err();
    assert!(matches!(err, BibleError::ChapterOutOfBounds { .. }));

    // Invalid verse
    let err = bible.get_verse(BibleBook::Genesis, 1, 99).unwrap_err();
    assert!(matches!(err, BibleError::VerseOutOfBounds { .. }));
}

#[test]
fn test_bible_new_from_map() {
    let bible = Bible::new_from_map_with_meta(
        wrapped_genesis_map(),
        String::new(),
        String::new(),
        String::new(),
        String::new(),
    );

    assert_eq!(bible.id(), "");
    assert_eq!(bible.name(), "");
    assert_eq!(bible.description(), "");
    assert_eq!(bible.language(), "");

    assert_eq!(bible.books().len(), 1);
    assert_eq!(bible.books()[0].abbrev(), "gn");
    assert_eq!(bible.books()[0].title(), "Genesis");
    assert_eq!(bible.books()[0].chapters().len(), 2);
    assert_eq!(bible.books()[0].chapters()[0].get_verses().len(), 2);
    assert_eq!(bible.books()[0].chapters()[1].get_verses().len(), 1);
}

#[test]
fn test_debug_traits() {
    let verse = genesis_first_verse();
    let chapter = genesis_first_chapter();
    let book = genesis_two_chapters();
    let bible = king_james_genesis();

    let _debug_verse = format!("{:?}", verse);
    let _debug_chapter = format!("{:?}", chapter);
    let _debug_book = format!("{:?}", book);
    let _debug_bible = format!("{:?}", bible.books());
}

#[test]
fn test_verse_numbering() {
    let verses = [
        Verse::new("First verse".to_string(), 1),
        Verse::new("Second verse".to_string(), 2),
        Verse::new("Third verse".to_string(), 3),
    ];

    for (i, verse) in verses.iter().enumerate() {
        assert_eq!(verse.number(), i + 1);
    }
}

#[test]
fn test_chapter_numbering() {
    let chapters = [
        Chapter::new(vec![], 1),
        Chapter::new(vec![], 2),
        Chapter::new(vec![], 3),
    ];

    for (i, chapter) in chapters.iter().enumerate() {
        assert_eq!(chapter.number(), i + 1);
    }
}
