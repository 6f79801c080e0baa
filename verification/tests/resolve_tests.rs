use bible_io::aliases::{alias_entry, ALIAS_COUNT};
use bible_io::{Bible, BibleBook, BibleError, Book, BookData, Chapter, Verse};
use indexmap::IndexMap;

fn small_bible() -> Bible {
    let book = |abbrev: &str, title: &str| {
        Book::new(
            abbrev.to_string(),
            title.to_string(),
            vec![Chapter::new(vec![Verse::new(title.to_string(), 1)], 1)],
        )
    };
    Bible::from_books(
        vec![
            book("gn", "Genesis"),
            book("jo", "The Gospel according to John"),
            book("jn", "Jonah"),
            book("xx", "Apocryphon"),
            book("PS", "Book of Psalms"),
        ],
        "t".to_string(),
        "Test Version".to_string(),
        "d".to_string(),
        "l".to_string(),
    )
}

#[test]
fn alternate_abbreviations_win_over_canonical_codes() {
    let bible = small_bible();
    assert_eq!(BibleBook::from_str("jn"), Ok(BibleBook::Jonah));
    assert_eq!(BibleBook::from_alias("jn"), Some(BibleBook::John));
    assert_eq!(bible.resolve_book("jn"), Some(BibleBook::John));
    assert_eq!(bible.resolve_book("JN"), Some(BibleBook::John));
    assert_eq!(BibleBook::from_str("jud"), Ok(BibleBook::Judges));
    assert_eq!(bible.resolve_book("jud"), Some(BibleBook::Jude));
    assert_eq!(bible.resolve_book("jon"), Some(BibleBook::Jonah));
}

#[test]
fn resolution_falls_back_to_codes_and_then_to_titles() {
    let bible = small_bible();
    assert_eq!(bible.resolve_book("gen"), Some(BibleBook::Genesis));
    assert_eq!(bible.resolve_book("Exod"), Some(BibleBook::Exodus));
    assert_eq!(bible.resolve_book("1sam"), Some(BibleBook::FirstSamuel));
    assert_eq!(bible.resolve_book("matt"), Some(BibleBook::Matthew));
    assert_eq!(bible.resolve_book("songofsongs"), Some(BibleBook::SongOfSolomon));
    assert_eq!(bible.resolve_book("4mac"), Some(BibleBook::FourthMaccabees));
    // canonical codes that are no alternate abbreviation
    assert_eq!(bible.resolve_book("gn"), Some(BibleBook::Genesis));
    assert_eq!(bible.resolve_book("DNB"), Some(BibleBook::DanielBelAndTheDragon));
    // titles of the loaded books
    assert_eq!(bible.resolve_book("genesis"), Some(BibleBook::Genesis));
    assert_eq!(
        bible.resolve_book("the gospel ACCORDING to john"),
        Some(BibleBook::John)
    );
    assert_eq!(bible.resolve_book("Book of Psalms"), Some(BibleBook::Psalms));
    // a title whose book has no canonical code
    assert_eq!(bible.resolve_book("Apocryphon"), None);
    // full names of books that are not loaded are no titles of this corpus
    assert_eq!(bible.resolve_book("Exodus"), None);
    assert_eq!(bible.resolve_book(""), None);
    assert_eq!(bible.resolve_book(" gen"), None);
}

#[test]
fn the_alias_table_keeps_its_order_and_size() {
    assert_eq!(ALIAS_COUNT, 138);
    assert_eq!(alias_entry(0), Some(("gen", BibleBook::Genesis)));
    assert_eq!(alias_entry(1), Some(("ge", BibleBook::Genesis)));
    assert_eq!(alias_entry(137), Some(("4mac", BibleBook::FourthMaccabees)));
    assert_eq!(alias_entry(138), None);
    let mut i = 0;
    while let Some((spelling, book)) = alias_entry(i) {
        assert_eq!(spelling, spelling.to_lowercase());
        assert_eq!(BibleBook::from_alias(spelling), Some(book));
        assert_eq!(BibleBook::from_alias(&spelling.to_uppercase()), Some(book));
        i += 1;
    }
    assert_eq!(i, ALIAS_COUNT);
    assert_eq!(BibleBook::from_alias("genesis"), None);
}

#[test]
fn book_not_found_names_the_book_where_the_code_is_canonical() {
    let bible = small_bible();
    assert_eq!(
        bible.get_book(BibleBook::DanielSusanna).unwrap_err(),
        BibleError::BookNotFound {
            book_abbrev: "dns".to_string(),
            book_name: "Daniel (Susanna)".to_string(),
            translation: "Test Version".to_string(),
        }
    );
    assert_eq!(
        bible.get_book_by_abbrev("EX").unwrap_err(),
        BibleError::BookNotFound {
            book_abbrev: "ex".to_string(),
            book_name: "Exodus".to_string(),
            translation: "Test Version".to_string(),
        }
    );
    assert_eq!(
        bible.get_book_by_abbrev("Nope").unwrap_err(),
        BibleError::BookNotFound {
            book_abbrev: "nope".to_string(),
            book_name: "nope".to_string(),
            translation: "Test Version".to_string(),
        }
    );
}

#[test]
fn of_two_books_with_one_abbreviation_the_later_is_found() {
    let book = |abbrev: &str, title: &str| {
        Book::new(abbrev.to_string(), title.to_string(), vec![])
    };
    let bible = Bible::from_books(
        vec![book("gn", "First"), book("ex", "Exodus"), book("GN", "Second")],
        String::new(),
        String::new(),
        String::new(),
        String::new(),
    );
    assert_eq!(bible.books().len(), 3);
    assert_eq!(bible.get_book(BibleBook::Genesis).unwrap().title(), "Second");
    assert_eq!(bible.get_book_by_abbrev("Gn").unwrap().title(), "Second");
    assert_eq!(bible.get_book_by_abbrev("ex").unwrap().title(), "Exodus");
}

#[test]
fn a_loaded_map_keeps_its_order_and_numbers_by_position() {
    let mut map = IndexMap::new();
    for (key, title) in [("zc", "Zechariah"), ("AM", "Amos"), ("mk", "Mark"), ("gn", "Genesis")] {
        map.insert(
            key.to_string(),
            BookData {
                name: title.to_string(),
                chapters: vec![
                    vec![format!("{} one", title), format!("{} {{two}}", title)],
                    vec![],
                    vec![format!("{} three", title)],
                ],
            },
        );
    }
    let bible = Bible::new_from_map_with_meta(
        map,
        "i".to_string(),
        "n".to_string(),
        "d".to_string(),
        "l".to_string(),
    );
    let titles: Vec<&str> = bible.books().iter().map(|b| b.title()).collect();
    assert_eq!(titles, vec!["Zechariah", "Amos", "Mark", "Genesis"]);
    let abbrevs: Vec<&str> = bible.books().iter().map(|b| b.abbrev()).collect();
    assert_eq!(abbrevs, vec!["zc", "am", "mk", "gn"]);
    let amos = bible.get_book(BibleBook::Amos).unwrap();
    assert_eq!(amos.chapters().len(), 3);
    assert_eq!(amos.chapters()[0].number(), 1);
    assert_eq!(amos.chapters()[2].number(), 3);
    assert_eq!(amos.get_verse(1, 2).unwrap().text(), "Amos two");
    assert_eq!(amos.get_verse(1, 2).unwrap().number(), 2);
    assert_eq!(amos.get_verse(3, 1).unwrap().text(), "Amos three");
    assert!(matches!(
        amos.get_verse(2, 1).unwrap_err(),
        BibleError::VerseOutOfBounds { chapter: 2, verse: 1, max_verse: 0, .. }
    ));
    assert_eq!((bible.id(), bible.name(), bible.description(), bible.language()), ("i", "n", "d", "l"));
}

#[test]
fn addressing_goes_round() {
    let bible = small_bible();
    for (i, book) in bible.books().iter().enumerate() {
        let Ok(id) = BibleBook::from_str(book.abbrev()) else {
            continue;
        };
        for (j, chapter) in book.chapters().iter().enumerate() {
            for (k, verse) in chapter.get_verses().iter().enumerate() {
                let found = bible.get_verse(id, j + 1, verse.number()).unwrap();
                assert!(std::ptr::eq(found, &bible.books()[i].chapters()[j].get_verses()[k]));
                assert_eq!(found.number(), verse.number());
            }
        }
    }
}
