use bible_io::{Bible, BibleBook, Book, Chapter, Verse};

fn single_verse_bible() -> Bible {
    let verse = Verse::new("In the beginning".to_string(), 1);
    let chapter = Chapter::new(vec![verse], 1);
    let book = Book::new("GN".to_string(), "Genesis".to_string(), vec![chapter]);
    Bible::from_books(
        vec![book],
        "id".to_string(),
        "name".to_string(),
        "desc".to_string(),
        "lang".to_string(),
    )
}

#[test]
fn test_get_book_and_verse() {
    let bible = single_verse_bible();
    let book = bible.get_book(BibleBook::Genesis).unwrap();
    assert_eq!(book.title(), "Genesis");
    let verse = bible.get_verse(BibleBook::Genesis, 1, 1).unwrap();
    assert_eq!(verse.number(), 1);
}

#[test]
fn bible_test_clone_independence() {
    let first = single_verse_bible();
    let cloned = first.clone();

    assert_eq!(first.id(), cloned.id());
    assert_eq!(first.name(), cloned.name());
    assert_eq!(first.description(), cloned.description());
    assert_eq!(first.language(), cloned.language());
    assert_eq!(first.books().len(), cloned.books().len());
    assert_eq!(first.books()[0].title(), cloned.books()[0].title());

    // The clone owns its data.
    assert_ne!(first.books().as_ptr(), cloned.books().as_ptr());
    assert_ne!(first.name().as_ptr(), cloned.name().as_ptr());
}
