use bible_io::{Chapter, Verse};

#[test]
fn chapter_test_new_and_accessors() {
    let verses = vec![Verse::new("Test".into(), 1)];
    let chapter = Chapter::new(verses, 1);
    assert_eq!(chapter.number(), 1);
    assert_eq!(chapter.get_verses().len(), 1);
    assert_eq!(chapter.get_verse(1).unwrap().number(), 1);
    assert!(chapter.get_verse(0).is_none());
}

#[test]
fn chapter_test_clone_independence() {
    let verses = vec![Verse::new("Clone".into(), 1)];
    let first = Chapter::new(verses, 1);
    let cloned = first.clone();

    assert_eq!(first.number(), cloned.number());
    assert_eq!(first.get_verses().len(), cloned.get_verses().len());
    assert_eq!(
        first.get_verses()[0].text(),
        cloned.get_verses()[0].text()
    );

    // The cloned chapter owns its data.
    assert_ne!(first.get_verses().as_ptr(), cloned.get_verses().as_ptr());
    assert_ne!(
        first.get_verses()[0].text().as_ptr(),
        cloned.get_verses()[0].text().as_ptr()
    );
}

#[test]
fn get_verse_goes_by_number_not_by_position() {
    let verses = vec![
        Verse::new("five".into(), 5),
        Verse::new("two".into(), 2),
        Verse::new("second five".into(), 5),
    ];
    let chapter = Chapter::new(verses, 3);
    assert_eq!(chapter.get_verse(5).unwrap().text(), "five");
    assert_eq!(chapter.get_verse(2).unwrap().text(), "two");
    assert!(chapter.get_verse(1).is_none());
    assert!(chapter.get_verse(3).is_none());
}

#[test]
fn chapter_display_of_no_and_one_verse() {
    assert_eq!(Chapter::new(vec![], 7).to_string(), "Chapter 7:\n");
    assert_eq!(
        Chapter::new(vec![Verse::new("a".into(), 1)], 12).to_string(),
        "Chapter 12:\n1: a"
    );
    assert_eq!(
        Chapter::new(
            vec![Verse::new("a".into(), 1), Verse::new("b".into(), 2)],
            1
        )
        .to_string(),
        "Chapter 1:\n1: a\n2: b"
    );
}
