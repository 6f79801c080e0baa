use bible_io::location::{contains_location, insert_ascending, location_eq, location_less};
use bible_io::BibleBook;

#[test]
fn locations_are_ordered_by_book_then_chapter_then_verse() {
    let a = (BibleBook::Genesis, 50, 26);
    let b = (BibleBook::Exodus, 1, 1);
    let c = (BibleBook::Exodus, 1, 2);
    let d = (BibleBook::Exodus, 2, 1);
    let e = (BibleBook::FourthMaccabees, 1, 1);
    let ordered = [a, b, c, d, e];
    for i in 0..ordered.len() {
        for j in 0..ordered.len() {
            assert_eq!(location_less(&ordered[i], &ordered[j]), i < j);
            assert_eq!(location_eq(&ordered[i], &ordered[j]), i == j);
        }
    }
}

#[test]
fn insertion_keeps_the_order_and_adds_nothing_twice() {
    let mut list = Vec::new();
    let a = (BibleBook::Genesis, 1, 1);
    let b = (BibleBook::Genesis, 1, 2);
    let c = (BibleBook::Psalms, 23, 1);
    let d = (BibleBook::John, 3, 16);
    for loc in [c, a, d, a, b, c, d, b] {
        insert_ascending(&mut list, loc);
    }
    assert_eq!(list, vec![a, b, c, d]);
    assert!(contains_location(&list, &c));
    assert!(!contains_location(&list, &(BibleBook::John, 3, 17)));
    assert!(!contains_location(&Vec::new(), &a));
}
