use bible_io::search_index::SearchIndex;
use bible_io::tokenize::tokenize;
use bible_io::{Bible, BibleBook, BookData, Verse};

fn book(title: &str, chapters: Vec<Vec<&str>>) -> BookData {
    BookData {
        name: title.to_string(),
        chapters: chapters
            .into_iter()
            .map(|c| c.into_iter().map(|t| t.to_string()).collect())
            .collect(),
    }
}

fn bible_of(entries: Vec<(&str, BookData)>) -> Bible {
    Bible::from_entries(
        entries
            .into_iter()
            .map(|(k, b)| (k.to_string(), b))
            .collect(),
        "en-kjv".to_string(),
        "King James Version".to_string(),
        "Excerpts".to_string(),
        "English".to_string(),
    )
}

fn two_beginnings() -> Bible {
    bible_of(vec![
        (
            "jo",
            book(
                "John",
                vec![vec![
                    "In the beginning was the Word, and the Word was with God, and the Word was God.",
                    "The same was in the beginning with God.",
                ]],
            ),
        ),
        (
            "gn",
            book(
                "Genesis",
                vec![vec![
                    "In the beginning God created the heaven and the earth.",
                    "And the earth was without form, and void.",
                ]],
            ),
        ),
        (
            "1ts",
            book(
                "1 Thessalonians",
                vec![
                    vec!["Paul, and Silvanus, and Timotheus"],
                    vec!["For yourselves, brethren, know our entrance in unto you"],
                    vec!["Wherefore when we could no longer forbear"],
                    vec!["Furthermore then we beseech you, brethren"],
                    vec![
                        "1", "2", "3", "4", "5", "6", "7", "8", "9", "10", "11", "12", "13",
                        "14", "See that none render evil for evil unto any man",
                        "Rejoice evermore.", "Pray without ceasing.",
                    ],
                ],
            ),
        ),
    ])
}

fn verses_at(bible: &Bible, locations: &[(BibleBook, usize, usize)]) -> Vec<Verse> {
    locations
        .iter()
        .map(|&(book, chapter, verse)| {
            bible
                .get_verse(book, chapter, verse)
                .expect("Indexed verse missing from Bible")
                .clone()
        })
        .collect()
}

#[test]
fn search_finds_multiple_books() {
    let mut bible = two_beginnings();
    let index = bible.build_search_index();
    let query = "in the beginning";
    let search_results = bible.search(query);
    let genesis = bible
        .get_verse(BibleBook::Genesis, 1, 1)
        .expect("Missing Genesis 1:1")
        .clone();
    let john = bible
        .get_verse(BibleBook::John, 1, 1)
        .expect("Missing John 1:1")
        .clone();

    let found = verses_at(&bible, &search_results);
    assert!(found.contains(&genesis));
    assert!(found.contains(&john));

    let indexed_results = index.search(query);
    let verses_from_index = verses_at(&bible, &indexed_results);
    assert_eq!(found, verses_from_index);
    assert_eq!(search_results, indexed_results);
}

#[test]
fn search_is_case_insensitive() {
    let mut bible = two_beginnings();
    let index = bible.build_search_index();
    let query = "REJOICE EVERMORE";
    let search_results = bible.search(query);
    let indexed_results = index.search(query);

    let expected = bible
        .get_verse(BibleBook::FirstThessalonians, 5, 16)
        .expect("Missing 1 Thessalonians 5:16")
        .clone();

    assert_eq!(verses_at(&bible, &search_results), vec![expected.clone()]);
    assert_eq!(search_results, vec![(BibleBook::FirstThessalonians, 5, 16)]);
    assert_eq!(search_results, indexed_results);
}

#[test]
fn single_verse_corpus() {
    let mut bible = bible_of(vec![("gn", book("Genesis", vec![vec!["In the beginning"]]))]);
    assert_eq!(
        bible.get_verse(BibleBook::Genesis, 1, 1).unwrap().text(),
        "In the beginning"
    );
    assert_eq!(bible.search("beginning"), vec![(BibleBook::Genesis, 1, 1)]);
    assert_eq!(bible.search("beginning nonexistentterm"), vec![]);
}

#[test]
fn a_term_that_repeats_in_a_verse_is_listed_once() {
    let mut bible = bible_of(vec![("gn", book("Genesis", vec![vec!["the the beginning"]]))]);
    assert_eq!(bible.search("the"), vec![(BibleBook::Genesis, 1, 1)]);
    assert_eq!(bible.search("the the"), vec![(BibleBook::Genesis, 1, 1)]);
    let index = bible.build_search_index();
    assert_eq!(index.search("THE"), vec![(BibleBook::Genesis, 1, 1)]);
}

#[test]
fn results_run_in_canonical_order_whatever_the_order_of_the_books() {
    let mut bible = two_beginnings();
    // John stands before Genesis in this corpus; Genesis comes first in the answer.
    assert_eq!(
        bible.search("in the beginning"),
        vec![
            (BibleBook::Genesis, 1, 1),
            (BibleBook::John, 1, 1),
            (BibleBook::John, 1, 2),
        ]
    );
    assert_eq!(
        bible.search("beginning the in"),
        bible.search("in the beginning")
    );
    assert_eq!(
        bible.search("god"),
        vec![
            (BibleBook::Genesis, 1, 1),
            (BibleBook::John, 1, 1),
            (BibleBook::John, 1, 2),
        ]
    );
    assert_eq!(bible.search("earth"), vec![(BibleBook::Genesis, 1, 1), (BibleBook::Genesis, 1, 2)]);
}

#[test]
fn blank_queries_find_nothing() {
    let mut bible = two_beginnings();
    assert_eq!(bible.search(""), vec![]);
    assert_eq!(bible.search("   "), vec![]);
    assert_eq!(bible.search("\t\n ,;:!"), vec![]);
    let index = bible.build_search_index();
    assert_eq!(index.search(""), vec![]);
    assert_eq!(index.search("   "), vec![]);
    assert_eq!(SearchIndex::default().search("the"), vec![]);
}

#[test]
fn upper_case_queries_find_the_same() {
    let mut bible = two_beginnings();
    for query in ["in the beginning", "god", "Rejoice evermore", "word,word", "none"] {
        let upper = query.to_uppercase();
        assert_eq!(bible.search(query), bible.search(&upper), "{}", query);
    }
}

#[test]
fn searching_twice_and_searching_a_built_index_agree() {
    let mut bible = two_beginnings();
    let index = bible.build_search_index();
    for query in ["the", "in the beginning", "earth void", "", "brethren", "14"] {
        let first = bible.search(query);
        let second = bible.search(query);
        assert_eq!(first, second, "{}", query);
        assert_eq!(first, index.search(query), "{}", query);
        assert_eq!(first, index.clone().search(query), "{}", query);
        assert_eq!(first, bible.clone().search(query), "{}", query);
    }
}

#[test]
fn books_without_canonical_code_are_reachable_but_not_searched() {
    let mut bible = bible_of(vec![
        ("gn", book("Genesis", vec![vec!["In the beginning"]])),
        ("enoch", book("Enoch", vec![vec!["The words of the blessing, in the beginning"]])),
    ]);
    assert_eq!(bible.search("beginning"), vec![(BibleBook::Genesis, 1, 1)]);
    assert_eq!(bible.search("blessing"), vec![]);
    let enoch = bible.get_book_by_abbrev("Enoch").unwrap();
    assert_eq!(enoch.get_verse(1, 1).unwrap().number(), 1);
    assert_eq!(bible.resolve_book("Enoch"), None);
}

#[test]
fn locations_use_chapter_position_and_verse_number() {
    let mut bible = bible_of(vec![(
        "PS",
        book("Psalms", vec![vec!["alpha"], vec!["beta", "gamma alpha"]]),
    )]);
    assert_eq!(
        bible.search("alpha"),
        vec![(BibleBook::Psalms, 1, 1), (BibleBook::Psalms, 2, 2)]
    );
    for (b, c, v) in bible.search("alpha") {
        assert!(bible.get_verse(b, c, v).unwrap().text().contains("alpha"));
    }
}

#[test]
fn tokenize_splits_on_everything_but_ascii_letters_and_digits() {
    assert_eq!(tokenize("In the beginning"), vec!["in", "the", "beginning"]);
    assert_eq!(tokenize("  God's  word--1st,2ND!"), vec!["god", "s", "word", "1st", "2nd"]);
    assert_eq!(tokenize(""), Vec::<String>::new());
    assert_eq!(tokenize(" \t.,"), Vec::<String>::new());
    assert_eq!(tokenize("abc"), vec!["abc"]);
    assert_eq!(tokenize("naïve Ünïcode"), vec!["na", "ve", "n", "code"]);
    assert_eq!(tokenize("a_b"), vec!["a", "b"]);
    assert_eq!(tokenize("x "), vec!["x"]);
}

#[test]
fn an_index_made_of_lists_answers_in_order_and_without_repeats() {
    let a = (BibleBook::John, 3, 16);
    let b = (BibleBook::Genesis, 1, 1);
    let c = (BibleBook::Genesis, 1, 2);
    let d = (BibleBook::Psalms, 23, 1);
    let index = SearchIndex::new(vec![
        ("love".to_string(), vec![a, b, a, d, c]),
        ("world".to_string(), vec![d, a, c]),
        ("empty".to_string(), vec![]),
        ("twice".to_string(), vec![a]),
        ("twice".to_string(), vec![b]),
    ]);
    assert_eq!(index.search("love"), vec![b, c, d, a]);
    assert_eq!(index.search("love world"), vec![c, d, a]);
    assert_eq!(index.search("world love"), vec![c, d, a]);
    assert_eq!(index.search("love empty"), vec![]);
    assert_eq!(index.search("love missing"), vec![]);
    assert_eq!(index.search("missing love"), vec![]);
    assert_eq!(index.search("twice"), vec![b]);
    assert_eq!(index.search("LOVE, love; Love"), vec![b, c, d, a]);
}

#[test]
fn the_index_is_built_at_the_first_search_with_a_query() {
    let mut bible = two_beginnings();
    assert!(!bible.indexed());
    assert_eq!(bible.search(""), vec![]);
    assert!(!bible.indexed());
    assert_eq!(bible.search(" "), vec![]);
    assert!(bible.indexed());
    assert!(bible.clone().indexed());
    let books_before = bible.books().as_ptr();
    assert_eq!(bible.search("void"), vec![(BibleBook::Genesis, 1, 2)]);
    assert_eq!(bible.books().as_ptr(), books_before);
}

#[test]
fn a_larger_corpus_is_searched_in_canonical_order() {
    let words = [
        "alpha", "beta", "gamma", "delta", "epsilon", "zeta", "eta", "theta", "iota", "kappa",
        "lambda", "mu", "nu", "xi", "omicron", "pi", "rho", "sigma", "tau", "upsilon",
    ];
    let mut entries = Vec::new();
    let mut expected = Vec::new();
    // the books stand in reverse canonical order
    for ordinal in (0..66).rev() {
        let id = BibleBook::from_index(ordinal).unwrap();
        let mut chapters = Vec::new();
        for c in 0..12 {
            let mut verses = Vec::new();
            for v in 0..25 {
                let mut text = String::new();
                for w in 0..10 {
                    text.push_str(words[(ordinal + 3 * c + 7 * v + w) % words.len()]);
                    text.push(' ');
                }
                text.push_str("common Common");
                verses.push(text);
            }
            chapters.push(verses);
        }
        entries.push((
            id.as_str().to_uppercase(),
            BookData { name: id.full_name().to_string(), chapters },
        ));
    }
    for ordinal in 0..66 {
        for c in 0..12 {
            for v in 0..25 {
                let start = ordinal + 3 * c + 7 * v;
                let has = |word: usize| (0..10).any(|w| (start + w) % words.len() == word);
                if has(0) && has(9) {
                    expected.push((BibleBook::from_index(ordinal).unwrap(), c + 1, v + 1));
                }
            }
        }
    }
    let mut bible = Bible::from_entries(
        entries,
        String::new(),
        String::new(),
        String::new(),
        String::new(),
    );
    assert_eq!(bible.search("kappa ALPHA"), expected);
    assert_eq!(bible.search("common").len(), 66 * 12 * 25);
    assert_eq!(bible.search("common omega"), vec![]);
    let all = bible.search("common");
    assert!(all.windows(2).all(|w| (w[0].0.index(), w[0].1, w[0].2) < (w[1].0.index(), w[1].1, w[1].2)));
}
