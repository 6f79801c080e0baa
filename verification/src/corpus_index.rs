//! What the index of a corpus is: which locations stand under which term.

use crate::bible_books_enum::{parse_code, BibleBook};
use crate::book::BookView;
use crate::chapter::ChapterView;
use crate::location::{
    ascending_selection, ascending_seq_of, lemma_ascending_selection, lemma_ascending_seq_of,
    strictly_ascending, Location,
};
use crate::postings::{all_ascending, lists, none_empty, Postings};
use crate::tokenize::tokens;
use crate::verse::VerseView;
use vstd::prelude::*;

verus! {

/// Whether `term` is one of the terms of the verse.
pub open spec fn verse_mentions(verse: VerseView, term: Seq<char>) -> bool {
    tokens(verse.text).contains(term)
}

/// Whether one of the first `upto` verses of the chapter bears the number
/// `verse` and holds `term`.
pub open spec fn chapter_mentions_upto(
    chapter: ChapterView,
    term: Seq<char>,
    verse: nat,
    upto: int,
) -> bool {
    exists|k: int|
        0 <= k < upto && k < chapter.verses.len() && (#[trigger] chapter.verses[k]).number
            == verse && verse_mentions(chapter.verses[k], term)
}

/// Whether a verse of the chapter bears the number `verse` and holds `term`.
pub open spec fn chapter_mentions(chapter: ChapterView, term: Seq<char>, verse: nat) -> bool {
    chapter_mentions_upto(chapter, term, verse, chapter.verses.len() as int)
}

/// Whether `chapter` is the position, counted from 1, of one of the first
/// `upto` chapters of the book, and a verse of that chapter bears the
/// number `verse` and holds `term`.
pub open spec fn book_mentions_upto(
    book: BookView,
    term: Seq<char>,
    chapter: nat,
    verse: nat,
    upto: int,
) -> bool {
    1 <= chapter <= upto && chapter <= book.chapters.len() && chapter_mentions(
        book.chapters[chapter - 1],
        term,
        verse,
    )
}

/// Whether the book holds `term` in a verse numbered `verse` of the chapter
/// at position `chapter`, counted from 1.
pub open spec fn book_mentions(book: BookView, term: Seq<char>, chapter: nat, verse: nat) -> bool {
    book_mentions_upto(book, term, chapter, verse, book.chapters.len() as int)
}

/// Whether a verse at `loc` holds `term`: a book of `books` whose
/// abbreviation is the canonical code of the book of `loc` holds it at the
/// chapter and verse of `loc`. Books whose abbreviation is no canonical
/// code are passed over.
pub open spec fn corpus_mentions(books: Seq<BookView>, term: Seq<char>, loc: Location) -> bool {
    exists|i: int|
        0 <= i < books.len() && parse_code((#[trigger] books[i]).abbrev) == Some(loc.0)
            && book_mentions(books[i], term, loc.1 as nat, loc.2 as nat)
}

/// Whether a verse at `loc` holds every one of `terms`, of which there is
/// at least one.
pub open spec fn corpus_mentions_all(
    books: Seq<BookView>,
    terms: Seq<Seq<char>>,
    loc: Location,
) -> bool {
    terms.len() > 0 && forall|n: int|
        0 <= n < terms.len() ==> corpus_mentions(books, #[trigger] terms[n], loc)
}

/// The index of a corpus: each term of its verses, with the locations of
/// the verses that hold it, in canonical order and each once.
pub open spec fn corpus_index(books: Seq<BookView>) -> Postings {
    Map::new(
        |term: Seq<char>| exists|loc: Location| corpus_mentions(books, term, loc),
        |term: Seq<char>| ascending_seq_of(|loc: Location| corpus_mentions(books, term, loc)),
    )
}

/// The locations of the verses of a chapter, as a chapter of `book` at
/// position `chapter`.
pub open spec fn chapter_locations(c: ChapterView, book: BibleBook, chapter: int) -> Seq<Location> {
    Seq::new(c.verses.len(), |k: int| (book, chapter as usize, c.verses[k].number as usize))
}

/// The locations of the verses of the first `upto` chapters of a book.
pub open spec fn book_locations(b: BookView, book: BibleBook, upto: int) -> Seq<Location>
    decreases upto,
{
    if upto <= 0 {
        Seq::empty()
    } else {
        book_locations(b, book, upto - 1) + chapter_locations(b.chapters[upto - 1], book, upto)
    }
}

/// The locations of the verses of the first `upto` books of a corpus,
/// books without a canonical code passed over.
pub open spec fn corpus_locations(books: Seq<BookView>, upto: int) -> Seq<Location>
    decreases upto,
{
    if upto <= 0 {
        Seq::empty()
    } else {
        corpus_locations(books, upto - 1) + match parse_code(books[upto - 1].abbrev) {
            Some(book) => book_locations(
                books[upto - 1],
                book,
                books[upto - 1].chapters.len() as int,
            ),
            None => Seq::empty(),
        }
    }
}

/// The locations of a book hold every location at which it holds a term.
proof fn lemma_book_locations(
    b: BookView,
    book: BibleBook,
    upto: int,
    term: Seq<char>,
    loc: Location,
)
    requires
        loc.0 == book,
        0 <= upto <= b.chapters.len(),
        book_mentions_upto(b, term, loc.1 as nat, loc.2 as nat, upto),
    ensures
        book_locations(b, book, upto).contains(loc),
    decreases upto,
{
    let here = chapter_locations(b.chapters[upto - 1], book, upto);
    let before = book_locations(b, book, upto - 1);
    if loc.1 == upto {
        let c = b.chapters[upto - 1];
        let k = choose|k: int|
            0 <= k < c.verses.len() && k < c.verses.len() && (#[trigger] c.verses[k]).number
                == loc.2 as nat && verse_mentions(c.verses[k], term);
        assert(here[k] == loc);
        assert((before + here)[before.len() + k] == loc);
    } else {
        lemma_book_locations(b, book, upto - 1, term, loc);
        let k = choose|k: int| 0 <= k < before.len() && before[k] == loc;
        assert((before + here)[k] == loc);
    }
}

/// The locations of a corpus hold every location at which it holds a term.
proof fn lemma_corpus_locations(books: Seq<BookView>, upto: int, term: Seq<char>, loc: Location)
    requires
        0 <= upto <= books.len(),
        corpus_mentions(books.take(upto), term, loc),
    ensures
        corpus_locations(books, upto).contains(loc),
    decreases upto,
{
    let head = books.take(upto);
    let i = choose|i: int|
        0 <= i < head.len() && parse_code((#[trigger] head[i]).abbrev) == Some(loc.0)
            && book_mentions(head[i], term, loc.1 as nat, loc.2 as nat);
    let before = corpus_locations(books, upto - 1);
    let here = match parse_code(books[upto - 1].abbrev) {
        Some(book) => book_locations(books[upto - 1], book, books[upto - 1].chapters.len() as int),
        None => Seq::empty(),
    };
    if i == upto - 1 {
        lemma_book_locations(
            books[i],
            loc.0,
            books[i].chapters.len() as int,
            term,
            loc,
        );
        let k = choose|k: int| 0 <= k < here.len() && here[k] == loc;
        assert((before + here)[before.len() + k] == loc);
    } else {
        assert(books.take(upto - 1)[i] == head[i]);
        assert(corpus_mentions(books.take(upto - 1), term, loc));
        lemma_corpus_locations(books, upto - 1, term, loc);
        let k = choose|k: int| 0 <= k < before.len() && before[k] == loc;
        assert((before + here)[k] == loc);
    }
}

/// What the index of a corpus is, whatever the corpus: every list runs in
/// canonical order without repeats, none is empty, and a location stands
/// under a term exactly where a verse at that location holds the term.
pub proof fn lemma_corpus_index_holds(books: Seq<BookView>)
    ensures
        all_ascending(corpus_index(books)),
        none_empty(corpus_index(books)),
        forall|term: Seq<char>, loc: Location|
            lists(corpus_index(books), term, loc) <==> corpus_mentions(books, term, loc),
{
    let index = corpus_index(books);
    let all = corpus_locations(books, books.len() as int);
    assert(books.take(books.len() as int) =~= books);
    assert forall|term: Seq<char>| index.contains_key(term) implies strictly_ascending(
        #[trigger] index[term],
    ) && index[term].len() > 0 && forall|loc: Location|
        index[term].contains(loc) <==> corpus_mentions(books, term, loc) by {
        let holds = |loc: Location| corpus_mentions(books, term, loc);
        let r = ascending_selection(all, holds);
        lemma_ascending_selection(all, holds);
        assert forall|loc: Location| r.contains(loc) <==> #[trigger] holds(loc) by {
            assert(r.contains(loc) <==> all.contains(loc) && holds(loc));
            if corpus_mentions(books, term, loc) {
                lemma_corpus_locations(books, books.len() as int, term, loc);
            }
        }
        lemma_ascending_seq_of(r, holds);
        assert(index[term] == r);
        let some = choose|loc: Location| corpus_mentions(books, term, loc);
        assert(holds(some));
        assert(r.contains(some));
        assert forall|loc: Location| r.contains(loc) <==> corpus_mentions(books, term, loc) by {
            assert(r.contains(loc) <==> holds(loc));
        }
    }
    assert forall|term: Seq<char>, loc: Location|
        lists(index, term, loc) <==> corpus_mentions(books, term, loc) by {
        if index.contains_key(term) {
            assert(index[term].contains(loc) <==> corpus_mentions(books, term, loc));
        }
    }
}

/// An index whose lists run in canonical order, none of them empty, and
/// which lists exactly what the corpus holds, is the index of the corpus.
pub proof fn lemma_corpus_index(index: Postings, books: Seq<BookView>)
    requires
        all_ascending(index),
        forall|term: Seq<char>| index.contains_key(term) ==> (#[trigger] index[term]).len() > 0,
        forall|term: Seq<char>, loc: Location|
            lists(index, term, loc) <==> corpus_mentions(books, term, loc),
    ensures
        index == corpus_index(books),
{
    let target = corpus_index(books);
    assert forall|term: Seq<char>| index.contains_key(term) <==> target.contains_key(term) by {
        if index.contains_key(term) {
            let loc = index[term][0];
            assert(lists(index, term, loc));
            assert(corpus_mentions(books, term, loc));
        }
        if target.contains_key(term) {
            let loc = choose|loc: Location| corpus_mentions(books, term, loc);
            assert(lists(index, term, loc));
        }
    }
    assert forall|term: Seq<char>| index.contains_key(term) implies index[term] == target[term] by {
        let holds = |loc: Location| corpus_mentions(books, term, loc);
        assert forall|loc: Location| index[term].contains(loc) <==> #[trigger] holds(loc) by {
            assert(lists(index, term, loc) <==> corpus_mentions(books, term, loc));
        }
        lemma_ascending_seq_of(index[term], holds);
    }
    assert(index =~= target);
}

} // verus!
