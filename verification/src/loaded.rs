//! What a loader hands over, and the books that are made of it. The order
//! in which the books were loaded is their order of reading and is kept.

use crate::book::{Book, BookView};
use crate::chapter::{Chapter, ChapterView};
use crate::text::lowercase;
use crate::verse::{without_braces, Verse, VerseView};
use indexmap::IndexMap;
use vstd::prelude::*;

verus! {

/// What a loader hands over for one book: its title and, chapter by
/// chapter, the texts of its verses in order.
#[derive(Debug)]
pub struct BookData {
    pub name: String,
    pub chapters: Vec<Vec<String>>,
}

/// The mathematical model of a [`BookData`].
pub struct BookDataView {
    pub name: Seq<char>,
    pub chapters: Seq<Seq<Seq<char>>>,
}

impl View for BookData {
    type V = BookDataView;

    open spec fn view(&self) -> BookDataView {
        BookDataView { name: self.name@, chapters: self.chapters.deep_view() }
    }
}

/// The verses made of the texts of a chapter: numbered from 1 by position,
/// each text without curly braces.
pub open spec fn verses_of(texts: Seq<Seq<char>>) -> Seq<VerseView> {
    Seq::new(
        texts.len(),
        |k: int| VerseView { text: without_braces(texts[k]), number: (k + 1) as nat },
    )
}

/// The chapters made of the texts of a book: numbered from 1 by position.
pub open spec fn chapters_of(chapters: Seq<Seq<Seq<char>>>) -> Seq<ChapterView> {
    Seq::new(
        chapters.len(),
        |j: int| ChapterView { verses: verses_of(chapters[j]), number: (j + 1) as nat },
    )
}

/// The book made of what was loaded under `key`: its abbreviation is the
/// key in lower case.
pub open spec fn book_of(key: Seq<char>, data: BookDataView) -> BookView {
    BookView { abbrev: lowercase(key), title: data.name, chapters: chapters_of(data.chapters) }
}

/// The books made of what was loaded, in the order in which it was loaded.
pub open spec fn books_of(entries: Seq<(String, BookData)>) -> Seq<BookView> {
    Seq::new(entries.len(), |i: int| book_of(entries[i].0@, entries[i].1@))
}

/// Makes the verses of a chapter from their texts.
pub fn verses_from(texts: Vec<String>) -> (r: Vec<Verse>)
    ensures
        r.deep_view() == verses_of(texts.deep_view()),
{
    let mut verses: Vec<Verse> = Vec::new();
    let mut n: usize = 0;
    let ghost all = texts@;
    proof {
        assert(all.len() == texts.len());
    }
    for text in it: texts.into_iter()
        invariant
            it.seq() == all,
            all.len() <= usize::MAX,
            n == it.index(),
            verses.len() == n,
            forall|k: int|
                0 <= k < n ==> (#[trigger] verses[k])@ == (VerseView {
                    text: without_braces(all[k]@),
                    number: (k + 1) as nat,
                }),
    {
        assert(n < all.len());
        let verse = Verse::new(text, n + 1);
        verses.push(verse);
        n += 1;
    }
    proof {
        assert(texts.deep_view().len() == all.len());
        assert forall|k: int| 0 <= k < all.len() implies verses.deep_view()[k] == verses_of(
            texts.deep_view(),
        )[k] by {
            assert(verses.deep_view()[k] == verses[k]@);
            assert(texts.deep_view()[k] == all[k]@);
        }
        assert(verses.deep_view() =~= verses_of(texts.deep_view()));
    }
    verses
}

/// Makes the chapters of a book from the texts of their verses.
pub fn chapters_from(chapters: Vec<Vec<String>>) -> (r: Vec<Chapter>)
    ensures
        r.deep_view() == chapters_of(chapters.deep_view()),
{
    let mut out: Vec<Chapter> = Vec::new();
    let mut n: usize = 0;
    let ghost all = chapters@;
    proof {
        assert(all.len() == chapters.len());
    }
    for texts in it: chapters.into_iter()
        invariant
            it.seq() == all,
            all.len() <= usize::MAX,
            n == it.index(),
            out.len() == n,
            forall|j: int|
                0 <= j < n ==> (#[trigger] out[j])@ == (ChapterView {
                    verses: verses_of(all[j].deep_view()),
                    number: (j + 1) as nat,
                }),
    {
        assert(n < all.len());
        let verses = verses_from(texts);
        out.push(Chapter::new(verses, n + 1));
        n += 1;
    }
    proof {
        assert(chapters.deep_view().len() == all.len());
        assert forall|j: int| 0 <= j < all.len() implies out.deep_view()[j] == chapters_of(
            chapters.deep_view(),
        )[j] by {
            assert(out.deep_view()[j] == out[j]@);
            assert(chapters.deep_view()[j] == all[j].deep_view());
        }
        assert(out.deep_view() =~= chapters_of(chapters.deep_view()));
    }
    out
}

/// Makes the books of a corpus from what was loaded.
pub fn books_from(entries: Vec<(String, BookData)>) -> (r: Vec<Book>)
    ensures
        r.deep_view() == books_of(entries@),
{
    let mut books: Vec<Book> = Vec::new();
    let mut n: usize = 0;
    let ghost all = entries@;
    proof {
        assert(all.len() == entries.len());
    }
    for entry in it: entries.into_iter()
        invariant
            it.seq() == all,
            all.len() <= usize::MAX,
            n == it.index(),
            books.len() == n,
            forall|i: int| 0 <= i < n ==> (#[trigger] books[i])@ == book_of(all[i].0@, all[i].1@),
    {
        assert(n < all.len());
        let (key, data) = entry;
        let chapters = chapters_from(data.chapters);
        books.push(Book::new(key, data.name, chapters));
        n += 1;
    }
    proof {
        assert forall|i: int| 0 <= i < all.len() implies books.deep_view()[i] == books_of(
            all,
        )[i] by {
            assert(books.deep_view()[i] == books[i]@);
        }
        assert(books.deep_view() =~= books_of(all));
    }
    books
}

/// The entries of a loaded map, in the order of the map: that in which
/// they were put in, where nothing was taken out or sorted since.
pub uninterp spec fn map_entries(map: IndexMap<String, BookData>) -> Seq<(String, BookData)>;

/// `indexmap::IndexMap`, a hash map that keeps its entries in the order of
/// insertion. Nothing is known of a value of it but what `map_entries` names.
#[verifier::external_type_specification]
#[verifier::external_body]
#[verifier::reject_recursive_types(K)]
#[verifier::reject_recursive_types(V)]
#[verifier::reject_recursive_types(S)]
pub struct ExIndexMap<K, V, S>(IndexMap<K, V, S>);

/// `IndexMap::into_iter` hands out every entry of the map, key and value,
/// in the order of the map; the result holds them in that order.
#[verifier::external_body]
pub(crate) fn into_entries(map: IndexMap<String, BookData>) -> (r: Vec<(String, BookData)>)
    ensures
        r@ == map_entries(map),
{
    map.into_iter().collect()
}

} // verus!
