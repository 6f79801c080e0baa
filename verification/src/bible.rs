//! The whole text: the books in their order of reading, with addressed
//! access by book, chapter and verse, lookup by reference string, and
//! free-text search.

use crate::aliases::alias_lookup;
use crate::bible_books_enum::{
    lemma_code_is_lowercase, lemma_parse_code_round_trip, parse_code, BibleBook,
};
use crate::book::{Book, BookView};
pub use crate::error::{BibleError, BibleErrorView};
use crate::loaded::{books_from, books_of, into_entries, map_entries, BookData};
use crate::location::{strictly_ascending, Location};
use crate::reference::{parse_reference, read_reference};
use crate::corpus_index::{
    corpus_index, corpus_mentions, corpus_mentions_all, lemma_corpus_index_holds,
};
use crate::postings::{
    all_ascending, lemma_blank_query_finds_nothing, lemma_search_result_holds, lists, lists_all,
    none_empty, search_result, Postings,
};
use crate::search_index::SearchIndex;
use crate::text::{
    chars_of, eq_ignore_ascii_case, lemma_lowercase_of_uppercase, lowercase, string_from,
    to_ascii_lowercase, trim, trimmed, uppercase,
};
use crate::tokenize::{lemma_tokens_of_blank, tokens};
use crate::verse::{Verse, VerseView};
use indexmap::IndexMap;
use vstd::hash_map::StringHashMap;
use vstd::prelude::*;

verus! {

/// The mathematical model of a [`Bible`].
pub struct BibleView {
    pub books: Seq<BookView>,
    pub id: Seq<char>,
    pub name: Seq<char>,
    pub description: Seq<char>,
    pub language: Seq<char>,
}

impl BibleView {
    /// Whether position `i` holds the last book whose abbreviation is `key`.
    pub open spec fn is_last_with_abbrev(self, i: int, key: Seq<char>) -> bool {
        &&& 0 <= i < self.books.len()
        &&& self.books[i].abbrev == key
        &&& forall|j: int| i < j < self.books.len() ==> (#[trigger] self.books[j]).abbrev != key
    }

    /// The position of the book that the abbreviation `key` stands for: the
    /// last one that bears it.
    pub open spec fn position_of(self, key: Seq<char>) -> Option<int> {
        if exists|i: int| self.is_last_with_abbrev(i, key) {
            Some(choose|i: int| self.is_last_with_abbrev(i, key))
        } else {
            None
        }
    }

    /// The failure of asking for a book under `key`. Where `key` is the
    /// canonical code of a book, the failure names that book in full.
    pub open spec fn book_not_found(self, key: Seq<char>) -> BibleErrorView {
        BibleErrorView::BookNotFound {
            book_abbrev: key,
            book_name: match parse_code(key) {
                Some(book) => book.display_name(),
                None => key,
            },
            translation: self.name,
        }
    }

    /// The book under an abbreviation, in any mix of upper and lower case.
    pub open spec fn book_by_abbrev(self, abbrev: Seq<char>) -> Result<BookView, BibleErrorView> {
        match self.position_of(lowercase(abbrev)) {
            Some(i) => Ok(self.books[i]),
            None => Err(self.book_not_found(lowercase(abbrev))),
        }
    }

    /// The book of a given identity.
    pub open spec fn book(self, book: BibleBook) -> Result<BookView, BibleErrorView> {
        self.book_by_abbrev(book.code())
    }

    /// The verses of a chapter of a book.
    pub open spec fn verses(self, book: BibleBook, chapter: nat) -> Result<
        Seq<VerseView>,
        BibleErrorView,
    > {
        match self.book(book) {
            Ok(b) => b.verses_at(chapter),
            Err(e) => Err(e),
        }
    }

    /// The verse at an address.
    pub open spec fn verse(self, book: BibleBook, chapter: nat, verse: nat) -> Result<
        VerseView,
        BibleErrorView,
    > {
        match self.book(book) {
            Ok(b) => b.verse_at(chapter, verse),
            Err(e) => Err(e),
        }
    }

    /// Whether position `i` holds the first book whose title is `title`,
    /// upper and lower case taken as the same.
    pub open spec fn is_first_titled(self, i: int, title: Seq<char>) -> bool {
        &&& 0 <= i < self.books.len()
        &&& lowercase(self.books[i].title) == lowercase(title)
        &&& forall|j: int|
            0 <= j < i ==> lowercase((#[trigger] self.books[j]).title) != lowercase(title)
    }

    /// The identity of the first book whose title is `title`, where the
    /// abbreviation of that book is a canonical code.
    pub open spec fn book_titled(self, title: Seq<char>) -> Option<BibleBook> {
        if exists|i: int| self.is_first_titled(i, title) {
            parse_code(self.books[choose|i: int| self.is_first_titled(i, title)].abbrev)
        } else {
            None
        }
    }

    /// The book that a spelling stands for: what the table of alternate
    /// abbreviations gives for it, else the book with this canonical code,
    /// else the book of the corpus with this title.
    pub open spec fn resolve_book(self, input: Seq<char>) -> Option<BibleBook> {
        match alias_lookup(lowercase(input)) {
            Some(book) => Some(book),
            None => match parse_code(input) {
                Some(book) => Some(book),
                None => self.book_titled(input),
            },
        }
    }

    /// The verse that a reference string names.
    pub open spec fn verse_by_reference(self, reference: Seq<char>) -> Result<
        VerseView,
        BibleErrorView,
    > {
        match parse_reference(reference) {
            Err(part) => Err(BibleErrorView::ReferenceParseError { reference: part }),
            Ok(parts) => match self.resolve_book(trim(parts.0)) {
                None => Err(BibleErrorView::ReferenceParseError { reference: parts.0 }),
                Some(book) => self.verse(book, parts.1 as nat, parts.2 as nat),
            },
        }
    }

    /// The locations of the verses that hold every term of `query`.
    pub open spec fn search(self, query: Seq<char>) -> Seq<Location> {
        search_result(corpus_index(self.books), query)
    }

    /// Where the verse at an address stands: the position of its book
    /// among the books, of its chapter in the book and of the verse in the
    /// chapter, each from 0.
    pub open spec fn verse_position(self, book: BibleBook, chapter: nat, verse: nat) -> Option<
        (int, int, int),
    > {
        match self.position_of(lowercase(book.code())) {
            Some(i) => if 1 <= chapter <= self.books[i].chapters.len() {
                match self.books[i].chapters[chapter - 1].position_of(verse) {
                    Some(k) => Some((i, chapter - 1, k)),
                    None => None,
                }
            } else {
                None
            },
            None => None,
        }
    }

    /// The address of what stands at a position: the identity that the
    /// abbreviation of the book is the code of, the chapter counted from 1,
    /// the number that the verse bears.
    pub open spec fn address_at(self, i: int, j: int, k: int) -> Option<(BibleBook, nat, nat)> {
        match parse_code(self.books[i].abbrev) {
            Some(book) => Some((book, (j + 1) as nat, self.books[i].chapters[j].verses[k].number)),
            None => None,
        }
    }

    /// Addressing goes round: where a lookup by book, chapter and verse
    /// succeeds, the verse it gives stands at a position of the corpus, and
    /// the address of that position is the address that was asked for.
    pub proof fn lemma_addressing_round_trip(self, book: BibleBook, chapter: nat, verse: nat)
        requires
            self.verse(book, chapter, verse) is Ok,
        ensures
            self.verse_position(book, chapter, verse) is Some,
            ({
                let (i, j, k) = self.verse_position(book, chapter, verse)->0;
                &&& 0 <= i < self.books.len()
                &&& 0 <= j < self.books[i].chapters.len()
                &&& 0 <= k < self.books[i].chapters[j].verses.len()
                &&& self.verse(book, chapter, verse) == Ok::<VerseView, BibleErrorView>(
                    self.books[i].chapters[j].verses[k],
                )
                &&& self.address_at(i, j, k) == Some((book, chapter, verse))
            }),
    {
        lemma_code_is_lowercase(book);
        let key = lowercase(book.code());
        let i = self.position_of(key)->0;
        assert(self.is_last_with_abbrev(i, key));
        lemma_parse_code_round_trip(book);
        let c = self.books[i].chapters[chapter - 1];
        c.lemma_position_of(verse);
    }

    /// A lookup that succeeds gives a verse that bears the number asked for.
    pub proof fn lemma_verse_bears_number(self, book: BibleBook, chapter: nat, verse: nat)
        requires
            self.verse(book, chapter, verse) is Ok,
        ensures
            self.verse(book, chapter, verse)->Ok_0.number == verse,
    {
        self.lemma_addressing_round_trip(book, chapter, verse);
    }

    /// What a search finds, whatever the corpus and the query: the answer
    /// runs in canonical order, names no location twice, and names exactly
    /// the locations of the verses that hold every term of the query.
    pub proof fn lemma_search_finds_exactly(self, query: Seq<char>)
        ensures
            strictly_ascending(self.search(query)),
            forall|loc: Location|
                self.search(query).contains(loc) <==> corpus_mentions_all(
                    self.books,
                    tokens(query),
                    loc,
                ),
    {
        let index = corpus_index(self.books);
        let terms = tokens(query);
        lemma_corpus_index_holds(self.books);
        lemma_search_result_holds(index, query);
        assert forall|loc: Location|
            self.search(query).contains(loc) <==> corpus_mentions_all(self.books, terms, loc) by {
            assert(self.search(query).contains(loc) <==> lists_all(index, terms, loc));
            if lists_all(index, terms, loc) {
                assert forall|n: int| 0 <= n < terms.len() implies corpus_mentions(
                    self.books,
                    #[trigger] terms[n],
                    loc,
                ) by {
                    assert(lists(index, terms[n], loc));
                }
            }
            if corpus_mentions_all(self.books, terms, loc) {
                assert forall|n: int| 0 <= n < terms.len() implies lists(
                    index,
                    #[trigger] terms[n],
                    loc,
                ) by {
                    assert(corpus_mentions(self.books, terms[n], loc));
                }
            }
        }
    }

    /// Searching the built index of a corpus and searching the corpus give
    /// the same answer, however often either is done.
    pub proof fn lemma_search_paths_agree(self, index: Postings, query: Seq<char>)
        requires
            index == corpus_index(self.books),
        ensures
            search_result(index, query) == self.search(query),
    {
    }

    /// Looking a book up by its abbreviation does not tell upper case from
    /// lower case.
    pub proof fn lemma_book_lookup_ignores_case(self, abbrev: Seq<char>)
        ensures
            self.book_by_abbrev(uppercase(abbrev)) == self.book_by_abbrev(abbrev),
    {
        lemma_lowercase_of_uppercase(abbrev);
    }

    /// At most one position holds the last book with a given abbreviation.
    pub proof fn lemma_last_with_abbrev_unique(self, i1: int, i2: int, key: Seq<char>)
        requires
            self.is_last_with_abbrev(i1, key),
            self.is_last_with_abbrev(i2, key),
        ensures
            i1 == i2,
    {
        if i1 < i2 {
            assert(self.books[i2].abbrev != key);
        } else if i2 < i1 {
            assert(self.books[i1].abbrev != key);
        }
    }

    /// At most one position holds the first book with a given title.
    pub proof fn lemma_first_titled_unique(self, i1: int, i2: int, title: Seq<char>)
        requires
            self.is_first_titled(i1, title),
            self.is_first_titled(i2, title),
        ensures
            i1 == i2,
    {
        if i1 < i2 {
            assert(lowercase(self.books[i1].title) != lowercase(title));
        } else if i2 < i1 {
            assert(lowercase(self.books[i2].title) != lowercase(title));
        }
    }
}

/// Whether `index` gives for each abbreviation of `books` the last position
/// at which it stands, and holds nothing else.
pub open spec fn indexes(index: Map<Seq<char>, usize>, books: Seq<BookView>) -> bool {
    &&& forall|i: int|
        0 <= i < books.len() ==> index.contains_key((#[trigger] books[i]).abbrev)
            && index[books[i].abbrev] >= i
    &&& forall|k: Seq<char>| #[trigger]
        index.contains_key(k) ==> index[k] < books.len() && books[index[k] as int].abbrev == k
}

/// What an index of abbreviations says is what `position_of` says.
pub proof fn lemma_indexed_position(index: Map<Seq<char>, usize>, bible: BibleView, key: Seq<char>)
    requires
        indexes(index, bible.books),
    ensures
        bible.position_of(key) == if index.contains_key(key) {
            Some(index[key] as int)
        } else {
            None
        },
{
    if index.contains_key(key) {
        let i = index[key] as int;
        assert forall|j: int| i < j < bible.books.len() implies (
        #[trigger] bible.books[j]).abbrev != key by {
            if bible.books[j].abbrev == key {
                assert(index[bible.books[j].abbrev] >= j);
            }
        }
        assert(bible.is_last_with_abbrev(i, key));
        let c = choose|c: int| bible.is_last_with_abbrev(c, key);
        bible.lemma_last_with_abbrev_unique(c, i, key);
    } else {
        assert forall|i: int| !bible.is_last_with_abbrev(i, key) by {
            if bible.is_last_with_abbrev(i, key) {
                assert(index.contains_key(bible.books[i].abbrev));
            }
        }
    }
}

/// Makes the index from each abbreviation to the last position that bears it.
fn index_books(books: &Vec<Book>) -> (r: StringHashMap<usize>)
    ensures
        indexes(r@, books.deep_view()),
{
    let mut index: StringHashMap<usize> = StringHashMap::new();
    let ghost corpus = books.deep_view();
    let mut i: usize = 0;
    while i < books.len()
        invariant
            i <= books.len(),
            corpus == books.deep_view(),
            indexes(index@, corpus.take(i as int)),
        decreases books.len() - i,
    {
        let ghost before = index@;
        let ghost key = books[i as int]@.abbrev;
        index.insert(books[i].abbrev().to_owned(), i);
        proof {
            let head = corpus.take(i as int);
            let next = corpus.take(i + 1);
            assert(corpus[i as int] == books[i as int]@);
            assert(index@ == before.insert(key, i));
            assert forall|j: int| 0 <= j < next.len() implies index@.contains_key(
                (#[trigger] next[j]).abbrev,
            ) && index@[next[j].abbrev] >= j by {
                if j < i {
                    assert(next[j] == head[j]);
                    assert(before.contains_key(head[j].abbrev));
                }
            }
            assert forall|k: Seq<char>| #[trigger] index@.contains_key(k) implies index@[k]
                < next.len() && next[index@[k] as int].abbrev == k by {
                if k != key {
                    assert(before.contains_key(k));
                    assert(next[before[k] as int] == head[before[k] as int]);
                }
            }
        }
        i += 1;
    }
    proof {
        assert(corpus.take(books.len() as int) =~= corpus);
    }
    index
}

/// The complete Bible of one translation: its books in their order of
/// reading, and what the translation says of itself.
pub struct Bible {
    books: Vec<Book>,
    index_by_abbrev: StringHashMap<usize>,
    /// The search index, once a search has asked for it.
    search_index: Option<SearchIndex>,
    id: String,
    name: String,
    description: String,
    language: String,
}

impl View for Bible {
    type V = BibleView;

    closed spec fn view(&self) -> BibleView {
        BibleView {
            books: self.books.deep_view(),
            id: self.id@,
            name: self.name@,
            description: self.description@,
            language: self.language@,
        }
    }
}

impl Bible {
    /// The index of abbreviations is that of the books, and the search
    /// index, once built, is that of the books.
    #[verifier::type_invariant]
    spec fn well_formed(self) -> bool {
        &&& indexes(self.index_by_abbrev@, self.books.deep_view())
        &&& self.search_index matches Some(index) ==> index@ == corpus_index(
            self.books.deep_view(),
        )
    }

    /// Whether the search index has been built.
    pub closed spec fn is_indexed(&self) -> bool {
        self.search_index is Some
    }

    /// Makes a Bible of the given books, in their order.
    pub fn from_books(
        books: Vec<Book>,
        id: String,
        name: String,
        description: String,
        language: String,
    ) -> (r: Self)
        ensures
            r@ == (BibleView {
                books: books.deep_view(),
                id: id@,
                name: name@,
                description: description@,
                language: language@,
            }),
            !r.is_indexed(),
    {
        let index_by_abbrev = index_books(&books);
        Bible { books, index_by_abbrev, search_index: None, id, name, description, language }
    }

    /// Makes a Bible of the books that were loaded, in the order in which
    /// they were loaded. Chapters and verses are numbered from 1 by position.
    pub fn from_entries(
        entries: Vec<(String, BookData)>,
        id: String,
        name: String,
        description: String,
        language: String,
    ) -> (r: Self)
        ensures
            r@ == (BibleView {
                books: books_of(entries@),
                id: id@,
                name: name@,
                description: description@,
                language: language@,
            }),
            !r.is_indexed(),
    {
        Bible::from_books(books_from(entries), id, name, description, language)
    }

    /// Makes a Bible of a loaded map, whose order is the order of the books.
    pub fn new_from_map_with_meta(
        map: IndexMap<String, BookData>,
        id: String,
        name: String,
        description: String,
        language: String,
    ) -> (r: Self)
        ensures
            r@ == (BibleView {
                books: books_of(map_entries(map)),
                id: id@,
                name: name@,
                description: description@,
                language: language@,
            }),
            !r.is_indexed(),
    {
        Bible::from_entries(into_entries(map), id, name, description, language)
    }

    /// Returns the identifier of the translation.
    pub fn id(&self) -> (r: &str)
        ensures
            r@ == self@.id,
    {
        self.id.as_str()
    }

    /// Returns the name of the translation.
    pub fn name(&self) -> (r: &str)
        ensures
            r@ == self@.name,
    {
        self.name.as_str()
    }

    /// Returns the description of the translation.
    pub fn description(&self) -> (r: &str)
        ensures
            r@ == self@.description,
    {
        self.description.as_str()
    }

    /// Returns the language of the translation.
    pub fn language(&self) -> (r: &str)
        ensures
            r@ == self@.language,
    {
        self.language.as_str()
    }

    /// Returns all books, in their order of reading.
    pub fn books(&self) -> (r: &[Book])
        ensures
            r.deep_view() == self@.books,
    {
        self.books.as_slice()
    }

    /// Returns the book of a given identity, or `BookNotFound` where this
    /// translation does not hold it.
    pub fn get_book(&self, book: BibleBook) -> (r: Result<&Book, BibleError>)
        ensures
            match r {
                Ok(b) => self@.book(book) == Ok::<BookView, BibleErrorView>(b@),
                Err(e) => self@.book(book) == Err::<BookView, BibleErrorView>(e@),
            },
    {
        self.get_book_by_abbrev(book.as_str())
    }

    /// Returns the book under an abbreviation, in any mix of upper and
    /// lower case, or `BookNotFound` where no book bears it.
    pub fn get_book_by_abbrev(&self, abbrev: &str) -> (r: Result<&Book, BibleError>)
        ensures
            match r {
                Ok(b) => self@.book_by_abbrev(abbrev@) == Ok::<BookView, BibleErrorView>(b@),
                Err(e) => self@.book_by_abbrev(abbrev@) == Err::<BookView, BibleErrorView>(e@),
            },
    {
        proof {
            use_type_invariant(self);
        }
        let key = to_ascii_lowercase(abbrev);
        proof {
            lemma_indexed_position(self.index_by_abbrev@, self@, key@);
        }
        match self.index_by_abbrev.get(key.as_str()) {
            Some(i) => {
                proof {
                    assert(self@.books[*i as int] == self.books[*i as int]@);
                }
                Ok(&self.books[*i])
            },
            None => {
                let book_name = match BibleBook::from_str(key.as_str()) {
                    Ok(book) => book.full_name().to_owned(),
                    Err(_) => key.clone(),
                };
                Err(
                    BibleError::BookNotFound {
                        book_abbrev: key,
                        book_name,
                        translation: self.name.clone(),
                    },
                )
            },
        }
    }

    /// Returns the verses of a chapter of a book.
    pub fn get_verses(&self, book: BibleBook, chapter_number: usize) -> (r: Result<
        &[Verse],
        BibleError,
    >)
        ensures
            match r {
                Ok(vs) => self@.verses(book, chapter_number as nat) == Ok::<
                    Seq<VerseView>,
                    BibleErrorView,
                >(vs.deep_view()),
                Err(e) => self@.verses(book, chapter_number as nat) == Err::<
                    Seq<VerseView>,
                    BibleErrorView,
                >(e@),
            },
    {
        match self.get_book(book) {
            Ok(b) => b.get_verses(chapter_number),
            Err(e) => Err(e),
        }
    }

    /// Returns the verse at an address: `BookNotFound` where the
    /// translation does not hold the book, else `ChapterOutOfBounds` where
    /// the book has no chapter at that position, else `VerseOutOfBounds`
    /// where no verse of the chapter bears that number.
    pub fn get_verse(&self, book: BibleBook, chapter_number: usize, verse_number: usize) -> (r:
        Result<&Verse, BibleError>)
        ensures
            match r {
                Ok(v) => self@.verse(book, chapter_number as nat, verse_number as nat) == Ok::<
                    VerseView,
                    BibleErrorView,
                >(v@),
                Err(e) => self@.verse(book, chapter_number as nat, verse_number as nat) == Err::<
                    VerseView,
                    BibleErrorView,
                >(e@),
            },
    {
        match self.get_book(book) {
            Ok(b) => b.get_verse(chapter_number, verse_number),
            Err(e) => Err(e),
        }
    }

    /// The failure of reading `part` as a reference.
    pub fn parse_error(&self, part: &str) -> (r: BibleError)
        ensures
            r@ == (BibleErrorView::ReferenceParseError { reference: part@ }),
    {
        BibleError::ReferenceParseError { reference: part.to_owned() }
    }

    /// Finds the book that a spelling stands for: an alternate
    /// abbreviation, else a canonical code, else the title of a book of
    /// this translation; upper and lower case are taken as the same.
    pub fn resolve_book(&self, input: &str) -> (r: Option<BibleBook>)
        ensures
            r == self@.resolve_book(input@),
    {
        match BibleBook::from_alias(input) {
            Some(book) => {
                return Some(book);
            },
            None => {},
        }
        match BibleBook::from_str(input) {
            Ok(book) => {
                return Some(book);
            },
            Err(_) => {},
        }
        let mut i: usize = 0;
        while i < self.books.len()
            invariant
                i <= self.books.len(),
                alias_lookup(lowercase(input@)) is None,
                parse_code(input@) is None,
                forall|j: int|
                    0 <= j < i ==> lowercase((#[trigger] self@.books[j]).title) != lowercase(
                        input@,
                    ),
            decreases self.books.len() - i,
        {
            proof {
                assert(self@.books[i as int] == self.books[i as int]@);
            }
            if eq_ignore_ascii_case(self.books[i].title(), input) {
                proof {
                    assert(self@.is_first_titled(i as int, input@));
                    let c = choose|c: int| self@.is_first_titled(c, input@);
                    self@.lemma_first_titled_unique(c, i as int, input@);
                }
                return match BibleBook::from_str(self.books[i].abbrev()) {
                    Ok(book) => Some(book),
                    Err(_) => None,
                };
            }
            i += 1;
        }
        proof {
            assert forall|c: int| !self@.is_first_titled(c, input@) by {
                if self@.is_first_titled(c, input@) {
                    assert(lowercase(self@.books[c].title) != lowercase(input@));
                }
            }
        }
        None
    }

    /// Returns the verse that a reference string such as `Gen 1:1` or
    /// `1 Co 13:1` names. A string that does not have the shape
    /// `<book> <chapter>:<verse>`, or whose book is not known, gives
    /// `ReferenceParseError` with the part that was not understood; else the
    /// result is that of looking the address up.
    pub fn get_verse_by_reference(&self, reference: &str) -> (r: Result<&Verse, BibleError>)
        ensures
            match r {
                Ok(v) => self@.verse_by_reference(reference@) == Ok::<VerseView, BibleErrorView>(
                    v@,
                ),
                Err(e) => self@.verse_by_reference(reference@) == Err::<
                    VerseView,
                    BibleErrorView,
                >(e@),
            },
    {
        let (book_part, chapter, verse) = match read_reference(reference) {
            Ok(parts) => parts,
            Err(part) => {
                return Err(BibleError::ReferenceParseError { reference: part });
            },
        };
        let token = string_from(&trimmed(&chars_of(book_part.as_str())));
        match self.resolve_book(token.as_str()) {
            Some(book) => self.get_verse(book, chapter, verse),
            None => Err(BibleError::ReferenceParseError { reference: book_part }),
        }
    }

    /// Whether a search has built the search index already.
    pub fn indexed(&self) -> (r: bool)
        ensures
            r == self.is_indexed(),
    {
        self.search_index.is_some()
    }

    /// Builds the search index of this Bible.
    pub fn build_search_index(&self) -> (r: SearchIndex)
        ensures
            r@ == corpus_index(self@.books),
            all_ascending(r@),
            none_empty(r@),
            forall|term: Seq<char>, loc: Location|
                lists(r@, term, loc) <==> corpus_mentions(self@.books, term, loc),
    {
        SearchIndex::build(self.books.as_slice())
    }

    /// Searches for the verses that hold every term of the query. The
    /// search index is built at the first search with a query that is not
    /// empty and kept for the later ones; the text itself does not change.
    pub fn search(&mut self, query: &str) -> (r: Vec<Location>)
        ensures
            final(self)@ == old(self)@,
            r@ == old(self)@.search(query@),
            strictly_ascending(r@),
            forall|loc: Location|
                r@.contains(loc) <==> corpus_mentions_all(old(self)@.books, tokens(query@), loc),
            final(self).is_indexed() == (old(self).is_indexed() || query@.len() > 0),
    {
        proof {
            use_type_invariant(&*self);
        }
        if query.is_empty() {
            proof {
                lemma_blank_query_finds_nothing(corpus_index(self@.books), query@);
                lemma_tokens_of_blank(query@);
            }
            return Vec::new();
        }
        if self.search_index.is_none() {
            let index = self.build_search_index();
            self.search_index = Some(index);
        }
        match &self.search_index {
            Some(index) => {
                proof {
                    self@.lemma_search_finds_exactly(query@);
                }
                index.search(query)
            },
            None => Vec::new(),
        }
    }
}

impl Clone for Bible {
    fn clone(&self) -> (r: Self)
        ensures
            r@ == self@,
    {
        proof {
            use_type_invariant(self);
        }
        let mut books: Vec<Book> = Vec::new();
        let mut i: usize = 0;
        while i < self.books.len()
            invariant
                i <= self.books.len(),
                books.len() == i,
                forall|j: int| 0 <= j < i ==> (#[trigger] books[j])@ == self.books[j]@,
            decreases self.books.len() - i,
        {
            books.push(self.books[i].clone());
            i += 1;
        }
        proof {
            assert(books.deep_view() =~= self.books.deep_view());
        }
        let index_by_abbrev = index_books(&books);
        let search_index = match &self.search_index {
            Some(index) => Some(index.clone()),
            None => None,
        };
        Bible {
            books,
            index_by_abbrev,
            search_index,
            id: self.id.clone(),
            name: self.name.clone(),
            description: self.description.clone(),
            language: self.language.clone(),
        }
    }
}

} // verus!
