//! The inverted index: for each term, the locations of the verses that hold
//! it, and the search for the verses that hold every term of a query.

use crate::bible_books_enum::{parse_code, BibleBook};
use crate::book::Book;
use crate::chapter::Chapter;
use crate::corpus_index::{
    book_mentions, book_mentions_upto, chapter_mentions, chapter_mentions_upto, corpus_index,
    corpus_mentions, lemma_corpus_index, verse_mentions,
};
use crate::location::{contains_location, insert_ascending, strictly_ascending, Location};
use crate::postings::{
    all_ascending, entries_view, lemma_search_result, lists, lists_all, none_empty, postings_of,
    search_result, Postings,
};
use crate::tokenize::{tokenize, tokens};
use crate::verse::Verse;
use vstd::hash_map::StringHashMap;
use vstd::prelude::*;

verus! {

/// The working form of an index: the terms in the order in which they were
/// first met, the list of each, and the place of each term in that order.
struct Table {
    terms: Vec<String>,
    postings: Vec<Vec<Location>>,
    slots: StringHashMap<usize>,
}

impl Table {
    /// Each term has one list and one slot, and the slot of a term is its place.
    spec fn wf(&self) -> bool {
        &&& self.terms.len() == self.postings.len()
        &&& forall|k: Seq<char>| #[trigger]
            self.slots@.contains_key(k) ==> self.slots@[k] < self.terms.len()
                && self.terms[self.slots@[k] as int]@ == k
        &&& forall|i: int|
            0 <= i < self.terms.len() ==> self.slots@.contains_key(#[trigger] self.terms[i]@)
                && self.slots@[self.terms[i]@] == i
    }

    /// The index that this table holds.
    spec fn view(&self) -> Postings {
        Map::new(
            |k: Seq<char>| self.slots@.contains_key(k),
            |k: Seq<char>| self.postings[self.slots@[k] as int]@,
        )
    }

    /// Creates a table without terms.
    fn new() -> (r: Self)
        ensures
            r.wf(),
            r.view() == Postings::empty(),
    {
        let r = Table { terms: Vec::new(), postings: Vec::new(), slots: StringHashMap::new() };
        proof {
            assert(r.view() =~= Postings::empty());
        }
        r
    }

    /// Returns the list of `term`, if the table knows the term.
    fn get(&self, term: &str) -> (r: Option<&Vec<Location>>)
        requires
            self.wf(),
        ensures
            r is Some <==> self.view().contains_key(term@),
            r matches Some(list) ==> list@ == self.view()[term@],
    {
        match self.slots.get(term) {
            Some(slot) => Some(&self.postings[*slot]),
            None => None,
        }
    }

    /// Lists `loc` under `term`, at its place in canonical order, unless it
    /// is listed there already.
    fn add(&mut self, term: &str, loc: Location)
        requires
            old(self).wf(),
            all_ascending(old(self).view()),
            none_empty(old(self).view()),
        ensures
            final(self).wf(),
            all_ascending(final(self).view()),
            none_empty(final(self).view()),
            forall|t: Seq<char>, l: Location|
                lists(final(self).view(), t, l) <==> lists(old(self).view(), t, l) || (t == term@
                    && l == loc),
    {
        let found: Option<usize> = match self.slots.get(term) {
            Some(slot) => Some(*slot),
            None => None,
        };
        match found {
            Some(slot) => {
                proof {
                    assert(old(self).view().contains_key(term@));
                    assert(strictly_ascending(old(self).view()[term@]));
                }
                insert_ascending(&mut self.postings[slot], loc);
                proof {
                    let before = old(self).view();
                    let after = self.view();
                    assert(after[term@].contains(loc));
                    assert forall|t: Seq<char>| after.contains_key(t) implies (
                    #[trigger] after[t]).len() > 0 by {
                        if t != term@ {
                            assert(after[t] == before[t]);
                        }
                    }
                    assert forall|t: Seq<char>| after.contains_key(t) implies strictly_ascending(
                        #[trigger] after[t],
                    ) by {
                        if t != term@ {
                            assert(after[t] == before[t]);
                        }
                    }
                    assert forall|t: Seq<char>, l: Location|
                        lists(after, t, l) <==> lists(before, t, l) || (t == term@ && l
                            == loc) by {
                        if after.contains_key(t) && t != term@ {
                            assert(after[t] == before[t]);
                        }
                    }
                }
            },
            None => {
                let n: usize = self.terms.len();
                let mut list: Vec<Location> = Vec::new();
                list.push(loc);
                self.terms.push(term.to_owned());
                self.postings.push(list);
                self.slots.insert(term.to_owned(), n);
                proof {
                    let before = old(self).view();
                    let after = self.view();
                    assert(after[term@] =~= seq![loc]);
                    assert forall|t: Seq<char>| after.contains_key(t) implies (
                    #[trigger] after[t]).len() > 0 by {
                        if t != term@ {
                            assert(after[t] == before[t]);
                        }
                    }
                    assert forall|i: int| 0 <= i < self.terms.len() implies self.slots@
                        .contains_key(#[trigger] self.terms[i]@) && self.slots@[self.terms[i]@]
                        == i by {
                        if i < n {
                            assert(self.terms[i] == old(self).terms[i]);
                        }
                    }
                    assert forall|t: Seq<char>| after.contains_key(t) implies strictly_ascending(
                        #[trigger] after[t],
                    ) by {
                        if t != term@ {
                            assert(after[t] == before[t]);
                        }
                    }
                    assert forall|t: Seq<char>, l: Location|
                        lists(after, t, l) <==> lists(before, t, l) || (t == term@ && l
                            == loc) by {
                        if t != term@ {
                            if after.contains_key(t) {
                                assert(after[t] == before[t]);
                            }
                        } else {
                            assert(seq![loc][0] == loc);
                        }
                    }
                }
            },
        }
    }

    /// Gives `term` the list `list`, in place of the list it had, if any.
    fn set(&mut self, term: &str, list: Vec<Location>)
        requires
            old(self).wf(),
        ensures
            final(self).wf(),
            final(self).view() == old(self).view().insert(term@, list@),
    {
        let found: Option<usize> = match self.slots.get(term) {
            Some(slot) => Some(*slot),
            None => None,
        };
        match found {
            Some(slot) => {
                self.postings[slot] = list;
                proof {
                    assert(self.view() =~= old(self).view().insert(term@, list@));
                }
            },
            None => {
                let n: usize = self.terms.len();
                self.terms.push(term.to_owned());
                self.postings.push(list);
                self.slots.insert(term.to_owned(), n);
                proof {
                    assert forall|i: int| 0 <= i < self.terms.len() implies self.slots@
                        .contains_key(#[trigger] self.terms[i]@) && self.slots@[self.terms[i]@]
                        == i by {
                        if i < n {
                            assert(self.terms[i] == old(self).terms[i]);
                        }
                    }
                    assert(self.view() =~= old(self).view().insert(term@, list@));
                }
            },
        }
    }

    /// Lists `loc` under every term of `verse`.
    fn add_verse(&mut self, loc: Location, verse: &Verse)
        requires
            old(self).wf(),
            all_ascending(old(self).view()),
            none_empty(old(self).view()),
        ensures
            final(self).wf(),
            all_ascending(final(self).view()),
            none_empty(final(self).view()),
            forall|t: Seq<char>, l: Location|
                lists(final(self).view(), t, l) <==> lists(old(self).view(), t, l) || (l == loc
                    && verse_mentions(verse@, t)),
    {
        let terms = tokenize(verse.text());
        let ghost wanted = tokens(verse@.text);
        let mut n: usize = 0;
        while n < terms.len()
            invariant
                n <= terms.len(),
                terms.deep_view() == wanted,
                self.wf(),
                all_ascending(self.view()),
                none_empty(self.view()),
                forall|t: Seq<char>, l: Location|
                    lists(self.view(), t, l) <==> lists(old(self).view(), t, l) || (l == loc
                        && wanted.take(n as int).contains(t)),
            decreases terms.len() - n,
        {
            let ghost before = self.view();
            proof {
                assert(terms.deep_view()[n as int] == terms[n as int]@);
            }
            self.add(terms[n].as_str(), loc);
            proof {
                let head = wanted.take(n as int);
                let next = wanted.take(n + 1);
                assert(next =~= head.push(wanted[n as int]));
                assert forall|t: Seq<char>| next.contains(t) <==> head.contains(t) || t
                    == wanted[n as int] by {
                    if head.contains(t) {
                        let k = choose|k: int| 0 <= k < head.len() && head[k] == t;
                        assert(next[k] == t);
                    }
                    if next.contains(t) {
                        let k = choose|k: int| 0 <= k < next.len() && next[k] == t;
                        if k < n {
                            assert(head[k] == t);
                        }
                    }
                    assert(next[n as int] == wanted[n as int]);
                }
                assert forall|t: Seq<char>, l: Location|
                    lists(self.view(), t, l) <==> lists(old(self).view(), t, l) || (l == loc
                        && next.contains(t)) by {
                    assert(lists(self.view(), t, l) <==> lists(before, t, l) || (t
                        == wanted[n as int] && l == loc));
                    assert(lists(before, t, l) <==> lists(old(self).view(), t, l) || (l == loc
                        && head.contains(t)));
                }
            }
            n += 1;
        }
        proof {
            assert(wanted.take(wanted.len() as int) =~= wanted);
        }
    }

    /// Lists every verse of `chapter` under its terms, as a chapter of
    /// `book` at position `number`.
    fn add_chapter(&mut self, book: BibleBook, number: usize, chapter: &Chapter)
        requires
            old(self).wf(),
            all_ascending(old(self).view()),
            none_empty(old(self).view()),
        ensures
            final(self).wf(),
            all_ascending(final(self).view()),
            none_empty(final(self).view()),
            forall|t: Seq<char>, l: Location|
                lists(final(self).view(), t, l) <==> lists(old(self).view(), t, l) || (l.0 == book
                    && l.1 == number && chapter_mentions(chapter@, t, l.2 as nat)),
    {
        let verses = chapter.get_verses();
        let mut k: usize = 0;
        while k < verses.len()
            invariant
                k <= verses.len(),
                verses.deep_view() == chapter@.verses,
                self.wf(),
                all_ascending(self.view()),
                none_empty(self.view()),
                forall|t: Seq<char>, l: Location|
                    lists(self.view(), t, l) <==> lists(old(self).view(), t, l) || (l.0 == book
                        && l.1 == number && chapter_mentions_upto(
                        chapter@,
                        t,
                        l.2 as nat,
                        k as int,
                    )),
            decreases verses.len() - k,
        {
            let ghost before = self.view();
            let verse = &verses[k];
            let loc: Location = (book, number, verse.number());
            self.add_verse(loc, verse);
            proof {
                assert(verses.deep_view()[k as int] == verses[k as int]@);
                assert(chapter@.verses[k as int] == verse@);
                assert forall|t: Seq<char>, l: Location|
                    lists(self.view(), t, l) <==> lists(old(self).view(), t, l) || (l.0 == book
                        && l.1 == number && chapter_mentions_upto(
                        chapter@,
                        t,
                        l.2 as nat,
                        k + 1,
                    )) by {
                    assert(lists(self.view(), t, l) <==> lists(before, t, l) || (l == loc
                        && verse_mentions(verse@, t)));
                    assert(lists(before, t, l) <==> lists(old(self).view(), t, l) || (l.0 == book
                        && l.1 == number && chapter_mentions_upto(
                        chapter@,
                        t,
                        l.2 as nat,
                        k as int,
                    )));
                    if chapter_mentions_upto(chapter@, t, l.2 as nat, k + 1) {
                        let w = choose|w: int|
                            0 <= w < k + 1 && w < chapter@.verses.len() && (
                            #[trigger] chapter@.verses[w]).number == l.2 as nat && verse_mentions(
                                chapter@.verses[w],
                                t,
                            );
                        if w < k {
                            assert(chapter_mentions_upto(chapter@, t, l.2 as nat, k as int));
                        }
                    }
                    if l == loc && verse_mentions(verse@, t) {
                        assert(chapter@.verses[k as int].number == l.2 as nat);
                        assert(chapter_mentions_upto(chapter@, t, l.2 as nat, k + 1));
                    }
                    if chapter_mentions_upto(chapter@, t, l.2 as nat, k as int) {
                        let w = choose|w: int|
                            0 <= w < k && w < chapter@.verses.len() && (
                            #[trigger] chapter@.verses[w]).number == l.2 as nat && verse_mentions(
                                chapter@.verses[w],
                                t,
                            );
                        assert(chapter_mentions_upto(chapter@, t, l.2 as nat, k + 1));
                    }
                }
            }
            k += 1;
        }
    }

    /// Lists every verse of `book` under its terms, with `id` as the book of
    /// each location.
    fn add_book(&mut self, id: BibleBook, book: &Book)
        requires
            old(self).wf(),
            all_ascending(old(self).view()),
            none_empty(old(self).view()),
        ensures
            final(self).wf(),
            all_ascending(final(self).view()),
            none_empty(final(self).view()),
            forall|t: Seq<char>, l: Location|
                lists(final(self).view(), t, l) <==> lists(old(self).view(), t, l) || (l.0 == id
                    && book_mentions(book@, t, l.1 as nat, l.2 as nat)),
    {
        let chapters = book.chapters();
        let mut j: usize = 0;
        while j < chapters.len()
            invariant
                j <= chapters.len(),
                chapters.deep_view() == book@.chapters,
                self.wf(),
                all_ascending(self.view()),
                none_empty(self.view()),
                forall|t: Seq<char>, l: Location|
                    lists(self.view(), t, l) <==> lists(old(self).view(), t, l) || (l.0 == id
                        && book_mentions_upto(book@, t, l.1 as nat, l.2 as nat, j as int)),
            decreases chapters.len() - j,
        {
            let ghost before = self.view();
            let chapter = &chapters[j];
            self.add_chapter(id, j + 1, chapter);
            proof {
                assert(chapters.deep_view()[j as int] == chapters[j as int]@);
                assert(book@.chapters[j as int] == chapter@);
                assert forall|t: Seq<char>, l: Location|
                    lists(self.view(), t, l) <==> lists(old(self).view(), t, l) || (l.0 == id
                        && book_mentions_upto(book@, t, l.1 as nat, l.2 as nat, j + 1)) by {
                    assert(lists(self.view(), t, l) <==> lists(before, t, l) || (l.0 == id && l.1
                        == j + 1 && chapter_mentions(chapter@, t, l.2 as nat)));
                    assert(lists(before, t, l) <==> lists(old(self).view(), t, l) || (l.0 == id
                        && book_mentions_upto(book@, t, l.1 as nat, l.2 as nat, j as int)));
                }
            }
            j += 1;
        }
    }
}

/// Whether every list of `found` holds `loc`.
fn listed_in_all(found: &Vec<&Vec<Location>>, loc: &Location) -> (r: bool)
    ensures
        r == forall|m: int| 0 <= m < found.len() ==> (#[trigger] found[m])@.contains(*loc),
{
    let mut m: usize = 0;
    while m < found.len()
        invariant
            m <= found.len(),
            forall|k: int| 0 <= k < m ==> (#[trigger] found[k])@.contains(*loc),
        decreases found.len() - m,
    {
        if !contains_location(found[m], loc) {
            return false;
        }
        m += 1;
    }
    true
}

/// A copy of a list of locations.
fn copy_locations(list: &Vec<Location>) -> (r: Vec<Location>)
    ensures
        r@ == list@,
{
    let mut out: Vec<Location> = Vec::new();
    let mut i: usize = 0;
    while i < list.len()
        invariant
            i <= list.len(),
            out@ == list@.take(i as int),
        decreases list.len() - i,
    {
        out.push(list[i]);
        proof {
            assert(out@ =~= list@.take(i + 1));
        }
        i += 1;
    }
    proof {
        assert(list@.take(list.len() as int) =~= list@);
    }
    out
}

/// Search index mapping normalized terms to verse locations.
pub struct SearchIndex {
    table: Table,
}

impl View for SearchIndex {
    type V = Postings;

    closed spec fn view(&self) -> Postings {
        self.table.view()
    }
}

impl SearchIndex {
    /// The table behind the index is in order.
    #[verifier::type_invariant]
    spec fn well_formed(self) -> bool {
        self.table.wf()
    }

    /// Creates a search index from the lists of terms. Where a term comes
    /// twice, its later list stands.
    pub fn new(index: Vec<(String, Vec<Location>)>) -> (r: Self)
        ensures
            r@ == postings_of(entries_view(index@)),
    {
        let mut table = Table::new();
        let mut i: usize = 0;
        while i < index.len()
            invariant
                i <= index.len(),
                table.wf(),
                table.view() == postings_of(entries_view(index@).take(i as int)),
            decreases index.len() - i,
        {
            let list = copy_locations(&index[i].1);
            table.set(index[i].0.as_str(), list);
            proof {
                let entries = entries_view(index@);
                assert(entries.take(i + 1).drop_last() =~= entries.take(i as int));
                assert(entries.take(i + 1).last() == entries[i as int]);
            }
            i += 1;
        }
        proof {
            assert(entries_view(index@).take(index.len() as int) =~= entries_view(index@));
        }
        SearchIndex { table }
    }

    /// Breaks a text into normalized lower-case terms.
    pub fn tokenize(text: &str) -> (r: Vec<String>)
        ensures
            r.deep_view() == tokens(text@),
    {
        tokenize(text)
    }

    /// Builds the index of a corpus: every verse of every book whose
    /// abbreviation is a canonical code is listed under each of its terms,
    /// once, and every list runs in canonical order.
    pub fn build(books: &[Book]) -> (r: Self)
        ensures
            r@ == corpus_index(books.deep_view()),
            all_ascending(r@),
            none_empty(r@),
            forall|term: Seq<char>, loc: Location|
                lists(r@, term, loc) <==> corpus_mentions(books.deep_view(), term, loc),
    {
        let mut table = Table::new();
        let ghost corpus = books.deep_view();
        let mut i: usize = 0;
        while i < books.len()
            invariant
                i <= books.len(),
                corpus == books.deep_view(),
                table.wf(),
                all_ascending(table.view()),
                none_empty(table.view()),
                forall|t: Seq<char>, l: Location|
                    lists(table.view(), t, l) <==> corpus_mentions(corpus.take(i as int), t, l),
            decreases books.len() - i,
        {
            let ghost before = table.view();
            let book = &books[i];
            let parsed = BibleBook::from_str(book.abbrev());
            match parsed {
                Ok(id) => {
                    table.add_book(id, book);
                },
                Err(_) => {},
            }
            proof {
                let head = corpus.take(i as int);
                let next = corpus.take(i + 1);
                assert(corpus[i as int] == book@);
                assert forall|t: Seq<char>, l: Location|
                    lists(table.view(), t, l) <==> corpus_mentions(next, t, l) by {
                    assert(lists(before, t, l) <==> corpus_mentions(head, t, l));
                    let here = parse_code(book@.abbrev) == Some(l.0) && book_mentions(
                        book@,
                        t,
                        l.1 as nat,
                        l.2 as nat,
                    );
                    assert(lists(table.view(), t, l) <==> lists(before, t, l) || here);
                    if corpus_mentions(head, t, l) {
                        let w = choose|w: int|
                            0 <= w < head.len() && parse_code((#[trigger] head[w]).abbrev) == Some(
                                l.0,
                            ) && book_mentions(head[w], t, l.1 as nat, l.2 as nat);
                        assert(next[w] == head[w]);
                    }
                    if here {
                        assert(next[i as int] == book@);
                    }
                    if corpus_mentions(next, t, l) {
                        let w = choose|w: int|
                            0 <= w < next.len() && parse_code((#[trigger] next[w]).abbrev) == Some(
                                l.0,
                            ) && book_mentions(next[w], t, l.1 as nat, l.2 as nat);
                        if w < i {
                            assert(head[w] == next[w]);
                        }
                    }
                }
            }
            i += 1;
        }
        proof {
            assert(corpus.take(books.len() as int) =~= corpus);
            lemma_corpus_index(table.view(), corpus);
        }
        SearchIndex { table }
    }

    /// Searches for the verses that hold every term of the query. The
    /// answer runs in canonical order and names each verse once; a query
    /// without terms, or with a term that the index does not know, finds
    /// nothing.
    pub fn search(&self, query: &str) -> (r: Vec<Location>)
        ensures
            r@ == search_result(self@, query@),
            strictly_ascending(r@),
            forall|loc: Location| r@.contains(loc) <==> lists_all(self@, tokens(query@), loc),
    {
        proof {
            use_type_invariant(self);
        }
        let terms = Self::tokenize(query);
        let ghost wanted = tokens(query@);
        let mut result: Vec<Location> = Vec::new();
        let mut found: Vec<&Vec<Location>> = Vec::new();
        let mut n: usize = 0;
        while n < terms.len()
            invariant
                n <= terms.len(),
                found.len() == n,
                result@.len() == 0,
                self.table.wf(),
                wanted == tokens(query@),
                terms.deep_view() == wanted,
                forall|m: int|
                    0 <= m < n ==> self@.contains_key(#[trigger] wanted[m]) && found[m]@
                        == self@[wanted[m]],
            decreases terms.len() - n,
        {
            proof {
                assert(terms.deep_view()[n as int] == terms[n as int]@);
            }
            match self.table.get(terms[n].as_str()) {
                Some(list) => {
                    found.push(list);
                },
                None => {
                    proof {
                        assert(!self@.contains_key(wanted[n as int]));
                        assert forall|loc: Location|
                            result@.contains(loc) <==> lists_all(self@, wanted, loc) by {
                            if lists_all(self@, wanted, loc) {
                                assert(lists(self@, wanted[n as int], loc));
                            }
                        }
                        lemma_search_result(self@, query@, result@);
                    }
                    return result;
                },
            }
            n += 1;
        }
        if found.len() == 0 {
            proof {
                lemma_search_result(self@, query@, result@);
            }
            return result;
        }
        let first = found[0];
        let mut i: usize = 0;
        while i < first.len()
            invariant
                i <= first.len(),
                found.len() == wanted.len(),
                found.len() > 0,
                first == found[0],
                strictly_ascending(result@),
                forall|m: int|
                    0 <= m < found.len() ==> self@.contains_key(#[trigger] wanted[m]) && found[m]@
                        == self@[wanted[m]],
                forall|loc: Location|
                    result@.contains(loc) <==> first@.take(i as int).contains(loc) && lists_all(
                        self@,
                        wanted,
                        loc,
                    ),
            decreases first.len() - i,
        {
            let loc = first[i];
            let everywhere = listed_in_all(&found, &loc);
            let ghost before = result@;
            if everywhere {
                insert_ascending(&mut result, loc);
            }
            proof {
                assert(first@.take(i + 1) =~= first@.take(i as int).push(loc));
                assert(everywhere == lists_all(self@, wanted, loc)) by {
                    if everywhere {
                        assert forall|m: int| 0 <= m < wanted.len() implies lists(
                            self@,
                            #[trigger] wanted[m],
                            loc,
                        ) by {
                            assert(found[m]@.contains(loc));
                        }
                    }
                    if lists_all(self@, wanted, loc) {
                        assert forall|m: int| 0 <= m < found.len() implies (
                        #[trigger] found[m])@.contains(loc) by {
                            assert(lists(self@, wanted[m], loc));
                        }
                    }
                }
                assert forall|l: Location|
                    result@.contains(l) <==> first@.take(i + 1).contains(l) && lists_all(
                        self@,
                        wanted,
                        l,
                    ) by {
                    let old_take = first@.take(i as int);
                    let new_take = first@.take(i + 1);
                    if new_take.contains(l) {
                        let k = choose|k: int| 0 <= k < new_take.len() && new_take[k] == l;
                        if k < i {
                            assert(old_take[k] == l);
                        }
                    }
                    if old_take.contains(l) {
                        let k = choose|k: int| 0 <= k < old_take.len() && old_take[k] == l;
                        assert(new_take[k] == l);
                    }
                    assert(new_take[i as int] == loc);
                }
            }
            i += 1;
        }
        proof {
            assert(first@.take(first.len() as int) =~= first@);
            assert forall|loc: Location|
                result@.contains(loc) <==> lists_all(self@, wanted, loc) by {
                if lists_all(self@, wanted, loc) {
                    assert(lists(self@, wanted[0], loc));
                }
            }
            lemma_search_result(self@, query@, result@);
        }
        result
    }
}

impl Default for SearchIndex {
    fn default() -> (r: Self)
        ensures
            r@ == Postings::empty(),
    {
        SearchIndex { table: Table::new() }
    }
}

impl Clone for SearchIndex {
    fn clone(&self) -> (r: Self)
        ensures
            r@ == self@,
    {
        proof {
            use_type_invariant(self);
        }
        let mut table = Table::new();
        let mut i: usize = 0;
        while i < self.table.terms.len()
            invariant
                i <= self.table.terms.len(),
                self.table.wf(),
                table.wf(),
                forall|k: Seq<char>|
                    table.view().contains_key(k) <==> self.table.slots@.contains_key(k)
                        && self.table.slots@[k] < i,
                forall|k: Seq<char>| #[trigger]
                    table.view().contains_key(k) ==> table.view()[k] == self.table.view()[k],
            decreases self.table.terms.len() - i,
        {
            let list = copy_locations(&self.table.postings[i]);
            table.set(self.table.terms[i].as_str(), list);
            i += 1;
        }
        proof {
            assert(table.view() =~= self.table.view());
        }
        SearchIndex { table }
    }
}

} // verus!
