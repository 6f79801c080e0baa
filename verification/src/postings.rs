//! What an index is, as a mathematical object, and what the answer to a
//! query in it is.

use crate::location::{
    ascending_selection, ascending_seq_of, lemma_ascending_selection, lemma_ascending_seq_of,
    strictly_ascending, Location,
};
use crate::text::{is_whitespace, lowercase, uppercase};
use crate::tokenize::{
    lemma_tokens_ignore_ascii_case, lemma_tokens_ignore_case, lemma_tokens_of_blank, tokens,
};
use vstd::prelude::*;

verus! {

/// What an index is: for each term that it knows, a list of locations.
pub type Postings = Map<Seq<char>, Seq<Location>>;

/// Whether `index` lists `loc` under `term`.
pub open spec fn lists(index: Postings, term: Seq<char>, loc: Location) -> bool {
    index.contains_key(term) && index[term].contains(loc)
}

/// Whether `index` lists `loc` under every one of `terms`, of which there
/// is at least one.
pub open spec fn lists_all(index: Postings, terms: Seq<Seq<char>>, loc: Location) -> bool {
    terms.len() > 0 && forall|n: int|
        0 <= n < terms.len() ==> lists(index, #[trigger] terms[n], loc)
}

/// The answer to a query: the locations that `index` lists under every term
/// of the query, in canonical order and each once. A query without terms
/// has no answer.
pub open spec fn search_result(index: Postings, query: Seq<char>) -> Seq<Location> {
    ascending_seq_of(|loc: Location| lists_all(index, tokens(query), loc))
}

/// Whether every list of `index` runs in canonical order without repeats.
pub open spec fn all_ascending(index: Postings) -> bool {
    forall|term: Seq<char>| index.contains_key(term) ==> strictly_ascending(#[trigger] index[term])
}

/// Whether no list of `index` is empty.
pub open spec fn none_empty(index: Postings) -> bool {
    forall|term: Seq<char>| index.contains_key(term) ==> (#[trigger] index[term]).len() > 0
}

/// The index with the entries of `entries` put in one after the other, a
/// later entry for a term taking the place of an earlier one.
pub open spec fn postings_of(entries: Seq<(Seq<char>, Seq<Location>)>) -> Postings
    decreases entries.len(),
{
    if entries.len() == 0 {
        Map::empty()
    } else {
        postings_of(entries.drop_last()).insert(entries.last().0, entries.last().1)
    }
}

/// The entries of a list of terms with their lists, each as plain values.
pub open spec fn entries_view(entries: Seq<(String, Vec<Location>)>) -> Seq<
    (Seq<char>, Seq<Location>),
> {
    Seq::new(entries.len(), |i: int| (entries[i].0@, entries[i].1@))
}

/// A sequence in canonical order that holds the locations listed under
/// every term of the query, and no others, is the answer to the query.
pub proof fn lemma_search_result(index: Postings, query: Seq<char>, r: Seq<Location>)
    requires
        strictly_ascending(r),
        forall|loc: Location| r.contains(loc) <==> lists_all(index, tokens(query), loc),
    ensures
        r == search_result(index, query),
{
    let holds = |loc: Location| lists_all(index, tokens(query), loc);
    assert forall|loc: Location| r.contains(loc) <==> #[trigger] holds(loc) by {
        assert(r.contains(loc) <==> lists_all(index, tokens(query), loc));
    }
    lemma_ascending_seq_of(r, holds);
}

/// What the answer to a query is, whatever the index and the query: it
/// runs in canonical order, names no location twice, and names exactly the
/// locations that the index lists under every term of the query.
pub proof fn lemma_search_result_holds(index: Postings, query: Seq<char>)
    ensures
        strictly_ascending(search_result(index, query)),
        forall|loc: Location|
            search_result(index, query).contains(loc) <==> lists_all(index, tokens(query), loc),
{
    let terms = tokens(query);
    let holds = |loc: Location| lists_all(index, tokens(query), loc);
    let listed = if terms.len() > 0 && index.contains_key(terms[0]) {
        index[terms[0]]
    } else {
        Seq::<Location>::empty()
    };
    let r = ascending_selection(listed, holds);
    lemma_ascending_selection(listed, holds);
    assert forall|loc: Location| r.contains(loc) <==> lists_all(index, terms, loc) by {
        assert(r.contains(loc) <==> listed.contains(loc) && holds(loc));
        if lists_all(index, terms, loc) {
            assert(lists(index, terms[0], loc));
        }
    }
    lemma_search_result(index, query, r);
}

/// An empty sequence is the answer to a query that no location answers.
pub proof fn lemma_no_answer(index: Postings, query: Seq<char>)
    requires
        forall|loc: Location| !lists_all(index, tokens(query), loc),
    ensures
        search_result(index, query) == Seq::<Location>::empty(),
{
    let none = Seq::<Location>::empty();
    assert forall|loc: Location| none.contains(loc) <==> lists_all(index, tokens(query), loc) by {}
    lemma_search_result(index, query, none);
}

/// An empty query, and one made of whitespace alone, finds nothing in any index.
pub proof fn lemma_blank_query_finds_nothing(index: Postings, query: Seq<char>)
    requires
        forall|i: int| 0 <= i < query.len() ==> is_whitespace(#[trigger] query[i]),
    ensures
        search_result(index, query) == Seq::<Location>::empty(),
{
    lemma_tokens_of_blank(query);
    lemma_no_answer(index, query);
}

/// A query and its upper-case form have the same answer in any index.
pub proof fn lemma_search_ignores_case(index: Postings, query: Seq<char>)
    ensures
        search_result(index, uppercase(query)) == search_result(index, query),
{
    lemma_tokens_ignore_case(query);
}

/// Two queries that differ in the case of ASCII letters alone have the same
/// answer in any index.
pub proof fn lemma_search_ignores_ascii_case(index: Postings, q1: Seq<char>, q2: Seq<char>)
    requires
        lowercase(q1) == lowercase(q2),
    ensures
        search_result(index, q1) == search_result(index, q2),
{
    lemma_tokens_ignore_ascii_case(q1, q2);
}

/// The order of the terms of a query does not change what answers it, nor
/// does a term that comes twice: two queries whose terms are the same, as
/// a set, have the same answer.
pub proof fn lemma_search_depends_on_term_set(index: Postings, q1: Seq<char>, q2: Seq<char>)
    requires
        forall|t: Seq<char>| tokens(q1).contains(t) <==> tokens(q2).contains(t),
    ensures
        search_result(index, q1) == search_result(index, q2),
{
    let t1 = tokens(q1);
    let t2 = tokens(q2);
    assert forall|loc: Location| lists_all(index, t1, loc) <==> lists_all(index, t2, loc) by {
        if t1.len() > 0 {
            assert(t1.contains(t1[0]));
        }
        if t2.len() > 0 {
            assert(t2.contains(t2[0]));
        }
        if lists_all(index, t1, loc) {
            assert forall|n: int| 0 <= n < t2.len() implies lists(index, #[trigger] t2[n], loc) by {
                assert(t2.contains(t2[n]));
                let m = choose|m: int| 0 <= m < t1.len() && t1[m] == t2[n];
                assert(lists(index, t1[m], loc));
            }
        }
        if lists_all(index, t2, loc) {
            assert forall|n: int| 0 <= n < t1.len() implies lists(index, #[trigger] t1[n], loc) by {
                assert(t1.contains(t1[n]));
                let m = choose|m: int| 0 <= m < t2.len() && t2[m] == t1[n];
                assert(lists(index, t2[m], loc));
            }
        }
    }
    let h1 = |loc: Location| lists_all(index, tokens(q1), loc);
    let h2 = |loc: Location| lists_all(index, tokens(q2), loc);
    assert forall|loc: Location| #[trigger] h1(loc) == h2(loc) by {
        assert(lists_all(index, t1, loc) <==> lists_all(index, t2, loc));
    }
    assert(h1 =~= h2);
}

} // verus!
