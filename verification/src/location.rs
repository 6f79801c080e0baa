//! Verse locations and their canonical order: by book in canonical order,
//! then by chapter, then by verse.

use crate::bible_books_enum::{lemma_at_ordinal, BibleBook};
use vstd::prelude::*;

verus! {

/// Where a verse stands: the book, the chapter number, the verse number.
pub type Location = (BibleBook, usize, usize);

/// Whether `a` comes before `b` in canonical order.
pub open spec fn location_before(a: Location, b: Location) -> bool {
    ||| a.0.ordinal() < b.0.ordinal()
    ||| a.0.ordinal() == b.0.ordinal() && a.1 < b.1
    ||| a.0.ordinal() == b.0.ordinal() && a.1 == b.1 && a.2 < b.2
}

/// Whether the sequence runs in canonical order without repeating a location.
pub open spec fn strictly_ascending(s: Seq<Location>) -> bool {
    forall|i: int, j: int| 0 <= i < j < s.len() ==> location_before(s[i], s[j])
}

/// The one sequence in canonical order that holds exactly the locations of
/// which `holds` is true.
pub open spec fn ascending_seq_of(holds: spec_fn(Location) -> bool) -> Seq<Location> {
    choose|s: Seq<Location>|
        strictly_ascending(s) && forall|l: Location| s.contains(l) <==> #[trigger] holds(l)
}

/// Of two different locations one comes before the other.
pub proof fn lemma_location_order_total(a: Location, b: Location)
    ensures
        a == b || location_before(a, b) || location_before(b, a),
        !(location_before(a, b) && location_before(b, a)),
        !location_before(a, a),
{
    lemma_at_ordinal(a.0);
    lemma_at_ordinal(b.0);
}

/// Canonical order is transitive.
pub proof fn lemma_location_order_transitive(a: Location, b: Location, c: Location)
    requires
        location_before(a, b),
        location_before(b, c),
    ensures
        location_before(a, c),
{
}

/// Two sequences in canonical order that hold the same locations are equal.
pub proof fn lemma_ascending_unique(a: Seq<Location>, b: Seq<Location>)
    requires
        strictly_ascending(a),
        strictly_ascending(b),
        forall|l: Location| a.contains(l) <==> b.contains(l),
    ensures
        a == b,
    decreases a.len(),
{
    if a.len() == 0 {
        if b.len() > 0 {
            assert(b.contains(b[0]));
        }
        assert(a =~= b);
    } else {
        assert(a.contains(a[0]));
        assert(b.contains(a[0]));
        let kb = choose|k: int| 0 <= k < b.len() && b[k] == a[0];
        assert(b.contains(b[0]));
        assert(a.contains(b[0]));
        let ka = choose|k: int| 0 <= k < a.len() && a[k] == b[0];
        lemma_location_order_total(a[0], b[0]);
        assert(a[0] == b[0]) by {
            if ka > 0 && kb > 0 {
                assert(location_before(a[0], a[ka]));
                assert(location_before(b[0], b[kb]));
            }
        }
        let ta = a.drop_first();
        let tb = b.drop_first();
        assert(strictly_ascending(ta)) by {
            assert forall|i: int, j: int| 0 <= i < j < ta.len() implies location_before(
                ta[i],
                ta[j],
            ) by {
                assert(location_before(a[i + 1], a[j + 1]));
            }
        }
        assert(strictly_ascending(tb)) by {
            assert forall|i: int, j: int| 0 <= i < j < tb.len() implies location_before(
                tb[i],
                tb[j],
            ) by {
                assert(location_before(b[i + 1], b[j + 1]));
            }
        }
        assert forall|l: Location| ta.contains(l) <==> tb.contains(l) by {
            lemma_location_order_total(l, a[0]);
            if ta.contains(l) {
                let k = choose|k: int| 0 <= k < ta.len() && ta[k] == l;
                assert(a[k + 1] == l);
                assert(location_before(a[0], a[k + 1]));
                assert(a.contains(l));
                let m = choose|m: int| 0 <= m < b.len() && b[m] == l;
                assert(m > 0);
                assert(tb[m - 1] == l);
            }
            if tb.contains(l) {
                let k = choose|k: int| 0 <= k < tb.len() && tb[k] == l;
                assert(b[k + 1] == l);
                assert(location_before(b[0], b[k + 1]));
                assert(b.contains(l));
                let m = choose|m: int| 0 <= m < a.len() && a[m] == l;
                assert(m > 0);
                assert(ta[m - 1] == l);
            }
        }
        lemma_ascending_unique(ta, tb);
        assert(a =~= seq![a[0]] + ta);
        assert(b =~= seq![b[0]] + tb);
    }
}

/// A sequence in canonical order is the one that `ascending_seq_of` names
/// for the locations it holds.
pub proof fn lemma_ascending_seq_of(s: Seq<Location>, holds: spec_fn(Location) -> bool)
    requires
        strictly_ascending(s),
        forall|l: Location| s.contains(l) <==> #[trigger] holds(l),
    ensures
        ascending_seq_of(holds) == s,
{
    let c = ascending_seq_of(holds);
    assert(strictly_ascending(c) && forall|l: Location| c.contains(l) <==> #[trigger] holds(l));
    assert forall|l: Location| c.contains(l) <==> s.contains(l) by {
        assert(c.contains(l) <==> holds(l));
        assert(s.contains(l) <==> holds(l));
    }
    lemma_ascending_unique(c, s);
}

/// A sequence in canonical order with `x` put in at its place, unless it
/// holds `x` already.
pub open spec fn with_location(s: Seq<Location>, x: Location) -> Seq<Location>
    decreases s.len(),
{
    if s.len() == 0 {
        seq![x]
    } else if location_before(s.last(), x) {
        s.push(x)
    } else if s.last() == x {
        s
    } else {
        with_location(s.drop_last(), x).push(s.last())
    }
}

/// The locations of `s` of which `holds` is true, in canonical order and
/// each once.
pub open spec fn ascending_selection(s: Seq<Location>, holds: spec_fn(Location) -> bool) -> Seq<
    Location,
>
    decreases s.len(),
{
    if s.len() == 0 {
        Seq::empty()
    } else if holds(s.last()) {
        with_location(ascending_selection(s.drop_last(), holds), s.last())
    } else {
        ascending_selection(s.drop_last(), holds)
    }
}

/// Putting a location in keeps the canonical order and adds that location alone.
pub proof fn lemma_with_location(s: Seq<Location>, x: Location)
    requires
        strictly_ascending(s),
    ensures
        strictly_ascending(with_location(s, x)),
        forall|l: Location| #[trigger]
            with_location(s, x).contains(l) <==> s.contains(l) || l == x,
    decreases s.len(),
{
    let r = with_location(s, x);
    if s.len() == 0 {
        assert(r[0] == x);
    } else if location_before(s.last(), x) {
        assert forall|i: int, j: int| 0 <= i < j < r.len() implies location_before(r[i], r[j]) by {
            if j == s.len() && i < s.len() - 1 {
                lemma_location_order_transitive(s[i], s.last(), x);
            }
        }
        assert forall|l: Location| r.contains(l) <==> s.contains(l) || l == x by {
            if r.contains(l) {
                let k = choose|k: int| 0 <= k < r.len() && r[k] == l;
                if k < s.len() {
                    assert(s[k] == l);
                }
            }
            if s.contains(l) {
                let k = choose|k: int| 0 <= k < s.len() && s[k] == l;
                assert(r[k] == l);
            }
            assert(r[s.len() as int] == x);
        }
    } else if s.last() == x {
        assert(s[s.len() - 1] == x);
    } else {
        let head = s.drop_last();
        let last = s.last();
        lemma_location_order_total(last, x);
        assert(strictly_ascending(head)) by {
            assert forall|i: int, j: int| 0 <= i < j < head.len() implies location_before(
                head[i],
                head[j],
            ) by {
                assert(location_before(s[i], s[j]));
            }
        }
        lemma_with_location(head, x);
        let inner = with_location(head, x);
        assert forall|l: Location| inner.contains(l) implies location_before(l, last) by {
            if head.contains(l) {
                let k = choose|k: int| 0 <= k < head.len() && head[k] == l;
                assert(location_before(s[k], s[s.len() - 1]));
            }
        }
        assert forall|i: int, j: int| 0 <= i < j < r.len() implies location_before(r[i], r[j]) by {
            if j == inner.len() {
                assert(inner.contains(inner[i]));
            } else {
                assert(location_before(inner[i], inner[j]));
            }
        }
        assert forall|l: Location| r.contains(l) <==> s.contains(l) || l == x by {
            if r.contains(l) {
                let k = choose|k: int| 0 <= k < r.len() && r[k] == l;
                if k < inner.len() {
                    assert(inner.contains(inner[k]));
                    if head.contains(l) {
                        let m = choose|m: int| 0 <= m < head.len() && head[m] == l;
                        assert(s[m] == l);
                    }
                } else {
                    assert(s[s.len() - 1] == l);
                }
            }
            if s.contains(l) {
                let k = choose|k: int| 0 <= k < s.len() && s[k] == l;
                if k < head.len() {
                    assert(head[k] == l);
                    assert(head.contains(l));
                    assert(inner.contains(l) <==> head.contains(l) || l == x);
                    let m = choose|m: int| 0 <= m < inner.len() && inner[m] == l;
                    assert(r[m] == l);
                } else {
                    assert(r[inner.len() as int] == l);
                }
            }
            if l == x {
                assert(inner.contains(x) <==> head.contains(x) || x == x);
                let m = choose|m: int| 0 <= m < inner.len() && inner[m] == x;
                assert(r[m] == x);
            }
        }
    }
}

/// A selection runs in canonical order and holds what was to be selected.
pub proof fn lemma_ascending_selection(s: Seq<Location>, holds: spec_fn(Location) -> bool)
    ensures
        strictly_ascending(ascending_selection(s, holds)),
        forall|l: Location| #[trigger]
            ascending_selection(s, holds).contains(l) <==> s.contains(l) && holds(l),
    decreases s.len(),
{
    let r = ascending_selection(s, holds);
    if s.len() > 0 {
        let head = s.drop_last();
        let inner = ascending_selection(head, holds);
        lemma_ascending_selection(head, holds);
        if holds(s.last()) {
            lemma_with_location(inner, s.last());
        }
        assert forall|l: Location| r.contains(l) <==> s.contains(l) && holds(l) by {
            if head.contains(l) {
                let k = choose|k: int| 0 <= k < head.len() && head[k] == l;
                assert(s[k] == l);
            }
            if s.contains(l) {
                let k = choose|k: int| 0 <= k < s.len() && s[k] == l;
                if k < head.len() {
                    assert(head[k] == l);
                }
            }
            assert(s[s.len() - 1] == s.last());
        }
    }
}

/// Whether two locations are the same.
pub fn location_eq(a: &Location, b: &Location) -> (r: bool)
    ensures
        r == (*a == *b),
{
    a.0 == b.0 && a.1 == b.1 && a.2 == b.2
}

/// Whether `a` comes before `b` in canonical order.
pub fn location_less(a: &Location, b: &Location) -> (r: bool)
    ensures
        r == location_before(*a, *b),
{
    let x: usize = a.0.index();
    let y: usize = b.0.index();
    x < y || (x == y && (a.1 < b.1 || (a.1 == b.1 && a.2 < b.2)))
}

/// Whether `list` holds `loc`.
pub fn contains_location(list: &Vec<Location>, loc: &Location) -> (r: bool)
    ensures
        r == list@.contains(*loc),
{
    let mut i: usize = 0;
    while i < list.len()
        invariant
            i <= list.len(),
            forall|j: int| 0 <= j < i ==> list@[j] != *loc,
        decreases list.len() - i,
    {
        if location_eq(&list[i], loc) {
            return true;
        }
        i += 1;
    }
    false
}

/// Puts `loc` into a list unless the list holds it already: before the
/// locations at the end of the list that come after it. A list that runs
/// in canonical order still does so afterwards.
pub fn insert_ascending(list: &mut Vec<Location>, loc: Location)
    ensures
        strictly_ascending(old(list)@) ==> strictly_ascending(final(list)@),
        forall|l: Location| #[trigger]
            final(list)@.contains(l) <==> old(list)@.contains(l) || l == loc,
{
    let mut i: usize = list.len();
    while i > 0 && location_less(&loc, &list[i - 1])
        invariant
            i <= list.len(),
            list@ == old(list)@,
            forall|j: int| i <= j < list.len() ==> location_before(loc, list@[j]),
        decreases i,
    {
        i -= 1;
    }
    if i > 0 && location_eq(&list[i - 1], &loc) {
        proof {
            assert(list@[i - 1] == loc);
        }
        return ;
    }
    list.insert(i, loc);
    proof {
        let before = old(list)@;
        let after = list@;
        assert(after == before.insert(i as int, loc));
        if strictly_ascending(before) {
            if i > 0 {
                lemma_location_order_total(before[i - 1], loc);
            }
            assert forall|j: int| 0 <= j < i implies location_before(before[j], loc) by {
                if j < i - 1 {
                    lemma_location_order_transitive(before[j], before[i - 1], loc);
                }
            }
            assert forall|a: int, b: int| 0 <= a < b < after.len() implies location_before(
                after[a],
                after[b],
            ) by {
                if a < i && b > i {
                    assert(after[a] == before[a]);
                    assert(after[b] == before[b - 1]);
                }
            }
        }
        assert forall|l: Location| #[trigger]
            after.contains(l) <==> before.contains(l) || l == loc by {
            if after.contains(l) {
                let k = choose|k: int| 0 <= k < after.len() && after[k] == l;
                if k < i {
                    assert(before[k] == l);
                } else if k > i {
                    assert(before[k - 1] == l);
                }
            }
            if before.contains(l) {
                let k = choose|k: int| 0 <= k < before.len() && before[k] == l;
                if k < i {
                    assert(after[k] == l);
                } else {
                    assert(after[k + 1] == l);
                }
            }
            if l == loc {
                assert(after[i as int] == l);
            }
        }
    }
}

} // verus!
