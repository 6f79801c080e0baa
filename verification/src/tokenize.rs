//! Breaking a text into search terms: maximal runs of ASCII letters and
//! digits, in lower case.

use crate::text::{
    ascii_lower, ascii_upper, char_is_ascii_alphanumeric, char_to_ascii_lowercase,
    is_ascii_alphanumeric, is_whitespace, lowercase, uppercase,
};
use vstd::prelude::*;

verus! {

/// What a term that has been read so far adds to the terms: itself, unless
/// it is empty.
pub open spec fn closed_term(pending: Seq<char>) -> Seq<Seq<char>> {
    if pending.len() > 0 {
        seq![pending]
    } else {
        Seq::empty()
    }
}

/// The terms of `s`, read from left to right, where `pending` holds the
/// characters of a term that began before `s`.
pub open spec fn scan(pending: Seq<char>, s: Seq<char>) -> Seq<Seq<char>>
    decreases s.len(),
{
    if s.len() == 0 {
        closed_term(pending)
    } else if is_ascii_alphanumeric(s[0]) {
        scan(pending.push(ascii_lower(s[0])), s.drop_first())
    } else {
        closed_term(pending) + scan(Seq::empty(), s.drop_first())
    }
}

/// The terms of a text: every maximal run of ASCII letters and digits, in
/// lower case and in the order of the text. Any other character separates.
pub open spec fn tokens(s: Seq<char>) -> Seq<Seq<char>> {
    scan(Seq::empty(), s)
}

/// Breaks a text into its terms.
pub fn tokenize(text: &str) -> (r: Vec<String>)
    ensures
        r.deep_view() == tokens(text@),
{
    let mut out: Vec<String> = Vec::new();
    let mut current = String::new();
    let mut filled: bool = false;
    proof {
        assert(text@.skip(0) =~= text@);
        assert(out.deep_view() =~= Seq::<Seq<char>>::empty());
        assert(out.deep_view() + tokens(text@) =~= tokens(text@));
    }
    for c in it: text.chars()
        invariant
            it.seq() == text@,
            filled == (current@.len() > 0),
            tokens(text@) == out.deep_view() + scan(current@, text@.skip(it.index())),
    {
        let ghost i = it.index();
        let ghost before = out.deep_view();
        let ghost pending = current@;
        let ghost tail = text@.skip(i);
        proof {
            assert(tail.len() > 0);
            assert(tail[0] == c);
            assert(tail.drop_first() =~= text@.skip(i + 1));
        }
        if char_is_ascii_alphanumeric(c) {
            current.push(char_to_ascii_lowercase(c));
            filled = true;
            proof {
                assert(scan(pending, tail) == scan(current@, text@.skip(i + 1)));
            }
        } else if filled {
            out.push(current);
            current = String::new();
            filled = false;
            proof {
                let rest = scan(Seq::empty(), text@.skip(i + 1));
                assert(scan(pending, tail) == seq![pending] + rest);
                assert(out.deep_view() =~= before + seq![pending]);
                assert(before + (seq![pending] + rest) =~= (before + seq![pending]) + rest);
                assert(current@ =~= Seq::<char>::empty());
            }
        } else {
            proof {
                let rest = scan(Seq::empty(), text@.skip(i + 1));
                assert(pending =~= Seq::<char>::empty());
                assert(scan(pending, tail) == Seq::<Seq<char>>::empty() + rest);
                assert(Seq::<Seq<char>>::empty() + rest =~= rest);
            }
        }
    }
    proof {
        assert(text@.skip(text@.len() as int) =~= Seq::<char>::empty());
    }
    if filled {
        let ghost before = out.deep_view();
        let ghost term = current@;
        out.push(current);
        proof {
            assert(out.deep_view() =~= before + seq![term]);
        }
    } else {
        proof {
            assert(out.deep_view() + Seq::<Seq<char>>::empty() =~= out.deep_view());
        }
    }
    out
}

/// Upper-casing a text does not change what is read from it.
pub proof fn lemma_scan_ignores_case(pending: Seq<char>, s: Seq<char>)
    ensures
        scan(pending, uppercase(s)) == scan(pending, s),
    decreases s.len(),
{
    let u = uppercase(s);
    if s.len() > 0 {
        assert(u[0] == ascii_upper(s[0]));
        assert(is_ascii_alphanumeric(u[0]) == is_ascii_alphanumeric(s[0]));
        assert(ascii_lower(u[0]) == ascii_lower(s[0]));
        assert(u.drop_first() =~= uppercase(s.drop_first()));
        if is_ascii_alphanumeric(s[0]) {
            lemma_scan_ignores_case(pending.push(ascii_lower(s[0])), s.drop_first());
        } else {
            lemma_scan_ignores_case(Seq::empty(), s.drop_first());
        }
    }
}

/// A text and its upper-case form have the same terms.
pub proof fn lemma_tokens_ignore_case(s: Seq<char>)
    ensures
        tokens(uppercase(s)) == tokens(s),
{
    lemma_scan_ignores_case(Seq::empty(), s);
}

/// Lower-casing a text does not change what is read from it.
pub proof fn lemma_scan_of_lowercase(pending: Seq<char>, s: Seq<char>)
    ensures
        scan(pending, lowercase(s)) == scan(pending, s),
    decreases s.len(),
{
    let l = lowercase(s);
    if s.len() > 0 {
        assert(l[0] == ascii_lower(s[0]));
        assert(is_ascii_alphanumeric(l[0]) == is_ascii_alphanumeric(s[0]));
        assert(ascii_lower(l[0]) == ascii_lower(s[0]));
        assert(l.drop_first() =~= lowercase(s.drop_first()));
        if is_ascii_alphanumeric(s[0]) {
            lemma_scan_of_lowercase(pending.push(ascii_lower(s[0])), s.drop_first());
        } else {
            lemma_scan_of_lowercase(Seq::empty(), s.drop_first());
        }
    }
}

/// Two texts that differ in the case of ASCII letters alone have the same terms.
pub proof fn lemma_tokens_ignore_ascii_case(s1: Seq<char>, s2: Seq<char>)
    requires
        lowercase(s1) == lowercase(s2),
    ensures
        tokens(s1) == tokens(s2),
{
    lemma_scan_of_lowercase(Seq::empty(), s1);
    lemma_scan_of_lowercase(Seq::empty(), s2);
}

/// A text without letters and digits has no terms.
pub proof fn lemma_tokens_of_separators(s: Seq<char>)
    requires
        forall|i: int| 0 <= i < s.len() ==> !is_ascii_alphanumeric(#[trigger] s[i]),
    ensures
        tokens(s).len() == 0,
    decreases s.len(),
{
    if s.len() > 0 {
        lemma_tokens_of_separators(s.drop_first());
        assert(tokens(s) =~= tokens(s.drop_first()));
    }
}

/// An empty text, and one made of whitespace alone, has no terms.
pub proof fn lemma_tokens_of_blank(s: Seq<char>)
    requires
        forall|i: int| 0 <= i < s.len() ==> is_whitespace(#[trigger] s[i]),
    ensures
        tokens(s).len() == 0,
{
    lemma_tokens_of_separators(s);
}

} // verus!
