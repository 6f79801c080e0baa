//! The grammar of a verse reference: `<book> <chapter>:<verse>`, where the
//! book may hold spaces ("Song of Solomon 2:1") and whitespace may stand
//! around every part.

use crate::text::{
    chars_of, last_index_of, lemma_last_index_of, parse_number, parse_usize, rfind, string_from,
    subvec, trim, trimmed,
};
use vstd::prelude::*;

verus! {

/// The parts of `s` before and after the last `c` in it.
pub open spec fn split_last(s: Seq<char>, c: char) -> Option<(Seq<char>, Seq<char>)> {
    match last_index_of(s, c) {
        Some(i) => Some((s.take(i), s.skip(i + 1))),
        None => None,
    }
}

/// What a reference string says. The verse number is what follows the last
/// colon, the chapter number what stands between the last space before that
/// colon and the colon, and the book all that comes before that space, as
/// it is written. Where the string does not have this shape, the result is
/// the part that was not understood: the whole string without the
/// whitespace around it where the colon or the verse number fails, else
/// what stands before the colon.
pub open spec fn parse_reference(s: Seq<char>) -> Result<(Seq<char>, usize, usize), Seq<char>> {
    let whole = trim(s);
    match split_last(whole, ':') {
        None => Err(whole),
        Some((head, verse_part)) => match parse_number(trim(verse_part)) {
            None => Err(whole),
            Some(verse) => match split_last(head, ' ') {
                None => Err(head),
                Some((book, chapter_part)) => match parse_number(trim(chapter_part)) {
                    None => Err(head),
                    Some(chapter) => Ok((book, chapter, verse)),
                },
            },
        },
    }
}

/// Splits at the last `c`.
pub fn split_at_last(v: &Vec<char>, c: char) -> (r: Option<(Vec<char>, Vec<char>)>)
    ensures
        match r {
            Some(parts) => split_last(v@, c) == Some((parts.0@, parts.1@)),
            None => split_last(v@, c) is None,
        },
{
    match rfind(v, c) {
        Some(i) => {
            let head = subvec(v, 0, i);
            let tail = subvec(v, i + 1, v.len());
            proof {
                assert(head@ =~= v@.take(i as int));
                assert(tail@ =~= v@.skip(i + 1));
            }
            Some((head, tail))
        },
        None => None,
    }
}

/// Reads a reference string. The result holds the book as it is written,
/// the chapter number and the verse number, or else the part of the string
/// that was not understood.
pub fn read_reference(reference: &str) -> (r: Result<(String, usize, usize), String>)
    ensures
        match r {
            Ok(parts) => parse_reference(reference@) == Ok::<
                (Seq<char>, usize, usize),
                Seq<char>,
            >((parts.0@, parts.1, parts.2)),
            Err(part) => parse_reference(reference@) == Err::<
                (Seq<char>, usize, usize),
                Seq<char>,
            >(part@),
        },
{
    let chars = chars_of(reference);
    let whole = trimmed(&chars);
    let (head, verse_part) = match split_at_last(&whole, ':') {
        Some(parts) => parts,
        None => {
            return Err(string_from(&whole));
        },
    };
    let verse = match parse_usize(&trimmed(&verse_part)) {
        Some(n) => n,
        None => {
            return Err(string_from(&whole));
        },
    };
    let (book, chapter_part) = match split_at_last(&head, ' ') {
        Some(parts) => parts,
        None => {
            return Err(string_from(&head));
        },
    };
    let chapter = match parse_usize(&trimmed(&chapter_part)) {
        Some(n) => n,
        None => {
            return Err(string_from(&head));
        },
    };
    Ok((string_from(&book), chapter, verse))
}

/// A string without a colon is no reference.
pub proof fn lemma_reference_needs_colon(s: Seq<char>)
    requires
        forall|i: int| 0 <= i < trim(s).len() ==> trim(s)[i] != ':',
    ensures
        parse_reference(s) is Err,
{
    lemma_last_index_of(trim(s), ':');
}

} // verus!
