//! A single verse: its text and its number within the chapter.

use crate::text::{decimal, push_decimal, push_str};
use vstd::prelude::*;

verus! {

/// The mathematical model of a [`Verse`].
pub struct VerseView {
    pub text: Seq<char>,
    pub number: nat,
}

impl VerseView {
    /// The display form of a verse: its number, a colon, a space, its text.
    pub open spec fn display(self) -> Seq<char> {
        decimal(self.number) + ": "@ + self.text
    }
}

/// A single verse of the Bible. Once made it does not change.
#[derive(Debug, PartialEq, Eq)]
pub struct Verse {
    verse_text: String,
    verse_number: usize,
}

impl View for Verse {
    type V = VerseView;

    closed spec fn view(&self) -> VerseView {
        VerseView { text: self.verse_text@, number: self.verse_number as nat }
    }
}

impl DeepView for Verse {
    type V = VerseView;

    open spec fn deep_view(&self) -> VerseView {
        self@
    }
}

/// Curly braces mark editorial insertions in some source texts.
pub open spec fn is_brace(c: char) -> bool {
    c == '{' || c == '}'
}

/// A text with every curly brace taken out and all else kept in order.
pub open spec fn without_braces(s: Seq<char>) -> Seq<char> {
    s.filter(|c: char| !is_brace(c))
}

/// Takes the curly braces out of a verse text.
pub fn sanitize_verse_text(verse_text: String) -> (r: String)
    ensures
        r@ == without_braces(verse_text@),
{
    let text = verse_text.as_str();
    let mut out = String::new();
    for c in it: text.chars()
        invariant
            it.seq() == text@,
            out@ == without_braces(text@.take(it.index())),
    {
        proof {
            let i = it.index();
            reveal(Seq::filter);
            assert(text@.take(i + 1).drop_last() =~= text@.take(i));
        }
        if c != '{' && c != '}' {
            out.push(c);
        }
    }
    proof {
        assert(text@.take(text@.len() as int) =~= text@);
    }
    out
}

impl Verse {
    /// Creates a verse with the given text and number. Curly braces in the
    /// text are dropped.
    pub fn new(verse_text: String, verse_number: usize) -> (r: Self)
        ensures
            r@ == (VerseView { text: without_braces(verse_text@), number: verse_number as nat }),
    {
        Verse { verse_text: sanitize_verse_text(verse_text), verse_number }
    }

    /// Returns the text of the verse.
    pub fn text(&self) -> (r: &str)
        ensures
            r@ == self@.text,
    {
        self.verse_text.as_str()
    }

    /// Returns the number of the verse within its chapter.
    pub fn number(&self) -> (r: usize)
        ensures
            r == self@.number,
    {
        self.verse_number
    }

    /// Returns the display form, such as `3: And God said, Let there be light`.
    pub fn to_string(&self) -> (r: String)
        ensures
            r@ == self@.display(),
    {
        let mut out = String::new();
        push_decimal(&mut out, self.verse_number);
        push_str(&mut out, ": ");
        push_str(&mut out, self.verse_text.as_str());
        proof {
            assert(out@ =~= self@.display());
        }
        out
    }
}

impl Clone for Verse {
    fn clone(&self) -> (r: Self)
        ensures
            r@ == self@,
    {
        Verse { verse_text: self.verse_text.clone(), verse_number: self.verse_number }
    }
}

} // verus!
