//! The failures of a lookup, each with what a message to the user needs.

use crate::text::{decimal, push_decimal, push_str};
use vstd::prelude::*;

verus! {

/// The mathematical model of a [`BibleError`].
pub enum BibleErrorView {
    BookNotFound { book_abbrev: Seq<char>, book_name: Seq<char>, translation: Seq<char> },
    ChapterOutOfBounds {
        book_abbrev: Seq<char>,
        book_name: Seq<char>,
        chapter: nat,
        max_chapter: nat,
    },
    VerseOutOfBounds {
        book_abbrev: Seq<char>,
        book_name: Seq<char>,
        chapter: nat,
        verse: nat,
        max_verse: nat,
    },
    ReferenceParseError { reference: Seq<char> },
}

impl BibleErrorView {
    /// The message that describes the failure to a user.
    pub open spec fn message(self) -> Seq<char> {
        match self {
            BibleErrorView::BookNotFound { book_abbrev, book_name, translation } => "Book "@
                + book_name + " ('"@ + book_abbrev + "') not found in the '"@ + translation
                + "' Bible translation"@,
            BibleErrorView::ChapterOutOfBounds { book_abbrev, book_name, chapter, max_chapter } =>
                "Chapter "@ + decimal(chapter) + " is out of bounds for book "@ + book_name
                    + " ('"@ + book_abbrev + "') (max "@ + decimal(max_chapter) + ")"@,
            BibleErrorView::VerseOutOfBounds {
                book_abbrev,
                book_name,
                chapter,
                verse,
                max_verse,
            } => "Verse "@ + decimal(verse) + " is out of bounds for book "@ + book_name + " ('"@
                + book_abbrev + "') chapter "@ + decimal(chapter) + " (max "@ + decimal(max_verse)
                + ")"@,
            BibleErrorView::ReferenceParseError { reference } => "Cannot parse '"@ + reference
                + "' as a verse reference"@,
        }
    }
}

/// Errors that can occur when accessing Bible content.
#[derive(Debug, PartialEq, Eq)]
pub enum BibleError {
    /// The requested book is not present in this translation.
    BookNotFound { book_abbrev: String, book_name: String, translation: String },
    /// The requested chapter number does not exist in the book.
    ChapterOutOfBounds {
        book_abbrev: String,
        book_name: String,
        chapter: usize,
        max_chapter: usize,
    },
    /// The requested verse number does not exist in the chapter.
    VerseOutOfBounds {
        book_abbrev: String,
        book_name: String,
        chapter: usize,
        verse: usize,
        max_verse: usize,
    },
    /// A reference string does not have the shape `<book> <chapter>:<verse>`,
    /// or names no known book; `reference` is the part that was not understood.
    ReferenceParseError { reference: String },
}

impl View for BibleError {
    type V = BibleErrorView;

    open spec fn view(&self) -> BibleErrorView {
        match *self {
            BibleError::BookNotFound { book_abbrev, book_name, translation } => {
                BibleErrorView::BookNotFound {
                    book_abbrev: book_abbrev@,
                    book_name: book_name@,
                    translation: translation@,
                }
            },
            BibleError::ChapterOutOfBounds { book_abbrev, book_name, chapter, max_chapter } => {
                BibleErrorView::ChapterOutOfBounds {
                    book_abbrev: book_abbrev@,
                    book_name: book_name@,
                    chapter: chapter as nat,
                    max_chapter: max_chapter as nat,
                }
            },
            BibleError::VerseOutOfBounds { book_abbrev, book_name, chapter, verse, max_verse } => {
                BibleErrorView::VerseOutOfBounds {
                    book_abbrev: book_abbrev@,
                    book_name: book_name@,
                    chapter: chapter as nat,
                    verse: verse as nat,
                    max_verse: max_verse as nat,
                }
            },
            BibleError::ReferenceParseError { reference } => {
                BibleErrorView::ReferenceParseError { reference: reference@ }
            },
        }
    }
}

impl BibleError {
    /// Returns the message that describes the failure to a user.
    pub fn to_string(&self) -> (r: String)
        ensures
            r@ == self@.message(),
    {
        let mut out = String::new();
        match self {
            BibleError::BookNotFound { book_abbrev, book_name, translation } => {
                push_str(&mut out, "Book ");
                push_str(&mut out, book_name.as_str());
                push_str(&mut out, " ('");
                push_str(&mut out, book_abbrev.as_str());
                push_str(&mut out, "') not found in the '");
                push_str(&mut out, translation.as_str());
                push_str(&mut out, "' Bible translation");
            },
            BibleError::ChapterOutOfBounds { book_abbrev, book_name, chapter, max_chapter } => {
                push_str(&mut out, "Chapter ");
                push_decimal(&mut out, *chapter);
                push_str(&mut out, " is out of bounds for book ");
                push_str(&mut out, book_name.as_str());
                push_str(&mut out, " ('");
                push_str(&mut out, book_abbrev.as_str());
                push_str(&mut out, "') (max ");
                push_decimal(&mut out, *max_chapter);
                push_str(&mut out, ")");
            },
            BibleError::VerseOutOfBounds { book_abbrev, book_name, chapter, verse, max_verse } => {
                push_str(&mut out, "Verse ");
                push_decimal(&mut out, *verse);
                push_str(&mut out, " is out of bounds for book ");
                push_str(&mut out, book_name.as_str());
                push_str(&mut out, " ('");
                push_str(&mut out, book_abbrev.as_str());
                push_str(&mut out, "') chapter ");
                push_decimal(&mut out, *chapter);
                push_str(&mut out, " (max ");
                push_decimal(&mut out, *max_verse);
                push_str(&mut out, ")");
            },
            BibleError::ReferenceParseError { reference } => {
                push_str(&mut out, "Cannot parse '");
                push_str(&mut out, reference.as_str());
                push_str(&mut out, "' as a verse reference");
            },
        }
        proof {
            assert(out@ =~= self@.message());
        }
        out
    }
}

impl Clone for BibleError {
    fn clone(&self) -> (r: Self)
        ensures
            r@ == self@,
    {
        match self {
            BibleError::BookNotFound { book_abbrev, book_name, translation } => {
                BibleError::BookNotFound {
                    book_abbrev: book_abbrev.clone(),
                    book_name: book_name.clone(),
                    translation: translation.clone(),
                }
            },
            BibleError::ChapterOutOfBounds { book_abbrev, book_name, chapter, max_chapter } => {
                BibleError::ChapterOutOfBounds {
                    book_abbrev: book_abbrev.clone(),
                    book_name: book_name.clone(),
                    chapter: *chapter,
                    max_chapter: *max_chapter,
                }
            },
            BibleError::VerseOutOfBounds { book_abbrev, book_name, chapter, verse, max_verse } => {
                BibleError::VerseOutOfBounds {
                    book_abbrev: book_abbrev.clone(),
                    book_name: book_name.clone(),
                    chapter: *chapter,
                    verse: *verse,
                    max_verse: *max_verse,
                }
            },
            BibleError::ReferenceParseError { reference } => {
                BibleError::ReferenceParseError { reference: reference.clone() }
            },
        }
    }
}

} // verus!
