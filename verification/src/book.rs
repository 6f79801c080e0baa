//! A book: its abbreviation as it came with the text, its title and its
//! chapters in order.

use crate::chapter::{Chapter, ChapterView};
use crate::error::{BibleError, BibleErrorView};
use crate::text::{lowercase, push_str, to_ascii_lowercase};
use crate::verse::{Verse, VerseView};
use vstd::prelude::*;

verus! {

/// The mathematical model of a [`Book`].
pub struct BookView {
    pub abbrev: Seq<char>,
    pub title: Seq<char>,
    pub chapters: Seq<ChapterView>,
}

impl BookView {
    /// The failure of asking this book for chapter `chapter`.
    pub open spec fn chapter_out_of_bounds(self, chapter: nat) -> BibleErrorView {
        BibleErrorView::ChapterOutOfBounds {
            book_abbrev: self.abbrev,
            book_name: self.title,
            chapter,
            max_chapter: self.chapters.len(),
        }
    }

    /// Chapter `chapter`, counted from 1 by position in the book.
    pub open spec fn chapter_at(self, chapter: nat) -> Result<ChapterView, BibleErrorView> {
        if 1 <= chapter <= self.chapters.len() {
            Ok(self.chapters[chapter - 1])
        } else {
            Err(self.chapter_out_of_bounds(chapter))
        }
    }

    /// The verses of chapter `chapter`.
    pub open spec fn verses_at(self, chapter: nat) -> Result<Seq<VerseView>, BibleErrorView> {
        match self.chapter_at(chapter) {
            Ok(c) => Ok(c.verses),
            Err(e) => Err(e),
        }
    }

    /// The first verse numbered `verse` in chapter `chapter`.
    pub open spec fn verse_at(self, chapter: nat, verse: nat) -> Result<VerseView, BibleErrorView> {
        match self.chapter_at(chapter) {
            Ok(c) => match c.verse_numbered(verse) {
                Some(v) => Ok(v),
                None => Err(
                    BibleErrorView::VerseOutOfBounds {
                        book_abbrev: self.abbrev,
                        book_name: self.title,
                        chapter,
                        verse,
                        max_verse: c.verses.len(),
                    },
                ),
            },
            Err(e) => Err(e),
        }
    }

    /// No book has a chapter 0, nor a chapter after its last: asking for
    /// either fails with `ChapterOutOfBounds`, which names the last chapter.
    pub proof fn lemma_chapter_bounds(self)
        ensures
            self.chapter_at(0) == Err::<ChapterView, BibleErrorView>(self.chapter_out_of_bounds(0)),
            self.chapter_at(self.chapters.len() + 1) == Err::<ChapterView, BibleErrorView>(
                self.chapter_out_of_bounds(self.chapters.len() + 1),
            ),
            self.chapter_out_of_bounds(0) is ChapterOutOfBounds,
            self.chapter_out_of_bounds(self.chapters.len() + 1) is ChapterOutOfBounds,
    {
    }

    /// The display form of a book: its title, then its abbreviation in brackets.
    pub open spec fn display(self) -> Seq<char> {
        "Book: "@ + self.title + " ("@ + self.abbrev + ")"@
    }
}

/// A book of the Bible.
#[derive(Debug)]
pub struct Book {
    abbrev: String,
    title: String,
    chapters: Vec<Chapter>,
}

impl View for Book {
    type V = BookView;

    closed spec fn view(&self) -> BookView {
        BookView {
            abbrev: self.abbrev@,
            title: self.title@,
            chapters: self.chapters.deep_view(),
        }
    }
}

impl DeepView for Book {
    type V = BookView;

    open spec fn deep_view(&self) -> BookView {
        self@
    }
}

impl Book {
    /// Creates a book with the given abbreviation, title and chapters. The
    /// abbreviation is kept in ASCII lower case.
    pub fn new(abbrev: String, title: String, chapters: Vec<Chapter>) -> (r: Self)
        ensures
            r@ == (BookView {
                abbrev: lowercase(abbrev@),
                title: title@,
                chapters: chapters.deep_view(),
            }),
    {
        Book { abbrev: to_ascii_lowercase(abbrev.as_str()), title, chapters }
    }

    /// Returns the abbreviation of the book.
    pub fn abbrev(&self) -> (r: &str)
        ensures
            r@ == self@.abbrev,
    {
        self.abbrev.as_str()
    }

    /// Returns the full title of the book.
    pub fn title(&self) -> (r: &str)
        ensures
            r@ == self@.title,
    {
        self.title.as_str()
    }

    /// Returns all chapters of the book, in order.
    pub fn chapters(&self) -> (r: &[Chapter])
        ensures
            r.deep_view() == self@.chapters,
    {
        self.chapters.as_slice()
    }

    /// Returns the chapter at position `chapter_number`, counted from 1,
    /// or `ChapterOutOfBounds` where the book has no such chapter.
    pub fn get_chapter(&self, chapter_number: usize) -> (r: Result<&Chapter, BibleError>)
        ensures
            r is Ok <==> 1 <= chapter_number <= self@.chapters.len(),
            match r {
                Ok(c) => self@.chapter_at(chapter_number as nat) == Ok::<
                    ChapterView,
                    BibleErrorView,
                >(c@),
                Err(e) => self@.chapter_at(chapter_number as nat) == Err::<
                    ChapterView,
                    BibleErrorView,
                >(e@),
            },
    {
        if chapter_number == 0 || chapter_number > self.chapters.len() {
            return Err(
                BibleError::ChapterOutOfBounds {
                    book_abbrev: self.abbrev.clone(),
                    book_name: self.title.clone(),
                    chapter: chapter_number,
                    max_chapter: self.chapters.len(),
                },
            );
        }
        Ok(&self.chapters[chapter_number - 1])
    }

    /// Returns the verses of the chapter at position `chapter_number`.
    pub fn get_verses(&self, chapter_number: usize) -> (r: Result<&[Verse], BibleError>)
        ensures
            r is Ok <==> 1 <= chapter_number <= self@.chapters.len(),
            match r {
                Ok(vs) => self@.verses_at(chapter_number as nat) == Ok::<
                    Seq<VerseView>,
                    BibleErrorView,
                >(vs.deep_view()),
                Err(e) => self@.verses_at(chapter_number as nat) == Err::<
                    Seq<VerseView>,
                    BibleErrorView,
                >(e@),
            },
    {
        match self.get_chapter(chapter_number) {
            Ok(c) => Ok(c.get_verses()),
            Err(e) => Err(e),
        }
    }

    /// Returns the first verse numbered `verse_number` in the chapter at
    /// position `chapter_number`: `ChapterOutOfBounds` where there is no such
    /// chapter, else `VerseOutOfBounds` where no verse of it has that number.
    pub fn get_verse(&self, chapter_number: usize, verse_number: usize) -> (r: Result<
        &Verse,
        BibleError,
    >)
        ensures
            r is Ok <==> self@.verse_at(chapter_number as nat, verse_number as nat) is Ok,
            match r {
                Ok(v) => self@.verse_at(chapter_number as nat, verse_number as nat) == Ok::<
                    VerseView,
                    BibleErrorView,
                >(v@),
                Err(e) => self@.verse_at(chapter_number as nat, verse_number as nat) == Err::<
                    VerseView,
                    BibleErrorView,
                >(e@),
            },
    {
        let chapter = match self.get_chapter(chapter_number) {
            Ok(c) => c,
            Err(e) => {
                return Err(e);
            },
        };
        match chapter.get_verse(verse_number) {
            Some(v) => Ok(v),
            None => Err(
                BibleError::VerseOutOfBounds {
                    book_abbrev: self.abbrev.clone(),
                    book_name: self.title.clone(),
                    chapter: chapter_number,
                    verse: verse_number,
                    max_verse: chapter.get_verses().len(),
                },
            ),
        }
    }

    /// Returns the display form, such as `Book: Genesis (gn)`.
    pub fn to_string(&self) -> (r: String)
        ensures
            r@ == self@.display(),
    {
        let mut out = String::new();
        push_str(&mut out, "Book: ");
        push_str(&mut out, self.title.as_str());
        push_str(&mut out, " (");
        push_str(&mut out, self.abbrev.as_str());
        push_str(&mut out, ")");
        proof {
            assert(out@ =~= self@.display());
        }
        out
    }
}

impl Clone for Book {
    fn clone(&self) -> (r: Self)
        ensures
            r@ == self@,
    {
        let mut chapters: Vec<Chapter> = Vec::new();
        let mut i: usize = 0;
        while i < self.chapters.len()
            invariant
                i <= self.chapters.len(),
                chapters.len() == i,
                chapters.deep_view() == self.chapters.deep_view().take(i as int),
            decreases self.chapters.len() - i,
        {
            let ghost before = chapters;
            chapters.push(self.chapters[i].clone());
            proof {
                assert forall|j: int| 0 <= j <= i implies chapters.deep_view()[j]
                    == self.chapters.deep_view()[j] by {
                    if j < i {
                        assert(chapters[j] == before[j]);
                        assert(before.deep_view()[j] == self.chapters.deep_view().take(
                            i as int,
                        )[j]);
                    }
                }
                assert(chapters.deep_view() =~= self.chapters.deep_view().take(i + 1));
            }
            i += 1;
        }
        proof {
            assert(chapters.deep_view() =~= self.chapters.deep_view());
        }
        Book { abbrev: self.abbrev.clone(), title: self.title.clone(), chapters }
    }
}

} // verus!
