//! A chapter: its verses in order and its number within the book.

use crate::text::{decimal, push_decimal, push_str};
use crate::verse::{Verse, VerseView};
use vstd::prelude::*;

verus! {

/// The mathematical model of a [`Chapter`].
pub struct ChapterView {
    pub verses: Seq<VerseView>,
    pub number: nat,
}

impl ChapterView {
    /// Whether position `k` holds the first verse whose number is `number`.
    pub open spec fn is_first_numbered(self, k: int, number: nat) -> bool {
        &&& 0 <= k < self.verses.len()
        &&& self.verses[k].number == number
        &&& forall|j: int| 0 <= j < k ==> (#[trigger] self.verses[j]).number != number
    }

    /// The position of the first verse whose number is `number`, if any
    /// verse has that number. Verse numbers need not be dense.
    pub open spec fn position_of(self, number: nat) -> Option<int> {
        if exists|k: int| self.is_first_numbered(k, number) {
            Some(choose|k: int| self.is_first_numbered(k, number))
        } else {
            None
        }
    }

    /// The first verse whose number is `number`.
    pub open spec fn verse_numbered(self, number: nat) -> Option<VerseView> {
        match self.position_of(number) {
            Some(k) => Some(self.verses[k]),
            None => None,
        }
    }

    /// The display forms of the first `n` verses, each on a line of its own.
    pub open spec fn lines(self, n: nat) -> Seq<char>
        decreases n,
    {
        if n == 0 {
            Seq::empty()
        } else if n == 1 {
            self.verses[0].display()
        } else {
            self.lines((n - 1) as nat) + "\n"@ + self.verses[n - 1].display()
        }
    }

    /// The display form of a chapter: a heading, then the verses.
    pub open spec fn display(self) -> Seq<char> {
        "Chapter "@ + decimal(self.number) + ":\n"@ + self.lines(self.verses.len())
    }

    /// At most one position holds the first verse with a given number.
    pub proof fn lemma_first_numbered_unique(self, k1: int, k2: int, number: nat)
        requires
            self.is_first_numbered(k1, number),
            self.is_first_numbered(k2, number),
        ensures
            k1 == k2,
    {
        if k1 < k2 {
            assert(self.verses[k1].number != number);
        } else if k2 < k1 {
            assert(self.verses[k2].number != number);
        }
    }

    /// A verse found by number bears that number and stands in the chapter.
    pub proof fn lemma_position_of(self, number: nat)
        ensures
            match self.position_of(number) {
                Some(k) => self.is_first_numbered(k, number),
                None => forall|k: int|
                    0 <= k < self.verses.len() ==> (#[trigger] self.verses[k]).number != number,
            },
    {
        if self.position_of(number) is None {
            assert forall|k: int| 0 <= k < self.verses.len() implies (
            #[trigger] self.verses[k]).number != number by {
                if self.verses[k].number == number {
                    self.lemma_first_exists(k, number);
                }
            }
        }
    }

    /// Where some verse up to position `k` has the number, a first one exists.
    proof fn lemma_first_exists(self, k: int, number: nat)
        requires
            0 <= k < self.verses.len(),
            self.verses[k].number == number,
        ensures
            exists|f: int| self.is_first_numbered(f, number),
        decreases k,
    {
        if exists|j: int| 0 <= j < k && self.verses[j].number == number {
            let j = choose|j: int| 0 <= j < k && self.verses[j].number == number;
            self.lemma_first_exists(j, number);
        } else {
            assert(self.is_first_numbered(k, number));
        }
    }
}

/// A chapter of a book of the Bible.
#[derive(Debug)]
pub struct Chapter {
    verses: Vec<Verse>,
    chapter_number: usize,
}

impl View for Chapter {
    type V = ChapterView;

    closed spec fn view(&self) -> ChapterView {
        ChapterView { verses: self.verses.deep_view(), number: self.chapter_number as nat }
    }
}

impl DeepView for Chapter {
    type V = ChapterView;

    open spec fn deep_view(&self) -> ChapterView {
        self@
    }
}

impl Chapter {
    /// Creates a chapter with the given verses and number.
    pub fn new(verses: Vec<Verse>, chapter_number: usize) -> (r: Self)
        ensures
            r@ == (ChapterView { verses: verses.deep_view(), number: chapter_number as nat }),
    {
        Chapter { verses, chapter_number }
    }

    /// Returns the number of this chapter within its book.
    pub fn number(&self) -> (r: usize)
        ensures
            r == self@.number,
    {
        self.chapter_number
    }

    /// Returns all verses of this chapter, in order.
    pub fn get_verses(&self) -> (r: &[Verse])
        ensures
            r.deep_view() == self@.verses,
    {
        self.verses.as_slice()
    }

    /// Returns the first verse whose number is `verse_number`, if any verse
    /// of the chapter has that number.
    pub fn get_verse(&self, verse_number: usize) -> (r: Option<&Verse>)
        ensures
            r is Some <==> self@.verse_numbered(verse_number as nat) is Some,
            r matches Some(v) ==> Some(v@) == self@.verse_numbered(verse_number as nat),
            r matches Some(v) ==> v@.number == verse_number,
    {
        let mut i: usize = 0;
        while i < self.verses.len()
            invariant
                i <= self.verses.len(),
                forall|j: int| 0 <= j < i ==> (#[trigger] self@.verses[j]).number != verse_number,
            decreases self.verses.len() - i,
        {
            if self.verses[i].number() == verse_number {
                proof {
                    let k = i as int;
                    assert(self@.verses[k] == self.verses[k]@);
                    assert(self@.is_first_numbered(k, verse_number as nat));
                    self@.lemma_position_of(verse_number as nat);
                    self@.lemma_first_numbered_unique(
                        k,
                        self@.position_of(verse_number as nat)->0,
                        verse_number as nat,
                    );
                }
                return Some(&self.verses[i]);
            }
            proof {
                assert(self@.verses[i as int] == self.verses[i as int]@);
            }
            i += 1;
        }
        proof {
            self@.lemma_position_of(verse_number as nat);
        }
        None
    }

    /// Returns the display form: a heading and one line for each verse.
    pub fn to_string(&self) -> (r: String)
        ensures
            r@ == self@.display(),
    {
        let mut out = String::new();
        push_str(&mut out, "Chapter ");
        push_decimal(&mut out, self.chapter_number);
        push_str(&mut out, ":\n");
        let ghost head = out@;
        let mut i: usize = 0;
        while i < self.verses.len()
            invariant
                i <= self.verses.len(),
                out@ == head + self@.lines(i as nat),
            decreases self.verses.len() - i,
        {
            if i > 0 {
                push_str(&mut out, "\n");
            }
            let line = self.verses[i].to_string();
            push_str(&mut out, line.as_str());
            proof {
                assert(self@.verses[i as int] == self.verses[i as int]@);
                assert(out@ =~= head + self@.lines((i + 1) as nat));
            }
            i += 1;
        }
        proof {
            assert(out@ =~= self@.display());
        }
        out
    }
}

impl Clone for Chapter {
    fn clone(&self) -> (r: Self)
        ensures
            r@ == self@,
    {
        let mut verses: Vec<Verse> = Vec::new();
        let mut i: usize = 0;
        while i < self.verses.len()
            invariant
                i <= self.verses.len(),
                verses.len() == i,
                verses.deep_view() == self.verses.deep_view().take(i as int),
            decreases self.verses.len() - i,
        {
            let ghost before = verses;
            verses.push(self.verses[i].clone());
            proof {
                assert forall|j: int| 0 <= j <= i implies verses.deep_view()[j]
                    == self.verses.deep_view()[j] by {
                    if j < i {
                        assert(verses[j] == before[j]);
                        assert(before.deep_view()[j] == self.verses.deep_view().take(i as int)[j]);
                    }
                }
                assert(verses.deep_view() =~= self.verses.deep_view().take(i + 1));
            }
            i += 1;
        }
        proof {
            assert(verses.deep_view() =~= self.verses.deep_view());
        }
        Chapter { verses, chapter_number: self.chapter_number }
    }
}

} // verus!
