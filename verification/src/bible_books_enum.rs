//! The closed set of book identities across the Protestant, Catholic and
//! Eastern Orthodox canons, with the canonical short code and the display
//! name of each.

use crate::text::{
    lemma_lowercase_idempotent, lemma_lowercase_of_uppercase, lowercase, to_ascii_lowercase,
    uppercase,
};
use std::str::FromStr;
use vstd::prelude::*;

verus! {

/// A book of the Bible. The variants stand in canonical reading order.
#[derive(Debug, Clone, Copy, PartialEq, Eq, Hash, Structural)]
pub enum BibleBook {
    // --- Protestant canon ---
    Genesis,
    Exodus,
    Leviticus,
    Numbers,
    Deuteronomy,
    Joshua,
    Judges,
    Ruth,
    FirstSamuel,
    SecondSamuel,
    FirstKings,
    SecondKings,
    FirstChronicles,
    SecondChronicles,
    Ezra,
    Nehemiah,
    Esther,
    Job,
    Psalms,
    Proverbs,
    Ecclesiastes,
    SongOfSolomon,
    Isaiah,
    Jeremiah,
    Lamentations,
    Ezekiel,
    Daniel,
    Hosea,
    Joel,
    Amos,
    Obadiah,
    Jonah,
    Micah,
    Nahum,
    Habakkuk,
    Zephaniah,
    Haggai,
    Zechariah,
    Malachi,
    Matthew,
    Mark,
    Luke,
    John,
    Acts,
    Romans,
    FirstCorinthians,
    SecondCorinthians,
    Galatians,
    Ephesians,
    Philippians,
    Colossians,
    FirstThessalonians,
    SecondThessalonians,
    FirstTimothy,
    SecondTimothy,
    Titus,
    Philemon,
    Hebrews,
    James,
    FirstPeter,
    SecondPeter,
    FirstJohn,
    SecondJohn,
    ThirdJohn,
    Jude,
    Revelation,
    // --- Catholic deuterocanon ---
    Tobit,
    Judith,
    Wisdom,
    Sirach,
    Baruch,
    FirstMaccabees,
    SecondMaccabees,
    EstherAdditions,
    DanielSongOfThree,
    DanielSusanna,
    DanielBelAndTheDragon,
    // --- Eastern Orthodox additions ---
    FirstEsdras,
    SecondEsdras,
    PrayerOfManasseh,
    Psalm151,
    ThirdMaccabees,
    FourthMaccabees,
}

/// The error of parsing a string that is no canonical short code.
#[derive(Debug, Clone, PartialEq, Eq)]
pub struct ParseBibleBookError;

/// How many books there are.
pub const BOOK_COUNT: usize = 83;

impl BibleBook {
    /// The canonical short code, in lower case.
    pub open spec fn code(self) -> Seq<char> {
        match self {
            BibleBook::Genesis => "gn"@,
            BibleBook::Exodus => "ex"@,
            BibleBook::Leviticus => "lv"@,
            BibleBook::Numbers => "nm"@,
            BibleBook::Deuteronomy => "dt"@,
            BibleBook::Joshua => "js"@,
            BibleBook::Judges => "jud"@,
            BibleBook::Ruth => "rt"@,
            BibleBook::FirstSamuel => "1sm"@,
            BibleBook::SecondSamuel => "2sm"@,
            BibleBook::FirstKings => "1kgs"@,
            BibleBook::SecondKings => "2kgs"@,
            BibleBook::FirstChronicles => "1ch"@,
            BibleBook::SecondChronicles => "2ch"@,
            BibleBook::Ezra => "ezr"@,
            BibleBook::Nehemiah => "ne"@,
            BibleBook::Esther => "et"@,
            BibleBook::Job => "job"@,
            BibleBook::Psalms => "ps"@,
            BibleBook::Proverbs => "prv"@,
            BibleBook::Ecclesiastes => "ec"@,
            BibleBook::SongOfSolomon => "so"@,
            BibleBook::Isaiah => "is"@,
            BibleBook::Jeremiah => "jr"@,
            BibleBook::Lamentations => "lm"@,
            BibleBook::Ezekiel => "ez"@,
            BibleBook::Daniel => "dn"@,
            BibleBook::Hosea => "ho"@,
            BibleBook::Joel => "jl"@,
            BibleBook::Amos => "am"@,
            BibleBook::Obadiah => "ob"@,
            BibleBook::Jonah => "jn"@,
            BibleBook::Micah => "mi"@,
            BibleBook::Nahum => "na"@,
            BibleBook::Habakkuk => "hk"@,
            BibleBook::Zephaniah => "zp"@,
            BibleBook::Haggai => "hg"@,
            BibleBook::Zechariah => "zc"@,
            BibleBook::Malachi => "ml"@,
            BibleBook::Matthew => "mt"@,
            BibleBook::Mark => "mk"@,
            BibleBook::Luke => "lk"@,
            BibleBook::John => "jo"@,
            BibleBook::Acts => "act"@,
            BibleBook::Romans => "rm"@,
            BibleBook::FirstCorinthians => "1co"@,
            BibleBook::SecondCorinthians => "2co"@,
            BibleBook::Galatians => "gl"@,
            BibleBook::Ephesians => "eph"@,
            BibleBook::Philippians => "ph"@,
            BibleBook::Colossians => "cl"@,
            BibleBook::FirstThessalonians => "1ts"@,
            BibleBook::SecondThessalonians => "2ts"@,
            BibleBook::FirstTimothy => "1tm"@,
            BibleBook::SecondTimothy => "2tm"@,
            BibleBook::Titus => "tt"@,
            BibleBook::Philemon => "phm"@,
            BibleBook::Hebrews => "hb"@,
            BibleBook::James => "jm"@,
            BibleBook::FirstPeter => "1pe"@,
            BibleBook::SecondPeter => "2pe"@,
            BibleBook::FirstJohn => "1jo"@,
            BibleBook::SecondJohn => "2jo"@,
            BibleBook::ThirdJohn => "3jo"@,
            BibleBook::Jude => "jd"@,
            BibleBook::Revelation => "re"@,
            BibleBook::Tobit => "tb"@,
            BibleBook::Judith => "jdt"@,
            BibleBook::Wisdom => "ws"@,
            BibleBook::Sirach => "sir"@,
            BibleBook::Baruch => "bar"@,
            BibleBook::FirstMaccabees => "1mc"@,
            BibleBook::SecondMaccabees => "2mc"@,
            BibleBook::EstherAdditions => "etg"@,
            BibleBook::DanielSongOfThree => "dn3"@,
            BibleBook::DanielSusanna => "dns"@,
            BibleBook::DanielBelAndTheDragon => "dnb"@,
            BibleBook::FirstEsdras => "1es"@,
            BibleBook::SecondEsdras => "2es"@,
            BibleBook::PrayerOfManasseh => "pmn"@,
            BibleBook::Psalm151 => "ps151"@,
            BibleBook::ThirdMaccabees => "3mc"@,
            BibleBook::FourthMaccabees => "4mc"@,
        }
    }

    /// The display name.
    pub open spec fn display_name(self) -> Seq<char> {
        match self {
            BibleBook::Genesis => "Genesis"@,
            BibleBook::Exodus => "Exodus"@,
            BibleBook::Leviticus => "Leviticus"@,
            BibleBook::Numbers => "Numbers"@,
            BibleBook::Deuteronomy => "Deuteronomy"@,
            BibleBook::Joshua => "Joshua"@,
            BibleBook::Judges => "Judges"@,
            BibleBook::Ruth => "Ruth"@,
            BibleBook::FirstSamuel => "1 Samuel"@,
            BibleBook::SecondSamuel => "2 Samuel"@,
            BibleBook::FirstKings => "1 Kings"@,
            BibleBook::SecondKings => "2 Kings"@,
            BibleBook::FirstChronicles => "1 Chronicles"@,
            BibleBook::SecondChronicles => "2 Chronicles"@,
            BibleBook::Ezra => "Ezra"@,
            BibleBook::Nehemiah => "Nehemiah"@,
            BibleBook::Esther => "Esther"@,
            BibleBook::Job => "Job"@,
            BibleBook::Psalms => "Psalms"@,
            BibleBook::Proverbs => "Proverbs"@,
            BibleBook::Ecclesiastes => "Ecclesiastes"@,
            BibleBook::SongOfSolomon => "Song of Solomon"@,
            BibleBook::Isaiah => "Isaiah"@,
            BibleBook::Jeremiah => "Jeremiah"@,
            BibleBook::Lamentations => "Lamentations"@,
            BibleBook::Ezekiel => "Ezekiel"@,
            BibleBook::Daniel => "Daniel"@,
            BibleBook::Hosea => "Hosea"@,
            BibleBook::Joel => "Joel"@,
            BibleBook::Amos => "Amos"@,
            BibleBook::Obadiah => "Obadiah"@,
            BibleBook::Jonah => "Jonah"@,
            BibleBook::Micah => "Micah"@,
            BibleBook::Nahum => "Nahum"@,
            BibleBook::Habakkuk => "Habakkuk"@,
            BibleBook::Zephaniah => "Zephaniah"@,
            BibleBook::Haggai => "Haggai"@,
            BibleBook::Zechariah => "Zechariah"@,
            BibleBook::Malachi => "Malachi"@,
            BibleBook::Matthew => "Matthew"@,
            BibleBook::Mark => "Mark"@,
            BibleBook::Luke => "Luke"@,
            BibleBook::John => "John"@,
            BibleBook::Acts => "Acts"@,
            BibleBook::Romans => "Romans"@,
            BibleBook::FirstCorinthians => "1 Corinthians"@,
            BibleBook::SecondCorinthians => "2 Corinthians"@,
            BibleBook::Galatians => "Galatians"@,
            BibleBook::Ephesians => "Ephesians"@,
            BibleBook::Philippians => "Philippians"@,
            BibleBook::Colossians => "Colossians"@,
            BibleBook::FirstThessalonians => "1 Thessalonians"@,
            BibleBook::SecondThessalonians => "2 Thessalonians"@,
            BibleBook::FirstTimothy => "1 Timothy"@,
            BibleBook::SecondTimothy => "2 Timothy"@,
            BibleBook::Titus => "Titus"@,
            BibleBook::Philemon => "Philemon"@,
            BibleBook::Hebrews => "Hebrews"@,
            BibleBook::James => "James"@,
            BibleBook::FirstPeter => "1 Peter"@,
            BibleBook::SecondPeter => "2 Peter"@,
            BibleBook::FirstJohn => "1 John"@,
            BibleBook::SecondJohn => "2 John"@,
            BibleBook::ThirdJohn => "3 John"@,
            BibleBook::Jude => "Jude"@,
            BibleBook::Revelation => "Revelation"@,
            BibleBook::Tobit => "Tobit"@,
            BibleBook::Judith => "Judith"@,
            BibleBook::Wisdom => "Wisdom"@,
            BibleBook::Sirach => "Sirach"@,
            BibleBook::Baruch => "Baruch"@,
            BibleBook::FirstMaccabees => "1 Maccabees"@,
            BibleBook::SecondMaccabees => "2 Maccabees"@,
            BibleBook::EstherAdditions => "Esther (Greek)"@,
            BibleBook::DanielSongOfThree => "Daniel (Song of Three)"@,
            BibleBook::DanielSusanna => "Daniel (Susanna)"@,
            BibleBook::DanielBelAndTheDragon => "Daniel (Bel and the Dragon)"@,
            BibleBook::FirstEsdras => "1 Esdras"@,
            BibleBook::SecondEsdras => "2 Esdras"@,
            BibleBook::PrayerOfManasseh => "Prayer of Manasseh"@,
            BibleBook::Psalm151 => "Psalm 151"@,
            BibleBook::ThirdMaccabees => "3 Maccabees"@,
            BibleBook::FourthMaccabees => "4 Maccabees"@,
        }
    }

    /// The position in canonical order, from 0.
    pub open spec fn ordinal(self) -> nat {
        match self {
            BibleBook::Genesis => 0,
            BibleBook::Exodus => 1,
            BibleBook::Leviticus => 2,
            BibleBook::Numbers => 3,
            BibleBook::Deuteronomy => 4,
            BibleBook::Joshua => 5,
            BibleBook::Judges => 6,
            BibleBook::Ruth => 7,
            BibleBook::FirstSamuel => 8,
            BibleBook::SecondSamuel => 9,
            BibleBook::FirstKings => 10,
            BibleBook::SecondKings => 11,
            BibleBook::FirstChronicles => 12,
            BibleBook::SecondChronicles => 13,
            BibleBook::Ezra => 14,
            BibleBook::Nehemiah => 15,
            BibleBook::Esther => 16,
            BibleBook::Job => 17,
            BibleBook::Psalms => 18,
            BibleBook::Proverbs => 19,
            BibleBook::Ecclesiastes => 20,
            BibleBook::SongOfSolomon => 21,
            BibleBook::Isaiah => 22,
            BibleBook::Jeremiah => 23,
            BibleBook::Lamentations => 24,
            BibleBook::Ezekiel => 25,
            BibleBook::Daniel => 26,
            BibleBook::Hosea => 27,
            BibleBook::Joel => 28,
            BibleBook::Amos => 29,
            BibleBook::Obadiah => 30,
            BibleBook::Jonah => 31,
            BibleBook::Micah => 32,
            BibleBook::Nahum => 33,
            BibleBook::Habakkuk => 34,
            BibleBook::Zephaniah => 35,
            BibleBook::Haggai => 36,
            BibleBook::Zechariah => 37,
            BibleBook::Malachi => 38,
            BibleBook::Matthew => 39,
            BibleBook::Mark => 40,
            BibleBook::Luke => 41,
            BibleBook::John => 42,
            BibleBook::Acts => 43,
            BibleBook::Romans => 44,
            BibleBook::FirstCorinthians => 45,
            BibleBook::SecondCorinthians => 46,
            BibleBook::Galatians => 47,
            BibleBook::Ephesians => 48,
            BibleBook::Philippians => 49,
            BibleBook::Colossians => 50,
            BibleBook::FirstThessalonians => 51,
            BibleBook::SecondThessalonians => 52,
            BibleBook::FirstTimothy => 53,
            BibleBook::SecondTimothy => 54,
            BibleBook::Titus => 55,
            BibleBook::Philemon => 56,
            BibleBook::Hebrews => 57,
            BibleBook::James => 58,
            BibleBook::FirstPeter => 59,
            BibleBook::SecondPeter => 60,
            BibleBook::FirstJohn => 61,
            BibleBook::SecondJohn => 62,
            BibleBook::ThirdJohn => 63,
            BibleBook::Jude => 64,
            BibleBook::Revelation => 65,
            BibleBook::Tobit => 66,
            BibleBook::Judith => 67,
            BibleBook::Wisdom => 68,
            BibleBook::Sirach => 69,
            BibleBook::Baruch => 70,
            BibleBook::FirstMaccabees => 71,
            BibleBook::SecondMaccabees => 72,
            BibleBook::EstherAdditions => 73,
            BibleBook::DanielSongOfThree => 74,
            BibleBook::DanielSusanna => 75,
            BibleBook::DanielBelAndTheDragon => 76,
            BibleBook::FirstEsdras => 77,
            BibleBook::SecondEsdras => 78,
            BibleBook::PrayerOfManasseh => 79,
            BibleBook::Psalm151 => 80,
            BibleBook::ThirdMaccabees => 81,
            BibleBook::FourthMaccabees => 82,
        }
    }

    /// The book at a position in canonical order.
    pub open spec fn at(i: int) -> BibleBook {
        if i == 0 {
            BibleBook::Genesis
        } else if i == 1 {
            BibleBook::Exodus
        } else if i == 2 {
            BibleBook::Leviticus
        } else if i == 3 {
            BibleBook::Numbers
        } else if i == 4 {
            BibleBook::Deuteronomy
        } else if i == 5 {
            BibleBook::Joshua
        } else if i == 6 {
            BibleBook::Judges
        } else if i == 7 {
            BibleBook::Ruth
        } else if i == 8 {
            BibleBook::FirstSamuel
        } else if i == 9 {
            BibleBook::SecondSamuel
        } else if i == 10 {
            BibleBook::FirstKings
        } else if i == 11 {
            BibleBook::SecondKings
        } else if i == 12 {
            BibleBook::FirstChronicles
        } else if i == 13 {
            BibleBook::SecondChronicles
        } else if i == 14 {
            BibleBook::Ezra
        } else if i == 15 {
            BibleBook::Nehemiah
        } else if i == 16 {
            BibleBook::Esther
        } else if i == 17 {
            BibleBook::Job
        } else if i == 18 {
            BibleBook::Psalms
        } else if i == 19 {
            BibleBook::Proverbs
        } else if i == 20 {
            BibleBook::Ecclesiastes
        } else if i == 21 {
            BibleBook::SongOfSolomon
        } else if i == 22 {
            BibleBook::Isaiah
        } else if i == 23 {
            BibleBook::Jeremiah
        } else if i == 24 {
            BibleBook::Lamentations
        } else if i == 25 {
            BibleBook::Ezekiel
        } else if i == 26 {
            BibleBook::Daniel
        } else if i == 27 {
            BibleBook::Hosea
        } else if i == 28 {
            BibleBook::Joel
        } else if i == 29 {
            BibleBook::Amos
        } else if i == 30 {
            BibleBook::Obadiah
        } else if i == 31 {
            BibleBook::Jonah
        } else if i == 32 {
            BibleBook::Micah
        } else if i == 33 {
            BibleBook::Nahum
        } else if i == 34 {
            BibleBook::Habakkuk
        } else if i == 35 {
            BibleBook::Zephaniah
        } else if i == 36 {
            BibleBook::Haggai
        } else if i == 37 {
            BibleBook::Zechariah
        } else if i == 38 {
            BibleBook::Malachi
        } else if i == 39 {
            BibleBook::Matthew
        } else if i == 40 {
            BibleBook::Mark
        } else if i == 41 {
            BibleBook::Luke
        } else if i == 42 {
            BibleBook::John
        } else if i == 43 {
            BibleBook::Acts
        } else if i == 44 {
            BibleBook::Romans
        } else if i == 45 {
            BibleBook::FirstCorinthians
        } else if i == 46 {
            BibleBook::SecondCorinthians
        } else if i == 47 {
            BibleBook::Galatians
        } else if i == 48 {
            BibleBook::Ephesians
        } else if i == 49 {
            BibleBook::Philippians
        } else if i == 50 {
            BibleBook::Colossians
        } else if i == 51 {
            BibleBook::FirstThessalonians
        } else if i == 52 {
            BibleBook::SecondThessalonians
        } else if i == 53 {
            BibleBook::FirstTimothy
        } else if i == 54 {
            BibleBook::SecondTimothy
        } else if i == 55 {
            BibleBook::Titus
        } else if i == 56 {
            BibleBook::Philemon
        } else if i == 57 {
            BibleBook::Hebrews
        } else if i == 58 {
            BibleBook::James
        } else if i == 59 {
            BibleBook::FirstPeter
        } else if i == 60 {
            BibleBook::SecondPeter
        } else if i == 61 {
            BibleBook::FirstJohn
        } else if i == 62 {
            BibleBook::SecondJohn
        } else if i == 63 {
            BibleBook::ThirdJohn
        } else if i == 64 {
            BibleBook::Jude
        } else if i == 65 {
            BibleBook::Revelation
        } else if i == 66 {
            BibleBook::Tobit
        } else if i == 67 {
            BibleBook::Judith
        } else if i == 68 {
            BibleBook::Wisdom
        } else if i == 69 {
            BibleBook::Sirach
        } else if i == 70 {
            BibleBook::Baruch
        } else if i == 71 {
            BibleBook::FirstMaccabees
        } else if i == 72 {
            BibleBook::SecondMaccabees
        } else if i == 73 {
            BibleBook::EstherAdditions
        } else if i == 74 {
            BibleBook::DanielSongOfThree
        } else if i == 75 {
            BibleBook::DanielSusanna
        } else if i == 76 {
            BibleBook::DanielBelAndTheDragon
        } else if i == 77 {
            BibleBook::FirstEsdras
        } else if i == 78 {
            BibleBook::SecondEsdras
        } else if i == 79 {
            BibleBook::PrayerOfManasseh
        } else if i == 80 {
            BibleBook::Psalm151
        } else if i == 81 {
            BibleBook::ThirdMaccabees
        } else {
            BibleBook::FourthMaccabees
        }
    }

    /// Returns the canonical short code of this book (e.g. "gn", "jdt", "ps151").
    pub fn as_str(&self) -> (r: &'static str)
        ensures
            r@ == self.code(),
    {
        match self {
            BibleBook::Genesis => "gn",
            BibleBook::Exodus => "ex",
            BibleBook::Leviticus => "lv",
            BibleBook::Numbers => "nm",
            BibleBook::Deuteronomy => "dt",
            BibleBook::Joshua => "js",
            BibleBook::Judges => "jud",
            BibleBook::Ruth => "rt",
            BibleBook::FirstSamuel => "1sm",
            BibleBook::SecondSamuel => "2sm",
            BibleBook::FirstKings => "1kgs",
            BibleBook::SecondKings => "2kgs",
            BibleBook::FirstChronicles => "1ch",
            BibleBook::SecondChronicles => "2ch",
            BibleBook::Ezra => "ezr",
            BibleBook::Nehemiah => "ne",
            BibleBook::Esther => "et",
            BibleBook::Job => "job",
            BibleBook::Psalms => "ps",
            BibleBook::Proverbs => "prv",
            BibleBook::Ecclesiastes => "ec",
            BibleBook::SongOfSolomon => "so",
            BibleBook::Isaiah => "is",
            BibleBook::Jeremiah => "jr",
            BibleBook::Lamentations => "lm",
            BibleBook::Ezekiel => "ez",
            BibleBook::Daniel => "dn",
            BibleBook::Hosea => "ho",
            BibleBook::Joel => "jl",
            BibleBook::Amos => "am",
            BibleBook::Obadiah => "ob",
            BibleBook::Jonah => "jn",
            BibleBook::Micah => "mi",
            BibleBook::Nahum => "na",
            BibleBook::Habakkuk => "hk",
            BibleBook::Zephaniah => "zp",
            BibleBook::Haggai => "hg",
            BibleBook::Zechariah => "zc",
            BibleBook::Malachi => "ml",
            BibleBook::Matthew => "mt",
            BibleBook::Mark => "mk",
            BibleBook::Luke => "lk",
            BibleBook::John => "jo",
            BibleBook::Acts => "act",
            BibleBook::Romans => "rm",
            BibleBook::FirstCorinthians => "1co",
            BibleBook::SecondCorinthians => "2co",
            BibleBook::Galatians => "gl",
            BibleBook::Ephesians => "eph",
            BibleBook::Philippians => "ph",
            BibleBook::Colossians => "cl",
            BibleBook::FirstThessalonians => "1ts",
            BibleBook::SecondThessalonians => "2ts",
            BibleBook::FirstTimothy => "1tm",
            BibleBook::SecondTimothy => "2tm",
            BibleBook::Titus => "tt",
            BibleBook::Philemon => "phm",
            BibleBook::Hebrews => "hb",
            BibleBook::James => "jm",
            BibleBook::FirstPeter => "1pe",
            BibleBook::SecondPeter => "2pe",
            BibleBook::FirstJohn => "1jo",
            BibleBook::SecondJohn => "2jo",
            BibleBook::ThirdJohn => "3jo",
            BibleBook::Jude => "jd",
            BibleBook::Revelation => "re",
            BibleBook::Tobit => "tb",
            BibleBook::Judith => "jdt",
            BibleBook::Wisdom => "ws",
            BibleBook::Sirach => "sir",
            BibleBook::Baruch => "bar",
            BibleBook::FirstMaccabees => "1mc",
            BibleBook::SecondMaccabees => "2mc",
            BibleBook::EstherAdditions => "etg",
            BibleBook::DanielSongOfThree => "dn3",
            BibleBook::DanielSusanna => "dns",
            BibleBook::DanielBelAndTheDragon => "dnb",
            BibleBook::FirstEsdras => "1es",
            BibleBook::SecondEsdras => "2es",
            BibleBook::PrayerOfManasseh => "pmn",
            BibleBook::Psalm151 => "ps151",
            BibleBook::ThirdMaccabees => "3mc",
            BibleBook::FourthMaccabees => "4mc",
        }
    }

    /// Returns the display name of this book (e.g. "1 Samuel", "Daniel (Susanna)").
    pub fn full_name(&self) -> (r: &'static str)
        ensures
            r@ == self.display_name(),
    {
        match self {
            BibleBook::Genesis => "Genesis",
            BibleBook::Exodus => "Exodus",
            BibleBook::Leviticus => "Leviticus",
            BibleBook::Numbers => "Numbers",
            BibleBook::Deuteronomy => "Deuteronomy",
            BibleBook::Joshua => "Joshua",
            BibleBook::Judges => "Judges",
            BibleBook::Ruth => "Ruth",
            BibleBook::FirstSamuel => "1 Samuel",
            BibleBook::SecondSamuel => "2 Samuel",
            BibleBook::FirstKings => "1 Kings",
            BibleBook::SecondKings => "2 Kings",
            BibleBook::FirstChronicles => "1 Chronicles",
            BibleBook::SecondChronicles => "2 Chronicles",
            BibleBook::Ezra => "Ezra",
            BibleBook::Nehemiah => "Nehemiah",
            BibleBook::Esther => "Esther",
            BibleBook::Job => "Job",
            BibleBook::Psalms => "Psalms",
            BibleBook::Proverbs => "Proverbs",
            BibleBook::Ecclesiastes => "Ecclesiastes",
            BibleBook::SongOfSolomon => "Song of Solomon",
            BibleBook::Isaiah => "Isaiah",
            BibleBook::Jeremiah => "Jeremiah",
            BibleBook::Lamentations => "Lamentations",
            BibleBook::Ezekiel => "Ezekiel",
            BibleBook::Daniel => "Daniel",
            BibleBook::Hosea => "Hosea",
            BibleBook::Joel => "Joel",
            BibleBook::Amos => "Amos",
            BibleBook::Obadiah => "Obadiah",
            BibleBook::Jonah => "Jonah",
            BibleBook::Micah => "Micah",
            BibleBook::Nahum => "Nahum",
            BibleBook::Habakkuk => "Habakkuk",
            BibleBook::Zephaniah => "Zephaniah",
            BibleBook::Haggai => "Haggai",
            BibleBook::Zechariah => "Zechariah",
            BibleBook::Malachi => "Malachi",
            BibleBook::Matthew => "Matthew",
            BibleBook::Mark => "Mark",
            BibleBook::Luke => "Luke",
            BibleBook::John => "John",
            BibleBook::Acts => "Acts",
            BibleBook::Romans => "Romans",
            BibleBook::FirstCorinthians => "1 Corinthians",
            BibleBook::SecondCorinthians => "2 Corinthians",
            BibleBook::Galatians => "Galatians",
            BibleBook::Ephesians => "Ephesians",
            BibleBook::Philippians => "Philippians",
            BibleBook::Colossians => "Colossians",
            BibleBook::FirstThessalonians => "1 Thessalonians",
            BibleBook::SecondThessalonians => "2 Thessalonians",
            BibleBook::FirstTimothy => "1 Timothy",
            BibleBook::SecondTimothy => "2 Timothy",
            BibleBook::Titus => "Titus",
            BibleBook::Philemon => "Philemon",
            BibleBook::Hebrews => "Hebrews",
            BibleBook::James => "James",
            BibleBook::FirstPeter => "1 Peter",
            BibleBook::SecondPeter => "2 Peter",
            BibleBook::FirstJohn => "1 John",
            BibleBook::SecondJohn => "2 John",
            BibleBook::ThirdJohn => "3 John",
            BibleBook::Jude => "Jude",
            BibleBook::Revelation => "Revelation",
            BibleBook::Tobit => "Tobit",
            BibleBook::Judith => "Judith",
            BibleBook::Wisdom => "Wisdom",
            BibleBook::Sirach => "Sirach",
            BibleBook::Baruch => "Baruch",
            BibleBook::FirstMaccabees => "1 Maccabees",
            BibleBook::SecondMaccabees => "2 Maccabees",
            BibleBook::EstherAdditions => "Esther (Greek)",
            BibleBook::DanielSongOfThree => "Daniel (Song of Three)",
            BibleBook::DanielSusanna => "Daniel (Susanna)",
            BibleBook::DanielBelAndTheDragon => "Daniel (Bel and the Dragon)",
            BibleBook::FirstEsdras => "1 Esdras",
            BibleBook::SecondEsdras => "2 Esdras",
            BibleBook::PrayerOfManasseh => "Prayer of Manasseh",
            BibleBook::Psalm151 => "Psalm 151",
            BibleBook::ThirdMaccabees => "3 Maccabees",
            BibleBook::FourthMaccabees => "4 Maccabees",
        }
    }

    /// Returns the position of this book in canonical order, from 0.
    pub fn index(&self) -> (r: usize)
        ensures
            r == self.ordinal(),
            r < BOOK_COUNT,
    {
        match self {
            BibleBook::Genesis => 0,
            BibleBook::Exodus => 1,
            BibleBook::Leviticus => 2,
            BibleBook::Numbers => 3,
            BibleBook::Deuteronomy => 4,
            BibleBook::Joshua => 5,
            BibleBook::Judges => 6,
            BibleBook::Ruth => 7,
            BibleBook::FirstSamuel => 8,
            BibleBook::SecondSamuel => 9,
            BibleBook::FirstKings => 10,
            BibleBook::SecondKings => 11,
            BibleBook::FirstChronicles => 12,
            BibleBook::SecondChronicles => 13,
            BibleBook::Ezra => 14,
            BibleBook::Nehemiah => 15,
            BibleBook::Esther => 16,
            BibleBook::Job => 17,
            BibleBook::Psalms => 18,
            BibleBook::Proverbs => 19,
            BibleBook::Ecclesiastes => 20,
            BibleBook::SongOfSolomon => 21,
            BibleBook::Isaiah => 22,
            BibleBook::Jeremiah => 23,
            BibleBook::Lamentations => 24,
            BibleBook::Ezekiel => 25,
            BibleBook::Daniel => 26,
            BibleBook::Hosea => 27,
            BibleBook::Joel => 28,
            BibleBook::Amos => 29,
            BibleBook::Obadiah => 30,
            BibleBook::Jonah => 31,
            BibleBook::Micah => 32,
            BibleBook::Nahum => 33,
            BibleBook::Habakkuk => 34,
            BibleBook::Zephaniah => 35,
            BibleBook::Haggai => 36,
            BibleBook::Zechariah => 37,
            BibleBook::Malachi => 38,
            BibleBook::Matthew => 39,
            BibleBook::Mark => 40,
            BibleBook::Luke => 41,
            BibleBook::John => 42,
            BibleBook::Acts => 43,
            BibleBook::Romans => 44,
            BibleBook::FirstCorinthians => 45,
            BibleBook::SecondCorinthians => 46,
            BibleBook::Galatians => 47,
            BibleBook::Ephesians => 48,
            BibleBook::Philippians => 49,
            BibleBook::Colossians => 50,
            BibleBook::FirstThessalonians => 51,
            BibleBook::SecondThessalonians => 52,
            BibleBook::FirstTimothy => 53,
            BibleBook::SecondTimothy => 54,
            BibleBook::Titus => 55,
            BibleBook::Philemon => 56,
            BibleBook::Hebrews => 57,
            BibleBook::James => 58,
            BibleBook::FirstPeter => 59,
            BibleBook::SecondPeter => 60,
            BibleBook::FirstJohn => 61,
            BibleBook::SecondJohn => 62,
            BibleBook::ThirdJohn => 63,
            BibleBook::Jude => 64,
            BibleBook::Revelation => 65,
            BibleBook::Tobit => 66,
            BibleBook::Judith => 67,
            BibleBook::Wisdom => 68,
            BibleBook::Sirach => 69,
            BibleBook::Baruch => 70,
            BibleBook::FirstMaccabees => 71,
            BibleBook::SecondMaccabees => 72,
            BibleBook::EstherAdditions => 73,
            BibleBook::DanielSongOfThree => 74,
            BibleBook::DanielSusanna => 75,
            BibleBook::DanielBelAndTheDragon => 76,
            BibleBook::FirstEsdras => 77,
            BibleBook::SecondEsdras => 78,
            BibleBook::PrayerOfManasseh => 79,
            BibleBook::Psalm151 => 80,
            BibleBook::ThirdMaccabees => 81,
            BibleBook::FourthMaccabees => 82,
        }
    }

    /// Returns the book at a position in canonical order, if there is one.
    pub fn from_index(i: usize) -> (r: Option<BibleBook>)
        ensures
            r == if i < BOOK_COUNT {
                Some(BibleBook::at(i as int))
            } else {
                None
            },
    {
        match i {
            0 => Some(BibleBook::Genesis),
            1 => Some(BibleBook::Exodus),
            2 => Some(BibleBook::Leviticus),
            3 => Some(BibleBook::Numbers),
            4 => Some(BibleBook::Deuteronomy),
            5 => Some(BibleBook::Joshua),
            6 => Some(BibleBook::Judges),
            7 => Some(BibleBook::Ruth),
            8 => Some(BibleBook::FirstSamuel),
            9 => Some(BibleBook::SecondSamuel),
            10 => Some(BibleBook::FirstKings),
            11 => Some(BibleBook::SecondKings),
            12 => Some(BibleBook::FirstChronicles),
            13 => Some(BibleBook::SecondChronicles),
            14 => Some(BibleBook::Ezra),
            15 => Some(BibleBook::Nehemiah),
            16 => Some(BibleBook::Esther),
            17 => Some(BibleBook::Job),
            18 => Some(BibleBook::Psalms),
            19 => Some(BibleBook::Proverbs),
            20 => Some(BibleBook::Ecclesiastes),
            21 => Some(BibleBook::SongOfSolomon),
            22 => Some(BibleBook::Isaiah),
            23 => Some(BibleBook::Jeremiah),
            24 => Some(BibleBook::Lamentations),
            25 => Some(BibleBook::Ezekiel),
            26 => Some(BibleBook::Daniel),
            27 => Some(BibleBook::Hosea),
            28 => Some(BibleBook::Joel),
            29 => Some(BibleBook::Amos),
            30 => Some(BibleBook::Obadiah),
            31 => Some(BibleBook::Jonah),
            32 => Some(BibleBook::Micah),
            33 => Some(BibleBook::Nahum),
            34 => Some(BibleBook::Habakkuk),
            35 => Some(BibleBook::Zephaniah),
            36 => Some(BibleBook::Haggai),
            37 => Some(BibleBook::Zechariah),
            38 => Some(BibleBook::Malachi),
            39 => Some(BibleBook::Matthew),
            40 => Some(BibleBook::Mark),
            41 => Some(BibleBook::Luke),
            42 => Some(BibleBook::John),
            43 => Some(BibleBook::Acts),
            44 => Some(BibleBook::Romans),
            45 => Some(BibleBook::FirstCorinthians),
            46 => Some(BibleBook::SecondCorinthians),
            47 => Some(BibleBook::Galatians),
            48 => Some(BibleBook::Ephesians),
            49 => Some(BibleBook::Philippians),
            50 => Some(BibleBook::Colossians),
            51 => Some(BibleBook::FirstThessalonians),
            52 => Some(BibleBook::SecondThessalonians),
            53 => Some(BibleBook::FirstTimothy),
            54 => Some(BibleBook::SecondTimothy),
            55 => Some(BibleBook::Titus),
            56 => Some(BibleBook::Philemon),
            57 => Some(BibleBook::Hebrews),
            58 => Some(BibleBook::James),
            59 => Some(BibleBook::FirstPeter),
            60 => Some(BibleBook::SecondPeter),
            61 => Some(BibleBook::FirstJohn),
            62 => Some(BibleBook::SecondJohn),
            63 => Some(BibleBook::ThirdJohn),
            64 => Some(BibleBook::Jude),
            65 => Some(BibleBook::Revelation),
            66 => Some(BibleBook::Tobit),
            67 => Some(BibleBook::Judith),
            68 => Some(BibleBook::Wisdom),
            69 => Some(BibleBook::Sirach),
            70 => Some(BibleBook::Baruch),
            71 => Some(BibleBook::FirstMaccabees),
            72 => Some(BibleBook::SecondMaccabees),
            73 => Some(BibleBook::EstherAdditions),
            74 => Some(BibleBook::DanielSongOfThree),
            75 => Some(BibleBook::DanielSusanna),
            76 => Some(BibleBook::DanielBelAndTheDragon),
            77 => Some(BibleBook::FirstEsdras),
            78 => Some(BibleBook::SecondEsdras),
            79 => Some(BibleBook::PrayerOfManasseh),
            80 => Some(BibleBook::Psalm151),
            81 => Some(BibleBook::ThirdMaccabees),
            82 => Some(BibleBook::FourthMaccabees),
            _ => None,
        }
    }

    /// Parses a canonical short code, in any mix of upper and lower case.
    pub fn from_str(s: &str) -> (r: Result<BibleBook, ParseBibleBookError>)
        ensures
            r is Ok <==> parse_code(s@) is Some,
            r matches Ok(b) ==> parse_code(s@) == Some(b) && b.code() == lowercase(s@),
            r is Err ==> forall|b: BibleBook| b.code() != lowercase(s@),
    {
        let lower = to_ascii_lowercase(s);
        let mut i: usize = 0;
        while i < BOOK_COUNT
            invariant
                i <= BOOK_COUNT,
                lower@ == lowercase(s@),
                forall|j: int| 0 <= j < i ==> (#[trigger] BibleBook::at(j)).code() != lower@,
            decreases BOOK_COUNT - i,
        {
            match BibleBook::from_index(i) {
                Some(book) => {
                    if lower.as_str().eq(book.as_str()) {
                        proof {
                            lemma_parse_code_unique(s@, book);
                        }
                        return Ok(book);
                    }
                },
                None => {},
            }
            i += 1;
        }
        proof {
            assert forall|b: BibleBook| b.code() != lowercase(s@) by {
                lemma_at_ordinal(b);
            }
        }
        Err(ParseBibleBookError)
    }

    /// The canonical short code as an owned string.
    pub fn to_string(&self) -> (r: String)
        ensures
            r@ == self.code(),
    {
        self.as_str().to_owned()
    }
}

impl FromStr for BibleBook {
    type Err = ParseBibleBookError;

    fn from_str(s: &str) -> (r: Result<Self, Self::Err>)
        ensures
            r is Ok <==> parse_code(s@) is Some,
            r matches Ok(b) ==> parse_code(s@) == Some(b),
    {
        BibleBook::from_str(s)
    }
}

/// The book whose canonical short code is `s` in lower case, if there is one.
pub open spec fn parse_code(s: Seq<char>) -> Option<BibleBook> {
    if exists|b: BibleBook| b.code() == lowercase(s) {
        Some(choose|b: BibleBook| b.code() == lowercase(s))
    } else {
        None
    }
}

/// Whether `s` is made of the two given characters, in this order.
spec fn spelt2(s: Seq<char>, a: char, b: char) -> bool {
    s.len() == 2 && s[0] == a && s[1] == b
}

/// Whether `s` is made of the three given characters, in this order.
spec fn spelt3(s: Seq<char>, a: char, b: char, c: char) -> bool {
    s.len() == 3 && s[0] == a && s[1] == b && s[2] == c
}

/// Whether `s` is made of the four given characters, in this order.
spec fn spelt4(s: Seq<char>, a: char, b: char, c: char, d: char) -> bool {
    s.len() == 4 && s[0] == a && s[1] == b && s[2] == c && s[3] == d
}

/// Whether `s` is made of the five given characters, in this order.
spec fn spelt5(s: Seq<char>, a: char, b: char, c: char, d: char, e: char) -> bool {
    s.len() == 5 && s[0] == a && s[1] == b && s[2] == c && s[3] == d && s[4] == e
}

/// What each canonical short code is made of.
proof fn lemma_code_chars(b: BibleBook)
    ensures
        match b {
            BibleBook::Genesis => spelt2(b.code(), 'g', 'n'),
            BibleBook::Exodus => spelt2(b.code(), 'e', 'x'),
            BibleBook::Leviticus => spelt2(b.code(), 'l', 'v'),
            BibleBook::Numbers => spelt2(b.code(), 'n', 'm'),
            BibleBook::Deuteronomy => spelt2(b.code(), 'd', 't'),
            BibleBook::Joshua => spelt2(b.code(), 'j', 's'),
            BibleBook::Judges => spelt3(b.code(), 'j', 'u', 'd'),
            BibleBook::Ruth => spelt2(b.code(), 'r', 't'),
            BibleBook::FirstSamuel => spelt3(b.code(), '1', 's', 'm'),
            BibleBook::SecondSamuel => spelt3(b.code(), '2', 's', 'm'),
            BibleBook::FirstKings => spelt4(b.code(), '1', 'k', 'g', 's'),
            BibleBook::SecondKings => spelt4(b.code(), '2', 'k', 'g', 's'),
            BibleBook::FirstChronicles => spelt3(b.code(), '1', 'c', 'h'),
            BibleBook::SecondChronicles => spelt3(b.code(), '2', 'c', 'h'),
            BibleBook::Ezra => spelt3(b.code(), 'e', 'z', 'r'),
            BibleBook::Nehemiah => spelt2(b.code(), 'n', 'e'),
            BibleBook::Esther => spelt2(b.code(), 'e', 't'),
            BibleBook::Job => spelt3(b.code(), 'j', 'o', 'b'),
            BibleBook::Psalms => spelt2(b.code(), 'p', 's'),
            BibleBook::Proverbs => spelt3(b.code(), 'p', 'r', 'v'),
            BibleBook::Ecclesiastes => spelt2(b.code(), 'e', 'c'),
            BibleBook::SongOfSolomon => spelt2(b.code(), 's', 'o'),
            BibleBook::Isaiah => spelt2(b.code(), 'i', 's'),
            BibleBook::Jeremiah => spelt2(b.code(), 'j', 'r'),
            BibleBook::Lamentations => spelt2(b.code(), 'l', 'm'),
            BibleBook::Ezekiel => spelt2(b.code(), 'e', 'z'),
            BibleBook::Daniel => spelt2(b.code(), 'd', 'n'),
            BibleBook::Hosea => spelt2(b.code(), 'h', 'o'),
            BibleBook::Joel => spelt2(b.code(), 'j', 'l'),
            BibleBook::Amos => spelt2(b.code(), 'a', 'm'),
            BibleBook::Obadiah => spelt2(b.code(), 'o', 'b'),
            BibleBook::Jonah => spelt2(b.code(), 'j', 'n'),
            BibleBook::Micah => spelt2(b.code(), 'm', 'i'),
            BibleBook::Nahum => spelt2(b.code(), 'n', 'a'),
            BibleBook::Habakkuk => spelt2(b.code(), 'h', 'k'),
            BibleBook::Zephaniah => spelt2(b.code(), 'z', 'p'),
            BibleBook::Haggai => spelt2(b.code(), 'h', 'g'),
            BibleBook::Zechariah => spelt2(b.code(), 'z', 'c'),
            BibleBook::Malachi => spelt2(b.code(), 'm', 'l'),
            BibleBook::Matthew => spelt2(b.code(), 'm', 't'),
            BibleBook::Mark => spelt2(b.code(), 'm', 'k'),
            BibleBook::Luke => spelt2(b.code(), 'l', 'k'),
            BibleBook::John => spelt2(b.code(), 'j', 'o'),
            BibleBook::Acts => spelt3(b.code(), 'a', 'c', 't'),
            BibleBook::Romans => spelt2(b.code(), 'r', 'm'),
            BibleBook::FirstCorinthians => spelt3(b.code(), '1', 'c', 'o'),
            BibleBook::SecondCorinthians => spelt3(b.code(), '2', 'c', 'o'),
            BibleBook::Galatians => spelt2(b.code(), 'g', 'l'),
            BibleBook::Ephesians => spelt3(b.code(), 'e', 'p', 'h'),
            BibleBook::Philippians => spelt2(b.code(), 'p', 'h'),
            BibleBook::Colossians => spelt2(b.code(), 'c', 'l'),
            BibleBook::FirstThessalonians => spelt3(b.code(), '1', 't', 's'),
            BibleBook::SecondThessalonians => spelt3(b.code(), '2', 't', 's'),
            BibleBook::FirstTimothy => spelt3(b.code(), '1', 't', 'm'),
            BibleBook::SecondTimothy => spelt3(b.code(), '2', 't', 'm'),
            BibleBook::Titus => spelt2(b.code(), 't', 't'),
            BibleBook::Philemon => spelt3(b.code(), 'p', 'h', 'm'),
            BibleBook::Hebrews => spelt2(b.code(), 'h', 'b'),
            BibleBook::James => spelt2(b.code(), 'j', 'm'),
            BibleBook::FirstPeter => spelt3(b.code(), '1', 'p', 'e'),
            BibleBook::SecondPeter => spelt3(b.code(), '2', 'p', 'e'),
            BibleBook::FirstJohn => spelt3(b.code(), '1', 'j', 'o'),
            BibleBook::SecondJohn => spelt3(b.code(), '2', 'j', 'o'),
            BibleBook::ThirdJohn => spelt3(b.code(), '3', 'j', 'o'),
            BibleBook::Jude => spelt2(b.code(), 'j', 'd'),
            BibleBook::Revelation => spelt2(b.code(), 'r', 'e'),
            BibleBook::Tobit => spelt2(b.code(), 't', 'b'),
            BibleBook::Judith => spelt3(b.code(), 'j', 'd', 't'),
            BibleBook::Wisdom => spelt2(b.code(), 'w', 's'),
            BibleBook::Sirach => spelt3(b.code(), 's', 'i', 'r'),
            BibleBook::Baruch => spelt3(b.code(), 'b', 'a', 'r'),
            BibleBook::FirstMaccabees => spelt3(b.code(), '1', 'm', 'c'),
            BibleBook::SecondMaccabees => spelt3(b.code(), '2', 'm', 'c'),
            BibleBook::EstherAdditions => spelt3(b.code(), 'e', 't', 'g'),
            BibleBook::DanielSongOfThree => spelt3(b.code(), 'd', 'n', '3'),
            BibleBook::DanielSusanna => spelt3(b.code(), 'd', 'n', 's'),
            BibleBook::DanielBelAndTheDragon => spelt3(b.code(), 'd', 'n', 'b'),
            BibleBook::FirstEsdras => spelt3(b.code(), '1', 'e', 's'),
            BibleBook::SecondEsdras => spelt3(b.code(), '2', 'e', 's'),
            BibleBook::PrayerOfManasseh => spelt3(b.code(), 'p', 'm', 'n'),
            BibleBook::Psalm151 => spelt5(b.code(), 'p', 's', '1', '5', '1'),
            BibleBook::ThirdMaccabees => spelt3(b.code(), '3', 'm', 'c'),
            BibleBook::FourthMaccabees => spelt3(b.code(), '4', 'm', 'c'),
        },
{
    reveal_strlit("gn");
    reveal_strlit("ex");
    reveal_strlit("lv");
    reveal_strlit("nm");
    reveal_strlit("dt");
    reveal_strlit("js");
    reveal_strlit("jud");
    reveal_strlit("rt");
    reveal_strlit("1sm");
    reveal_strlit("2sm");
    reveal_strlit("1kgs");
    reveal_strlit("2kgs");
    reveal_strlit("1ch");
    reveal_strlit("2ch");
    reveal_strlit("ezr");
    reveal_strlit("ne");
    reveal_strlit("et");
    reveal_strlit("job");
    reveal_strlit("ps");
    reveal_strlit("prv");
    reveal_strlit("ec");
    reveal_strlit("so");
    reveal_strlit("is");
    reveal_strlit("jr");
    reveal_strlit("lm");
    reveal_strlit("ez");
    reveal_strlit("dn");
    reveal_strlit("ho");
    reveal_strlit("jl");
    reveal_strlit("am");
    reveal_strlit("ob");
    reveal_strlit("jn");
    reveal_strlit("mi");
    reveal_strlit("na");
    reveal_strlit("hk");
    reveal_strlit("zp");
    reveal_strlit("hg");
    reveal_strlit("zc");
    reveal_strlit("ml");
    reveal_strlit("mt");
    reveal_strlit("mk");
    reveal_strlit("lk");
    reveal_strlit("jo");
    reveal_strlit("act");
    reveal_strlit("rm");
    reveal_strlit("1co");
    reveal_strlit("2co");
    reveal_strlit("gl");
    reveal_strlit("eph");
    reveal_strlit("ph");
    reveal_strlit("cl");
    reveal_strlit("1ts");
    reveal_strlit("2ts");
    reveal_strlit("1tm");
    reveal_strlit("2tm");
    reveal_strlit("tt");
    reveal_strlit("phm");
    reveal_strlit("hb");
    reveal_strlit("jm");
    reveal_strlit("1pe");
    reveal_strlit("2pe");
    reveal_strlit("1jo");
    reveal_strlit("2jo");
    reveal_strlit("3jo");
    reveal_strlit("jd");
    reveal_strlit("re");
    reveal_strlit("tb");
    reveal_strlit("jdt");
    reveal_strlit("ws");
    reveal_strlit("sir");
    reveal_strlit("bar");
    reveal_strlit("1mc");
    reveal_strlit("2mc");
    reveal_strlit("etg");
    reveal_strlit("dn3");
    reveal_strlit("dns");
    reveal_strlit("dnb");
    reveal_strlit("1es");
    reveal_strlit("2es");
    reveal_strlit("pmn");
    reveal_strlit("ps151");
    reveal_strlit("3mc");
    reveal_strlit("4mc");
}

/// Every book stands at its own ordinal.
pub proof fn lemma_at_ordinal(b: BibleBook)
    ensures
        b.ordinal() < BOOK_COUNT,
        BibleBook::at(b.ordinal() as int) == b,
{
}

/// Every position below the count holds the book with that ordinal.
pub proof fn lemma_ordinal_at(i: int)
    requires
        0 <= i < BOOK_COUNT,
    ensures
        BibleBook::at(i).ordinal() == i,
{
}

/// Two books with the same canonical short code are the same book.
pub proof fn lemma_code_injective(a: BibleBook, b: BibleBook)
    requires
        a.code() == b.code(),
    ensures
        a == b,
{
    lemma_code_chars(a);
    lemma_code_chars(b);
    assert(a.code().len() == b.code().len());
    assert(a.code()[0] == b.code()[0]);
    assert(a.code()[1] == b.code()[1]);
    assert(a.code()[2] == b.code()[2]);
    assert(a.code()[3] == b.code()[3]);
    assert(a.code()[4] == b.code()[4]);
}

/// Every canonical short code is in lower case already.
pub proof fn lemma_code_is_lowercase(b: BibleBook)
    ensures
        lowercase(b.code()) == b.code(),
{
    lemma_code_chars(b);
    assert(lowercase(b.code()) =~= b.code());
}

/// A string that spells the code of `b` in any case parses to `b`.
pub proof fn lemma_parse_code_unique(s: Seq<char>, b: BibleBook)
    requires
        b.code() == lowercase(s),
    ensures
        parse_code(s) == Some(b),
{
    let c = choose|c: BibleBook| c.code() == lowercase(s);
    lemma_code_injective(c, b);
}

/// Parsing the canonical short code of a book gives that book back.
pub proof fn lemma_parse_code_round_trip(b: BibleBook)
    ensures
        parse_code(b.code()) == Some(b),
{
    lemma_code_is_lowercase(b);
    lemma_parse_code_unique(b.code(), b);
}

/// Parsing a code does not tell upper case from lower case.
pub proof fn lemma_parse_code_ignores_case(s: Seq<char>)
    ensures
        parse_code(lowercase(s)) == parse_code(s),
        parse_code(uppercase(s)) == parse_code(s),
{
    lemma_lowercase_idempotent(s);
    lemma_lowercase_of_uppercase(s);
}

} // verus!
