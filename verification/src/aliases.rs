//! Alternate abbreviations of book names, as they are commonly written in
//! references ("gen", "exod", "1sam", "matt"). The table is searched in the
//! order in which it is written here, and before the canonical short codes:
//! where a spelling is both an alternate of one book and the canonical code
//! of another ("jn", "jud"), the alternate wins.

use crate::bible_books_enum::BibleBook;
use crate::text::{lowercase, to_ascii_lowercase};
use vstd::prelude::*;

verus! {

/// How many alternate abbreviations the table holds.
pub const ALIAS_COUNT: usize = 138;

/// The entry of the table at position `i`: a spelling in lower case and the
/// book that it stands for.
pub open spec fn alias_at(i: int) -> (Seq<char>, BibleBook) {
    if i == 0 {
        ("gen"@, BibleBook::Genesis)
    } else if i == 1 {
        ("ge"@, BibleBook::Genesis)
    } else if i == 2 {
        ("exo"@, BibleBook::Exodus)
    } else if i == 3 {
        ("exod"@, BibleBook::Exodus)
    } else if i == 4 {
        ("lev"@, BibleBook::Leviticus)
    } else if i == 5 {
        ("le"@, BibleBook::Leviticus)
    } else if i == 6 {
        ("num"@, BibleBook::Numbers)
    } else if i == 7 {
        ("nu"@, BibleBook::Numbers)
    } else if i == 8 {
        ("deut"@, BibleBook::Deuteronomy)
    } else if i == 9 {
        ("deu"@, BibleBook::Deuteronomy)
    } else if i == 10 {
        ("jos"@, BibleBook::Joshua)
    } else if i == 11 {
        ("josh"@, BibleBook::Joshua)
    } else if i == 12 {
        ("jdg"@, BibleBook::Judges)
    } else if i == 13 {
        ("judg"@, BibleBook::Judges)
    } else if i == 14 {
        ("rut"@, BibleBook::Ruth)
    } else if i == 15 {
        ("ru"@, BibleBook::Ruth)
    } else if i == 16 {
        ("1sa"@, BibleBook::FirstSamuel)
    } else if i == 17 {
        ("1sam"@, BibleBook::FirstSamuel)
    } else if i == 18 {
        ("2sa"@, BibleBook::SecondSamuel)
    } else if i == 19 {
        ("2sam"@, BibleBook::SecondSamuel)
    } else if i == 20 {
        ("1ki"@, BibleBook::FirstKings)
    } else if i == 21 {
        ("1kings"@, BibleBook::FirstKings)
    } else if i == 22 {
        ("2ki"@, BibleBook::SecondKings)
    } else if i == 23 {
        ("2kings"@, BibleBook::SecondKings)
    } else if i == 24 {
        ("1ch"@, BibleBook::FirstChronicles)
    } else if i == 25 {
        ("1chr"@, BibleBook::FirstChronicles)
    } else if i == 26 {
        ("2ch"@, BibleBook::SecondChronicles)
    } else if i == 27 {
        ("2chr"@, BibleBook::SecondChronicles)
    } else if i == 28 {
        ("ezr"@, BibleBook::Ezra)
    } else if i == 29 {
        ("ezra"@, BibleBook::Ezra)
    } else if i == 30 {
        ("neh"@, BibleBook::Nehemiah)
    } else if i == 31 {
        ("ne"@, BibleBook::Nehemiah)
    } else if i == 32 {
        ("est"@, BibleBook::Esther)
    } else if i == 33 {
        ("esth"@, BibleBook::Esther)
    } else if i == 34 {
        ("job"@, BibleBook::Job)
    } else if i == 35 {
        ("jb"@, BibleBook::Job)
    } else if i == 36 {
        ("psa"@, BibleBook::Psalms)
    } else if i == 37 {
        ("psalm"@, BibleBook::Psalms)
    } else if i == 38 {
        ("psalms"@, BibleBook::Psalms)
    } else if i == 39 {
        ("pro"@, BibleBook::Proverbs)
    } else if i == 40 {
        ("prov"@, BibleBook::Proverbs)
    } else if i == 41 {
        ("ecc"@, BibleBook::Ecclesiastes)
    } else if i == 42 {
        ("eccl"@, BibleBook::Ecclesiastes)
    } else if i == 43 {
        ("sos"@, BibleBook::SongOfSolomon)
    } else if i == 44 {
        ("song"@, BibleBook::SongOfSolomon)
    } else if i == 45 {
        ("songofsongs"@, BibleBook::SongOfSolomon)
    } else if i == 46 {
        ("isa"@, BibleBook::Isaiah)
    } else if i == 47 {
        ("jer"@, BibleBook::Jeremiah)
    } else if i == 48 {
        ("lam"@, BibleBook::Lamentations)
    } else if i == 49 {
        ("ezek"@, BibleBook::Ezekiel)
    } else if i == 50 {
        ("eze"@, BibleBook::Ezekiel)
    } else if i == 51 {
        ("dan"@, BibleBook::Daniel)
    } else if i == 52 {
        ("da"@, BibleBook::Daniel)
    } else if i == 53 {
        ("hos"@, BibleBook::Hosea)
    } else if i == 54 {
        ("joe"@, BibleBook::Joel)
    } else if i == 55 {
        ("amo"@, BibleBook::Amos)
    } else if i == 56 {
        ("oba"@, BibleBook::Obadiah)
    } else if i == 57 {
        ("obad"@, BibleBook::Obadiah)
    } else if i == 58 {
        ("jon"@, BibleBook::Jonah)
    } else if i == 59 {
        ("jnh"@, BibleBook::Jonah)
    } else if i == 60 {
        ("mic"@, BibleBook::Micah)
    } else if i == 61 {
        ("nah"@, BibleBook::Nahum)
    } else if i == 62 {
        ("hab"@, BibleBook::Habakkuk)
    } else if i == 63 {
        ("zep"@, BibleBook::Zephaniah)
    } else if i == 64 {
        ("zeph"@, BibleBook::Zephaniah)
    } else if i == 65 {
        ("hag"@, BibleBook::Haggai)
    } else if i == 66 {
        ("zec"@, BibleBook::Zechariah)
    } else if i == 67 {
        ("zech"@, BibleBook::Zechariah)
    } else if i == 68 {
        ("mal"@, BibleBook::Malachi)
    } else if i == 69 {
        ("mat"@, BibleBook::Matthew)
    } else if i == 70 {
        ("matt"@, BibleBook::Matthew)
    } else if i == 71 {
        ("mar"@, BibleBook::Mark)
    } else if i == 72 {
        ("mrk"@, BibleBook::Mark)
    } else if i == 73 {
        ("luk"@, BibleBook::Luke)
    } else if i == 74 {
        ("luke"@, BibleBook::Luke)
    } else if i == 75 {
        ("john"@, BibleBook::John)
    } else if i == 76 {
        ("jhn"@, BibleBook::John)
    } else if i == 77 {
        ("jn"@, BibleBook::John)
    } else if i == 78 {
        ("acts"@, BibleBook::Acts)
    } else if i == 79 {
        ("ac"@, BibleBook::Acts)
    } else if i == 80 {
        ("rom"@, BibleBook::Romans)
    } else if i == 81 {
        ("1co"@, BibleBook::FirstCorinthians)
    } else if i == 82 {
        ("1cor"@, BibleBook::FirstCorinthians)
    } else if i == 83 {
        ("2co"@, BibleBook::SecondCorinthians)
    } else if i == 84 {
        ("2cor"@, BibleBook::SecondCorinthians)
    } else if i == 85 {
        ("gal"@, BibleBook::Galatians)
    } else if i == 86 {
        ("eph"@, BibleBook::Ephesians)
    } else if i == 87 {
        ("phil"@, BibleBook::Philippians)
    } else if i == 88 {
        ("php"@, BibleBook::Philippians)
    } else if i == 89 {
        ("col"@, BibleBook::Colossians)
    } else if i == 90 {
        ("1th"@, BibleBook::FirstThessalonians)
    } else if i == 91 {
        ("1thes"@, BibleBook::FirstThessalonians)
    } else if i == 92 {
        ("2th"@, BibleBook::SecondThessalonians)
    } else if i == 93 {
        ("2thes"@, BibleBook::SecondThessalonians)
    } else if i == 94 {
        ("1ti"@, BibleBook::FirstTimothy)
    } else if i == 95 {
        ("1tim"@, BibleBook::FirstTimothy)
    } else if i == 96 {
        ("2ti"@, BibleBook::SecondTimothy)
    } else if i == 97 {
        ("2tim"@, BibleBook::SecondTimothy)
    } else if i == 98 {
        ("tit"@, BibleBook::Titus)
    } else if i == 99 {
        ("phm"@, BibleBook::Philemon)
    } else if i == 100 {
        ("phlm"@, BibleBook::Philemon)
    } else if i == 101 {
        ("philemon"@, BibleBook::Philemon)
    } else if i == 102 {
        ("heb"@, BibleBook::Hebrews)
    } else if i == 103 {
        ("jas"@, BibleBook::James)
    } else if i == 104 {
        ("jam"@, BibleBook::James)
    } else if i == 105 {
        ("1pe"@, BibleBook::FirstPeter)
    } else if i == 106 {
        ("1pet"@, BibleBook::FirstPeter)
    } else if i == 107 {
        ("2pe"@, BibleBook::SecondPeter)
    } else if i == 108 {
        ("2pet"@, BibleBook::SecondPeter)
    } else if i == 109 {
        ("1jn"@, BibleBook::FirstJohn)
    } else if i == 110 {
        ("1joh"@, BibleBook::FirstJohn)
    } else if i == 111 {
        ("2jn"@, BibleBook::SecondJohn)
    } else if i == 112 {
        ("2joh"@, BibleBook::SecondJohn)
    } else if i == 113 {
        ("3jn"@, BibleBook::ThirdJohn)
    } else if i == 114 {
        ("3joh"@, BibleBook::ThirdJohn)
    } else if i == 115 {
        ("jud"@, BibleBook::Jude)
    } else if i == 116 {
        ("jude"@, BibleBook::Jude)
    } else if i == 117 {
        ("rev"@, BibleBook::Revelation)
    } else if i == 118 {
        ("revelation"@, BibleBook::Revelation)
    } else if i == 119 {
        ("tob"@, BibleBook::Tobit)
    } else if i == 120 {
        ("jdt"@, BibleBook::Judith)
    } else if i == 121 {
        ("wis"@, BibleBook::Wisdom)
    } else if i == 122 {
        ("sir"@, BibleBook::Sirach)
    } else if i == 123 {
        ("bar"@, BibleBook::Baruch)
    } else if i == 124 {
        ("1mac"@, BibleBook::FirstMaccabees)
    } else if i == 125 {
        ("2mac"@, BibleBook::SecondMaccabees)
    } else if i == 126 {
        ("estg"@, BibleBook::EstherAdditions)
    } else if i == 127 {
        ("addesth"@, BibleBook::EstherAdditions)
    } else if i == 128 {
        ("dan3"@, BibleBook::DanielSongOfThree)
    } else if i == 129 {
        ("sus"@, BibleBook::DanielSusanna)
    } else if i == 130 {
        ("bel"@, BibleBook::DanielBelAndTheDragon)
    } else if i == 131 {
        ("1esd"@, BibleBook::FirstEsdras)
    } else if i == 132 {
        ("2esd"@, BibleBook::SecondEsdras)
    } else if i == 133 {
        ("man"@, BibleBook::PrayerOfManasseh)
    } else if i == 134 {
        ("prman"@, BibleBook::PrayerOfManasseh)
    } else if i == 135 {
        ("ps151"@, BibleBook::Psalm151)
    } else if i == 136 {
        ("3mac"@, BibleBook::ThirdMaccabees)
    } else {
        ("4mac"@, BibleBook::FourthMaccabees)
    }
}

/// The book of the first entry at or after position `from` whose spelling is `key`.
pub open spec fn alias_lookup_from(key: Seq<char>, from: int) -> Option<BibleBook>
    decreases ALIAS_COUNT - from,
{
    if from < 0 || from >= ALIAS_COUNT {
        None
    } else if alias_at(from).0 == key {
        Some(alias_at(from).1)
    } else {
        alias_lookup_from(key, from + 1)
    }
}

/// The book that the table gives for a spelling in lower case: that of the
/// first entry with this spelling.
pub open spec fn alias_lookup(key: Seq<char>) -> Option<BibleBook> {
    alias_lookup_from(key, 0)
}

/// Returns the entry of the table at position `i`, if there is one.
pub fn alias_entry(i: usize) -> (r: Option<(&'static str, BibleBook)>)
    ensures
        r is Some <==> i < ALIAS_COUNT,
        r matches Some(e) ==> e.0@ == alias_at(i as int).0 && e.1 == alias_at(i as int).1,
{
    match i {
        // --- Protestant canon ---
        0 => Some(("gen", BibleBook::Genesis)),
        1 => Some(("ge", BibleBook::Genesis)),
        2 => Some(("exo", BibleBook::Exodus)),
        3 => Some(("exod", BibleBook::Exodus)),
        4 => Some(("lev", BibleBook::Leviticus)),
        5 => Some(("le", BibleBook::Leviticus)),
        6 => Some(("num", BibleBook::Numbers)),
        7 => Some(("nu", BibleBook::Numbers)),
        8 => Some(("deut", BibleBook::Deuteronomy)),
        9 => Some(("deu", BibleBook::Deuteronomy)),
        10 => Some(("jos", BibleBook::Joshua)),
        11 => Some(("josh", BibleBook::Joshua)),
        12 => Some(("jdg", BibleBook::Judges)),
        13 => Some(("judg", BibleBook::Judges)),
        14 => Some(("rut", BibleBook::Ruth)),
        15 => Some(("ru", BibleBook::Ruth)),
        16 => Some(("1sa", BibleBook::FirstSamuel)),
        17 => Some(("1sam", BibleBook::FirstSamuel)),
        18 => Some(("2sa", BibleBook::SecondSamuel)),
        19 => Some(("2sam", BibleBook::SecondSamuel)),
        20 => Some(("1ki", BibleBook::FirstKings)),
        21 => Some(("1kings", BibleBook::FirstKings)),
        22 => Some(("2ki", BibleBook::SecondKings)),
        23 => Some(("2kings", BibleBook::SecondKings)),
        24 => Some(("1ch", BibleBook::FirstChronicles)),
        25 => Some(("1chr", BibleBook::FirstChronicles)),
        26 => Some(("2ch", BibleBook::SecondChronicles)),
        27 => Some(("2chr", BibleBook::SecondChronicles)),
        28 => Some(("ezr", BibleBook::Ezra)),
        29 => Some(("ezra", BibleBook::Ezra)),
        30 => Some(("neh", BibleBook::Nehemiah)),
        31 => Some(("ne", BibleBook::Nehemiah)),
        32 => Some(("est", BibleBook::Esther)),
        33 => Some(("esth", BibleBook::Esther)),
        34 => Some(("job", BibleBook::Job)),
        35 => Some(("jb", BibleBook::Job)),
        36 => Some(("psa", BibleBook::Psalms)),
        37 => Some(("psalm", BibleBook::Psalms)),
        38 => Some(("psalms", BibleBook::Psalms)),
        39 => Some(("pro", BibleBook::Proverbs)),
        40 => Some(("prov", BibleBook::Proverbs)),
        41 => Some(("ecc", BibleBook::Ecclesiastes)),
        42 => Some(("eccl", BibleBook::Ecclesiastes)),
        43 => Some(("sos", BibleBook::SongOfSolomon)),
        44 => Some(("song", BibleBook::SongOfSolomon)),
        45 => Some(("songofsongs", BibleBook::SongOfSolomon)),
        46 => Some(("isa", BibleBook::Isaiah)),
        47 => Some(("jer", BibleBook::Jeremiah)),
        48 => Some(("lam", BibleBook::Lamentations)),
        49 => Some(("ezek", BibleBook::Ezekiel)),
        50 => Some(("eze", BibleBook::Ezekiel)),
        51 => Some(("dan", BibleBook::Daniel)),
        52 => Some(("da", BibleBook::Daniel)),
        53 => Some(("hos", BibleBook::Hosea)),
        54 => Some(("joe", BibleBook::Joel)),
        55 => Some(("amo", BibleBook::Amos)),
        56 => Some(("oba", BibleBook::Obadiah)),
        57 => Some(("obad", BibleBook::Obadiah)),
        58 => Some(("jon", BibleBook::Jonah)),
        59 => Some(("jnh", BibleBook::Jonah)),
        60 => Some(("mic", BibleBook::Micah)),
        61 => Some(("nah", BibleBook::Nahum)),
        62 => Some(("hab", BibleBook::Habakkuk)),
        63 => Some(("zep", BibleBook::Zephaniah)),
        64 => Some(("zeph", BibleBook::Zephaniah)),
        65 => Some(("hag", BibleBook::Haggai)),
        66 => Some(("zec", BibleBook::Zechariah)),
        67 => Some(("zech", BibleBook::Zechariah)),
        68 => Some(("mal", BibleBook::Malachi)),
        69 => Some(("mat", BibleBook::Matthew)),
        70 => Some(("matt", BibleBook::Matthew)),
        71 => Some(("mar", BibleBook::Mark)),
        72 => Some(("mrk", BibleBook::Mark)),
        73 => Some(("luk", BibleBook::Luke)),
        74 => Some(("luke", BibleBook::Luke)),
        75 => Some(("john", BibleBook::John)),
        76 => Some(("jhn", BibleBook::John)),
        77 => Some(("jn", BibleBook::John)),
        78 => Some(("acts", BibleBook::Acts)),
        79 => Some(("ac", BibleBook::Acts)),
        80 => Some(("rom", BibleBook::Romans)),
        81 => Some(("1co", BibleBook::FirstCorinthians)),
        82 => Some(("1cor", BibleBook::FirstCorinthians)),
        83 => Some(("2co", BibleBook::SecondCorinthians)),
        84 => Some(("2cor", BibleBook::SecondCorinthians)),
        85 => Some(("gal", BibleBook::Galatians)),
        86 => Some(("eph", BibleBook::Ephesians)),
        87 => Some(("phil", BibleBook::Philippians)),
        88 => Some(("php", BibleBook::Philippians)),
        89 => Some(("col", BibleBook::Colossians)),
        90 => Some(("1th", BibleBook::FirstThessalonians)),
        91 => Some(("1thes", BibleBook::FirstThessalonians)),
        92 => Some(("2th", BibleBook::SecondThessalonians)),
        93 => Some(("2thes", BibleBook::SecondThessalonians)),
        94 => Some(("1ti", BibleBook::FirstTimothy)),
        95 => Some(("1tim", BibleBook::FirstTimothy)),
        96 => Some(("2ti", BibleBook::SecondTimothy)),
        97 => Some(("2tim", BibleBook::SecondTimothy)),
        98 => Some(("tit", BibleBook::Titus)),
        99 => Some(("phm", BibleBook::Philemon)),
        100 => Some(("phlm", BibleBook::Philemon)),
        101 => Some(("philemon", BibleBook::Philemon)),
        102 => Some(("heb", BibleBook::Hebrews)),
        103 => Some(("jas", BibleBook::James)),
        104 => Some(("jam", BibleBook::James)),
        105 => Some(("1pe", BibleBook::FirstPeter)),
        106 => Some(("1pet", BibleBook::FirstPeter)),
        107 => Some(("2pe", BibleBook::SecondPeter)),
        108 => Some(("2pet", BibleBook::SecondPeter)),
        109 => Some(("1jn", BibleBook::FirstJohn)),
        110 => Some(("1joh", BibleBook::FirstJohn)),
        111 => Some(("2jn", BibleBook::SecondJohn)),
        112 => Some(("2joh", BibleBook::SecondJohn)),
        113 => Some(("3jn", BibleBook::ThirdJohn)),
        114 => Some(("3joh", BibleBook::ThirdJohn)),
        115 => Some(("jud", BibleBook::Jude)),
        116 => Some(("jude", BibleBook::Jude)),
        117 => Some(("rev", BibleBook::Revelation)),
        118 => Some(("revelation", BibleBook::Revelation)),
        // --- Catholic deuterocanon ---
        119 => Some(("tob", BibleBook::Tobit)),
        120 => Some(("jdt", BibleBook::Judith)),
        121 => Some(("wis", BibleBook::Wisdom)),
        122 => Some(("sir", BibleBook::Sirach)),
        123 => Some(("bar", BibleBook::Baruch)),
        124 => Some(("1mac", BibleBook::FirstMaccabees)),
        125 => Some(("2mac", BibleBook::SecondMaccabees)),
        126 => Some(("estg", BibleBook::EstherAdditions)),
        127 => Some(("addesth", BibleBook::EstherAdditions)),
        128 => Some(("dan3", BibleBook::DanielSongOfThree)),
        129 => Some(("sus", BibleBook::DanielSusanna)),
        130 => Some(("bel", BibleBook::DanielBelAndTheDragon)),
        // --- Eastern Orthodox additions ---
        131 => Some(("1esd", BibleBook::FirstEsdras)),
        132 => Some(("2esd", BibleBook::SecondEsdras)),
        133 => Some(("man", BibleBook::PrayerOfManasseh)),
        134 => Some(("prman", BibleBook::PrayerOfManasseh)),
        135 => Some(("ps151", BibleBook::Psalm151)),
        136 => Some(("3mac", BibleBook::ThirdMaccabees)),
        137 => Some(("4mac", BibleBook::FourthMaccabees)),
        _ => None,
    }
}

impl BibleBook {
    /// Looks a spelling up among the alternate abbreviations, in any mix of
    /// upper and lower case.
    pub fn from_alias(token: &str) -> (r: Option<BibleBook>)
        ensures
            r == alias_lookup(lowercase(token@)),
    {
        let lower = to_ascii_lowercase(token);
        let mut i: usize = 0;
        while i < ALIAS_COUNT
            invariant
                i <= ALIAS_COUNT,
                lower@ == lowercase(token@),
                alias_lookup(lower@) == alias_lookup_from(lower@, i as int),
            decreases ALIAS_COUNT - i,
        {
            match alias_entry(i) {
                Some(entry) => {
                    if lower.as_str().eq(entry.0) {
                        return Some(entry.1);
                    }
                },
                None => {},
            }
            i += 1;
        }
        None
    }
}

} // verus!
