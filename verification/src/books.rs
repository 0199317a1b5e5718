//! The 66 books of the Bible (names, abbreviations, Bolls API numbers,
//! chapter counts), their names in other languages, and the name matching
//! that turns what a reader types into a book.

use vstd::prelude::*;
use crate::text::{
    char_is_whitespace, char_lowercase, chars_of, is_ascii_digit, lower_of, string_from,
    trim_bounds, trimmed, ascii_digit, ascii_lowercase, is_white_space, trim_start, trim_end,
};

verus! {

/// One book of the Bible.
#[derive(Debug, Clone, Copy)]
pub struct BookInfo {
    pub name: &'static str,
    pub abbrevs: &'static [&'static str],
    pub bolls_id: u32,
    pub chapters: u32,
}

/// Number of books in the canon.
pub const BOOK_COUNT: usize = 66;

/// The book at `i` (0 = Genesis, 65 = Revelation).
pub open spec fn spec_book(i: int) -> BookInfo {
    if i == 0 {
        BookInfo { name: "Genesis", abbrevs: &["gen", "ge", "gn"], bolls_id: 1, chapters: 50 }
    } else if i == 1 {
        BookInfo { name: "Exodus", abbrevs: &["exo", "ex", "exod"], bolls_id: 2, chapters: 40 }
    } else if i == 2 {
        BookInfo { name: "Leviticus", abbrevs: &["lev", "le", "lv"], bolls_id: 3, chapters: 27 }
    } else if i == 3 {
        BookInfo { name: "Numbers", abbrevs: &["num", "nu", "nm", "nb"], bolls_id: 4, chapters: 36 }
    } else if i == 4 {
        BookInfo { name: "Deuteronomy", abbrevs: &["deu", "de", "dt", "deut"], bolls_id: 5, chapters: 34 }
    } else if i == 5 {
        BookInfo { name: "Joshua", abbrevs: &["jos", "josh", "jsh"], bolls_id: 6, chapters: 24 }
    } else if i == 6 {
        BookInfo { name: "Judges", abbrevs: &["jdg", "judg", "jg", "jdgs"], bolls_id: 7, chapters: 21 }
    } else if i == 7 {
        BookInfo { name: "Ruth", abbrevs: &["rut", "ru", "rth"], bolls_id: 8, chapters: 4 }
    } else if i == 8 {
        BookInfo { name: "1 Samuel", abbrevs: &["1sa", "1sam", "1sm"], bolls_id: 9, chapters: 31 }
    } else if i == 9 {
        BookInfo { name: "2 Samuel", abbrevs: &["2sa", "2sam", "2sm"], bolls_id: 10, chapters: 24 }
    } else if i == 10 {
        BookInfo { name: "1 Kings", abbrevs: &["1ki", "1kgs", "1kin"], bolls_id: 11, chapters: 22 }
    } else if i == 11 {
        BookInfo { name: "2 Kings", abbrevs: &["2ki", "2kgs", "2kin"], bolls_id: 12, chapters: 25 }
    } else if i == 12 {
        BookInfo { name: "1 Chronicles", abbrevs: &["1ch", "1chr", "1chron"], bolls_id: 13, chapters: 29 }
    } else if i == 13 {
        BookInfo { name: "2 Chronicles", abbrevs: &["2ch", "2chr", "2chron"], bolls_id: 14, chapters: 36 }
    } else if i == 14 {
        BookInfo { name: "Ezra", abbrevs: &["ezr", "ez"], bolls_id: 15, chapters: 10 }
    } else if i == 15 {
        BookInfo { name: "Nehemiah", abbrevs: &["neh", "ne"], bolls_id: 16, chapters: 13 }
    } else if i == 16 {
        BookInfo { name: "Esther", abbrevs: &["est", "esth"], bolls_id: 17, chapters: 10 }
    } else if i == 17 {
        BookInfo { name: "Job", abbrevs: &["job", "jb"], bolls_id: 18, chapters: 42 }
    } else if i == 18 {
        BookInfo { name: "Psalms", abbrevs: &["psa", "ps", "psalm", "psm", "pss"], bolls_id: 19, chapters: 150 }
    } else if i == 19 {
        BookInfo { name: "Proverbs", abbrevs: &["pro", "pr", "prov", "prv"], bolls_id: 20, chapters: 31 }
    } else if i == 20 {
        BookInfo { name: "Ecclesiastes", abbrevs: &["ecc", "ec", "eccl", "eccles"], bolls_id: 21, chapters: 12 }
    } else if i == 21 {
        BookInfo { name: "Song of Solomon", abbrevs: &["sng", "sos", "song", "sol"], bolls_id: 22, chapters: 8 }
    } else if i == 22 {
        BookInfo { name: "Isaiah", abbrevs: &["isa", "is"], bolls_id: 23, chapters: 66 }
    } else if i == 23 {
        BookInfo { name: "Jeremiah", abbrevs: &["jer", "je", "jr"], bolls_id: 24, chapters: 52 }
    } else if i == 24 {
        BookInfo { name: "Lamentations", abbrevs: &["lam", "la"], bolls_id: 25, chapters: 5 }
    } else if i == 25 {
        BookInfo { name: "Ezekiel", abbrevs: &["ezk", "eze", "ezek"], bolls_id: 26, chapters: 48 }
    } else if i == 26 {
        BookInfo { name: "Daniel", abbrevs: &["dan", "da", "dn"], bolls_id: 27, chapters: 12 }
    } else if i == 27 {
        BookInfo { name: "Hosea", abbrevs: &["hos", "ho"], bolls_id: 28, chapters: 14 }
    } else if i == 28 {
        BookInfo { name: "Joel", abbrevs: &["joe", "jl", "joel"], bolls_id: 29, chapters: 3 }
    } else if i == 29 {
        BookInfo { name: "Amos", abbrevs: &["amo", "am"], bolls_id: 30, chapters: 9 }
    } else if i == 30 {
        BookInfo { name: "Obadiah", abbrevs: &["oba", "ob", "obad"], bolls_id: 31, chapters: 1 }
    } else if i == 31 {
        BookInfo { name: "Jonah", abbrevs: &["jon", "jnh"], bolls_id: 32, chapters: 4 }
    } else if i == 32 {
        BookInfo { name: "Micah", abbrevs: &["mic", "mc"], bolls_id: 33, chapters: 7 }
    } else if i == 33 {
        BookInfo { name: "Nahum", abbrevs: &["nah", "na"], bolls_id: 34, chapters: 3 }
    } else if i == 34 {
        BookInfo { name: "Habakkuk", abbrevs: &["hab", "hb"], bolls_id: 35, chapters: 3 }
    } else if i == 35 {
        BookInfo { name: "Zephaniah", abbrevs: &["zep", "zp", "zeph"], bolls_id: 36, chapters: 3 }
    } else if i == 36 {
        BookInfo { name: "Haggai", abbrevs: &["hag", "hg"], bolls_id: 37, chapters: 2 }
    } else if i == 37 {
        BookInfo { name: "Zechariah", abbrevs: &["zec", "zc", "zech"], bolls_id: 38, chapters: 14 }
    } else if i == 38 {
        BookInfo { name: "Malachi", abbrevs: &["mal", "ml"], bolls_id: 39, chapters: 4 }
    } else if i == 39 {
        BookInfo { name: "Matthew", abbrevs: &["mat", "mt", "matt"], bolls_id: 40, chapters: 28 }
    } else if i == 40 {
        BookInfo { name: "Mark", abbrevs: &["mrk", "mk", "mar"], bolls_id: 41, chapters: 16 }
    } else if i == 41 {
        BookInfo { name: "Luke", abbrevs: &["luk", "lk", "lu"], bolls_id: 42, chapters: 24 }
    } else if i == 42 {
        BookInfo { name: "John", abbrevs: &["jhn", "jn", "joh"], bolls_id: 43, chapters: 21 }
    } else if i == 43 {
        BookInfo { name: "Acts", abbrevs: &["act", "ac"], bolls_id: 44, chapters: 28 }
    } else if i == 44 {
        BookInfo { name: "Romans", abbrevs: &["rom", "ro", "rm"], bolls_id: 45, chapters: 16 }
    } else if i == 45 {
        BookInfo { name: "1 Corinthians", abbrevs: &["1co", "1cor"], bolls_id: 46, chapters: 16 }
    } else if i == 46 {
        BookInfo { name: "2 Corinthians", abbrevs: &["2co", "2cor"], bolls_id: 47, chapters: 13 }
    } else if i == 47 {
        BookInfo { name: "Galatians", abbrevs: &["gal", "ga"], bolls_id: 48, chapters: 6 }
    } else if i == 48 {
        BookInfo { name: "Ephesians", abbrevs: &["eph", "ep"], bolls_id: 49, chapters: 6 }
    } else if i == 49 {
        BookInfo { name: "Philippians", abbrevs: &["php", "phil", "pp"], bolls_id: 50, chapters: 4 }
    } else if i == 50 {
        BookInfo { name: "Colossians", abbrevs: &["col", "co"], bolls_id: 51, chapters: 4 }
    } else if i == 51 {
        BookInfo { name: "1 Thessalonians", abbrevs: &["1th", "1thess", "1thes"], bolls_id: 52, chapters: 5 }
    } else if i == 52 {
        BookInfo { name: "2 Thessalonians", abbrevs: &["2th", "2thess", "2thes"], bolls_id: 53, chapters: 3 }
    } else if i == 53 {
        BookInfo { name: "1 Timothy", abbrevs: &["1ti", "1tim"], bolls_id: 54, chapters: 6 }
    } else if i == 54 {
        BookInfo { name: "2 Timothy", abbrevs: &["2ti", "2tim"], bolls_id: 55, chapters: 4 }
    } else if i == 55 {
        BookInfo { name: "Titus", abbrevs: &["tit", "ti"], bolls_id: 56, chapters: 3 }
    } else if i == 56 {
        BookInfo { name: "Philemon", abbrevs: &["phm", "philem"], bolls_id: 57, chapters: 1 }
    } else if i == 57 {
        BookInfo { name: "Hebrews", abbrevs: &["heb", "he"], bolls_id: 58, chapters: 13 }
    } else if i == 58 {
        BookInfo { name: "James", abbrevs: &["jas", "jm", "jam"], bolls_id: 59, chapters: 5 }
    } else if i == 59 {
        BookInfo { name: "1 Peter", abbrevs: &["1pe", "1pet", "1pt"], bolls_id: 60, chapters: 5 }
    } else if i == 60 {
        BookInfo { name: "2 Peter", abbrevs: &["2pe", "2pet", "2pt"], bolls_id: 61, chapters: 3 }
    } else if i == 61 {
        BookInfo { name: "1 John", abbrevs: &["1jn", "1jo", "1john"], bolls_id: 62, chapters: 5 }
    } else if i == 62 {
        BookInfo { name: "2 John", abbrevs: &["2jn", "2jo", "2john"], bolls_id: 63, chapters: 1 }
    } else if i == 63 {
        BookInfo { name: "3 John", abbrevs: &["3jn", "3jo", "3john"], bolls_id: 64, chapters: 1 }
    } else if i == 64 {
        BookInfo { name: "Jude", abbrevs: &["jud", "jde"], bolls_id: 65, chapters: 1 }
    } else {
        BookInfo { name: "Revelation", abbrevs: &["rev", "re", "rv"], bolls_id: 66, chapters: 22 }
    }
}

/// The book at index `i` (0 = Genesis, 65 = Revelation).
pub fn book(i: usize) -> (b: BookInfo)
    requires
        i < BOOK_COUNT,
    ensures
        b == spec_book(i as int),
{
    if i == 0 {
        BookInfo { name: "Genesis", abbrevs: &["gen", "ge", "gn"], bolls_id: 1, chapters: 50 }
    } else if i == 1 {
        BookInfo { name: "Exodus", abbrevs: &["exo", "ex", "exod"], bolls_id: 2, chapters: 40 }
    } else if i == 2 {
        BookInfo { name: "Leviticus", abbrevs: &["lev", "le", "lv"], bolls_id: 3, chapters: 27 }
    } else if i == 3 {
        BookInfo { name: "Numbers", abbrevs: &["num", "nu", "nm", "nb"], bolls_id: 4, chapters: 36 }
    } else if i == 4 {
        BookInfo { name: "Deuteronomy", abbrevs: &["deu", "de", "dt", "deut"], bolls_id: 5, chapters: 34 }
    } else if i == 5 {
        BookInfo { name: "Joshua", abbrevs: &["jos", "josh", "jsh"], bolls_id: 6, chapters: 24 }
    } else if i == 6 {
        BookInfo { name: "Judges", abbrevs: &["jdg", "judg", "jg", "jdgs"], bolls_id: 7, chapters: 21 }
    } else if i == 7 {
        BookInfo { name: "Ruth", abbrevs: &["rut", "ru", "rth"], bolls_id: 8, chapters: 4 }
    } else if i == 8 {
        BookInfo { name: "1 Samuel", abbrevs: &["1sa", "1sam", "1sm"], bolls_id: 9, chapters: 31 }
    } else if i == 9 {
        BookInfo { name: "2 Samuel", abbrevs: &["2sa", "2sam", "2sm"], bolls_id: 10, chapters: 24 }
    } else if i == 10 {
        BookInfo { name: "1 Kings", abbrevs: &["1ki", "1kgs", "1kin"], bolls_id: 11, chapters: 22 }
    } else if i == 11 {
        BookInfo { name: "2 Kings", abbrevs: &["2ki", "2kgs", "2kin"], bolls_id: 12, chapters: 25 }
    } else if i == 12 {
        BookInfo { name: "1 Chronicles", abbrevs: &["1ch", "1chr", "1chron"], bolls_id: 13, chapters: 29 }
    } else if i == 13 {
        BookInfo { name: "2 Chronicles", abbrevs: &["2ch", "2chr", "2chron"], bolls_id: 14, chapters: 36 }
    } else if i == 14 {
        BookInfo { name: "Ezra", abbrevs: &["ezr", "ez"], bolls_id: 15, chapters: 10 }
    } else if i == 15 {
        BookInfo { name: "Nehemiah", abbrevs: &["neh", "ne"], bolls_id: 16, chapters: 13 }
    } else if i == 16 {
        BookInfo { name: "Esther", abbrevs: &["est", "esth"], bolls_id: 17, chapters: 10 }
    } else if i == 17 {
        BookInfo { name: "Job", abbrevs: &["job", "jb"], bolls_id: 18, chapters: 42 }
    } else if i == 18 {
        BookInfo { name: "Psalms", abbrevs: &["psa", "ps", "psalm", "psm", "pss"], bolls_id: 19, chapters: 150 }
    } else if i == 19 {
        BookInfo { name: "Proverbs", abbrevs: &["pro", "pr", "prov", "prv"], bolls_id: 20, chapters: 31 }
    } else if i == 20 {
        BookInfo { name: "Ecclesiastes", abbrevs: &["ecc", "ec", "eccl", "eccles"], bolls_id: 21, chapters: 12 }
    } else if i == 21 {
        BookInfo { name: "Song of Solomon", abbrevs: &["sng", "sos", "song", "sol"], bolls_id: 22, chapters: 8 }
    } else if i == 22 {
        BookInfo { name: "Isaiah", abbrevs: &["isa", "is"], bolls_id: 23, chapters: 66 }
    } else if i == 23 {
        BookInfo { name: "Jeremiah", abbrevs: &["jer", "je", "jr"], bolls_id: 24, chapters: 52 }
    } else if i == 24 {
        BookInfo { name: "Lamentations", abbrevs: &["lam", "la"], bolls_id: 25, chapters: 5 }
    } else if i == 25 {
        BookInfo { name: "Ezekiel", abbrevs: &["ezk", "eze", "ezek"], bolls_id: 26, chapters: 48 }
    } else if i == 26 {
        BookInfo { name: "Daniel", abbrevs: &["dan", "da", "dn"], bolls_id: 27, chapters: 12 }
    } else if i == 27 {
        BookInfo { name: "Hosea", abbrevs: &["hos", "ho"], bolls_id: 28, chapters: 14 }
    } else if i == 28 {
        BookInfo { name: "Joel", abbrevs: &["joe", "jl", "joel"], bolls_id: 29, chapters: 3 }
    } else if i == 29 {
        BookInfo { name: "Amos", abbrevs: &["amo", "am"], bolls_id: 30, chapters: 9 }
    } else if i == 30 {
        BookInfo { name: "Obadiah", abbrevs: &["oba", "ob", "obad"], bolls_id: 31, chapters: 1 }
    } else if i == 31 {
        BookInfo { name: "Jonah", abbrevs: &["jon", "jnh"], bolls_id: 32, chapters: 4 }
    } else if i == 32 {
        BookInfo { name: "Micah", abbrevs: &["mic", "mc"], bolls_id: 33, chapters: 7 }
    } else if i == 33 {
        BookInfo { name: "Nahum", abbrevs: &["nah", "na"], bolls_id: 34, chapters: 3 }
    } else if i == 34 {
        BookInfo { name: "Habakkuk", abbrevs: &["hab", "hb"], bolls_id: 35, chapters: 3 }
    } else if i == 35 {
        BookInfo { name: "Zephaniah", abbrevs: &["zep", "zp", "zeph"], bolls_id: 36, chapters: 3 }
    } else if i == 36 {
        BookInfo { name: "Haggai", abbrevs: &["hag", "hg"], bolls_id: 37, chapters: 2 }
    } else if i == 37 {
        BookInfo { name: "Zechariah", abbrevs: &["zec", "zc", "zech"], bolls_id: 38, chapters: 14 }
    } else if i == 38 {
        BookInfo { name: "Malachi", abbrevs: &["mal", "ml"], bolls_id: 39, chapters: 4 }
    } else if i == 39 {
        BookInfo { name: "Matthew", abbrevs: &["mat", "mt", "matt"], bolls_id: 40, chapters: 28 }
    } else if i == 40 {
        BookInfo { name: "Mark", abbrevs: &["mrk", "mk", "mar"], bolls_id: 41, chapters: 16 }
    } else if i == 41 {
        BookInfo { name: "Luke", abbrevs: &["luk", "lk", "lu"], bolls_id: 42, chapters: 24 }
    } else if i == 42 {
        BookInfo { name: "John", abbrevs: &["jhn", "jn", "joh"], bolls_id: 43, chapters: 21 }
    } else if i == 43 {
        BookInfo { name: "Acts", abbrevs: &["act", "ac"], bolls_id: 44, chapters: 28 }
    } else if i == 44 {
        BookInfo { name: "Romans", abbrevs: &["rom", "ro", "rm"], bolls_id: 45, chapters: 16 }
    } else if i == 45 {
        BookInfo { name: "1 Corinthians", abbrevs: &["1co", "1cor"], bolls_id: 46, chapters: 16 }
    } else if i == 46 {
        BookInfo { name: "2 Corinthians", abbrevs: &["2co", "2cor"], bolls_id: 47, chapters: 13 }
    } else if i == 47 {
        BookInfo { name: "Galatians", abbrevs: &["gal", "ga"], bolls_id: 48, chapters: 6 }
    } else if i == 48 {
        BookInfo { name: "Ephesians", abbrevs: &["eph", "ep"], bolls_id: 49, chapters: 6 }
    } else if i == 49 {
        BookInfo { name: "Philippians", abbrevs: &["php", "phil", "pp"], bolls_id: 50, chapters: 4 }
    } else if i == 50 {
        BookInfo { name: "Colossians", abbrevs: &["col", "co"], bolls_id: 51, chapters: 4 }
    } else if i == 51 {
        BookInfo { name: "1 Thessalonians", abbrevs: &["1th", "1thess", "1thes"], bolls_id: 52, chapters: 5 }
    } else if i == 52 {
        BookInfo { name: "2 Thessalonians", abbrevs: &["2th", "2thess", "2thes"], bolls_id: 53, chapters: 3 }
    } else if i == 53 {
        BookInfo { name: "1 Timothy", abbrevs: &["1ti", "1tim"], bolls_id: 54, chapters: 6 }
    } else if i == 54 {
        BookInfo { name: "2 Timothy", abbrevs: &["2ti", "2tim"], bolls_id: 55, chapters: 4 }
    } else if i == 55 {
        BookInfo { name: "Titus", abbrevs: &["tit", "ti"], bolls_id: 56, chapters: 3 }
    } else if i == 56 {
        BookInfo { name: "Philemon", abbrevs: &["phm", "philem"], bolls_id: 57, chapters: 1 }
    } else if i == 57 {
        BookInfo { name: "Hebrews", abbrevs: &["heb", "he"], bolls_id: 58, chapters: 13 }
    } else if i == 58 {
        BookInfo { name: "James", abbrevs: &["jas", "jm", "jam"], bolls_id: 59, chapters: 5 }
    } else if i == 59 {
        BookInfo { name: "1 Peter", abbrevs: &["1pe", "1pet", "1pt"], bolls_id: 60, chapters: 5 }
    } else if i == 60 {
        BookInfo { name: "2 Peter", abbrevs: &["2pe", "2pet", "2pt"], bolls_id: 61, chapters: 3 }
    } else if i == 61 {
        BookInfo { name: "1 John", abbrevs: &["1jn", "1jo", "1john"], bolls_id: 62, chapters: 5 }
    } else if i == 62 {
        BookInfo { name: "2 John", abbrevs: &["2jn", "2jo", "2john"], bolls_id: 63, chapters: 1 }
    } else if i == 63 {
        BookInfo { name: "3 John", abbrevs: &["3jn", "3jo", "3john"], bolls_id: 64, chapters: 1 }
    } else if i == 64 {
        BookInfo { name: "Jude", abbrevs: &["jud", "jde"], bolls_id: 65, chapters: 1 }
    } else {
        BookInfo { name: "Revelation", abbrevs: &["rev", "re", "rv"], bolls_id: 66, chapters: 22 }
    }
}

// ---------------------------------------------------------------------------
// Canonical forms of names
// ---------------------------------------------------------------------------

/// Punctuation and spaces that canonical forms leave out.
pub open spec fn is_dropped(c: char) -> bool {
    c == '.' || c == ' ' || c == '-' || c == '\'' || c == '\u{2019}' || c == '\u{02bc}'
}

/// What one lowercased char becomes in the diacritic-folding canonical form.
pub open spec fn fold_char(c: char) -> Seq<char> {
    if is_dropped(c) || ('\u{0300}' <= c && c <= '\u{036f}') {
        seq![]
    } else if c == 'á' || c == 'à' || c == 'â' || c == 'ã' || c == 'ä' || c == 'å' || c == 'ā'
        || c == 'ă' || c == 'ą' {
        seq!['a']
    } else if c == 'ç' || c == 'ć' || c == 'č' {
        seq!['c']
    } else if c == 'é' || c == 'è' || c == 'ê' || c == 'ë' || c == 'ē' || c == 'ė' || c == 'ę'
        || c == 'ě' {
        seq!['e']
    } else if c == 'í' || c == 'ì' || c == 'î' || c == 'ï' || c == 'ī' || c == 'į' {
        seq!['i']
    } else if c == 'ñ' || c == 'ń' || c == 'ň' {
        seq!['n']
    } else if c == 'ó' || c == 'ò' || c == 'ô' || c == 'õ' || c == 'ö' || c == 'ø' || c == 'ō' {
        seq!['o']
    } else if c == 'ú' || c == 'ù' || c == 'û' || c == 'ü' || c == 'ū' || c == 'ů' {
        seq!['u']
    } else if c == 'ý' || c == 'ÿ' {
        seq!['y']
    } else if c == 'š' || c == 'ś' {
        seq!['s']
    } else if c == 'ž' || c == 'ź' || c == 'ż' {
        seq!['z']
    } else if c == 'ł' {
        seq!['l']
    } else if c == 'ß' {
        seq!['s', 's']
    } else if c == 'ё' {
        seq!['е']
    } else {
        seq![c]
    }
}

/// What one lowercased char becomes in the strict canonical form
/// (diacritics kept).
pub open spec fn strict_char(c: char) -> Seq<char> {
    if is_dropped(c) {
        seq![]
    } else {
        seq![c]
    }
}

/// `fold_char` applied to every char of `cs`, concatenated.
pub open spec fn fold_all(cs: Seq<char>) -> Seq<char>
    decreases cs.len(),
{
    if cs.len() == 0 {
        seq![]
    } else {
        fold_all(cs.drop_last()) + fold_char(cs.last())
    }
}

/// `strict_char` applied to every char of `cs`, concatenated.
pub open spec fn strict_all(cs: Seq<char>) -> Seq<char>
    decreases cs.len(),
{
    if cs.len() == 0 {
        seq![]
    } else {
        strict_all(cs.drop_last()) + strict_char(cs.last())
    }
}

/// Each char lowercased and then folded, concatenated.
pub open spec fn canon_of(s: Seq<char>) -> Seq<char>
    decreases s.len(),
{
    if s.len() == 0 {
        seq![]
    } else {
        canon_of(s.drop_last()) + fold_all(lower_of(s.last()))
    }
}

/// Each char lowercased with the dropped punctuation left out, concatenated.
pub open spec fn strict_of(s: Seq<char>) -> Seq<char>
    decreases s.len(),
{
    if s.len() == 0 {
        seq![]
    } else {
        strict_of(s.drop_last()) + strict_all(lower_of(s.last()))
    }
}

/// The canonical form used for matching: trimmed, lowercased, Latin
/// diacritics folded, dots, spaces, hyphens and apostrophes dropped.
pub open spec fn canon_spec(s: Seq<char>) -> Seq<char> {
    canon_of(trimmed(s))
}

/// Like `canon_spec`, but with diacritics preserved.
pub open spec fn canon_strict_spec(s: Seq<char>) -> Seq<char> {
    strict_of(trimmed(s))
}

fn fold_into(out: &mut Vec<char>, c: char)
    ensures
        final(out)@ == old(out)@ + fold_char(c),
{
    if c == '.' || c == ' ' || c == '-' || c == '\'' || c == '\u{2019}' || c == '\u{02bc}' || (
    '\u{0300}' <= c && c <= '\u{036f}') {
    } else if c == 'á' || c == 'à' || c == 'â' || c == 'ã' || c == 'ä' || c == 'å' || c == 'ā'
        || c == 'ă' || c == 'ą' {
        out.push('a');
    } else if c == 'ç' || c == 'ć' || c == 'č' {
        out.push('c');
    } else if c == 'é' || c == 'è' || c == 'ê' || c == 'ë' || c == 'ē' || c == 'ė' || c == 'ę'
        || c == 'ě' {
        out.push('e');
    } else if c == 'í' || c == 'ì' || c == 'î' || c == 'ï' || c == 'ī' || c == 'į' {
        out.push('i');
    } else if c == 'ñ' || c == 'ń' || c == 'ň' {
        out.push('n');
    } else if c == 'ó' || c == 'ò' || c == 'ô' || c == 'õ' || c == 'ö' || c == 'ø' || c == 'ō' {
        out.push('o');
    } else if c == 'ú' || c == 'ù' || c == 'û' || c == 'ü' || c == 'ū' || c == 'ů' {
        out.push('u');
    } else if c == 'ý' || c == 'ÿ' {
        out.push('y');
    } else if c == 'š' || c == 'ś' {
        out.push('s');
    } else if c == 'ž' || c == 'ź' || c == 'ż' {
        out.push('z');
    } else if c == 'ł' {
        out.push('l');
    } else if c == 'ß' {
        out.push('s');
        out.push('s');
    } else if c == 'ё' {
        out.push('е');
    } else {
        out.push(c);
    }
    assert(final(out)@ =~= old(out)@ + fold_char(c));
}

/// The canonical form of the chars `s` (see `canon_spec`).
pub fn canon_chars(s: &[char]) -> (r: Vec<char>)
    ensures
        r@ == canon_spec(s@),
{
    let (a, b) = trim_bounds(s);
    let ghost t = s@.subrange(a as int, b as int);
    let mut out: Vec<char> = Vec::new();
    let mut i: usize = a;
    while i < b
        invariant
            a <= i <= b <= s@.len(),
            t == s@.subrange(a as int, b as int),
            out@ == canon_of(t.take(i - a)),
        decreases b - i,
    {
        let low = char_lowercase(s[i]);
        let ghost before = out@;
        let mut j: usize = 0;
        while j < low.len()
            invariant
                j <= low@.len(),
                out@ == before + fold_all(low@.take(j as int)),
            decreases low@.len() - j,
        {
            fold_into(&mut out, low[j]);
            assert(low@.take(j + 1).drop_last() =~= low@.take(j as int));
            j += 1;
        }
        assert(low@.take(low@.len() as int) =~= low@);
        assert(t.take(i + 1 - a).drop_last() =~= t.take(i - a));
        i += 1;
    }
    assert(t.take(b - a) =~= t);
    out
}

/// Canonicalize a book name for matching: lowercase, fold Latin
/// diacritics, and drop dots, spaces, hyphens and apostrophes. "João" and
/// "joao" (or "1. Mose" and "1 mose") canonicalize identically.
pub fn canon(input: &str) -> (r: String)
    ensures
        r@ == canon_spec(input@),
{
    let v = chars_of(input);
    let c = canon_chars(v.as_slice());
    string_from(c.as_slice())
}

/// The strict canonical form of the chars `s` (see `canon_strict_spec`).
pub fn canon_strict_chars(s: &[char]) -> (r: Vec<char>)
    ensures
        r@ == canon_strict_spec(s@),
{
    let (a, b) = trim_bounds(s);
    let ghost t = s@.subrange(a as int, b as int);
    let mut out: Vec<char> = Vec::new();
    let mut i: usize = a;
    while i < b
        invariant
            a <= i <= b <= s@.len(),
            t == s@.subrange(a as int, b as int),
            out@ == strict_of(t.take(i - a)),
        decreases b - i,
    {
        let low = char_lowercase(s[i]);
        let ghost before = out@;
        let mut j: usize = 0;
        while j < low.len()
            invariant
                j <= low@.len(),
                out@ == before + strict_all(low@.take(j as int)),
            decreases low@.len() - j,
        {
            let c = low[j];
            if !(c == '.' || c == ' ' || c == '-' || c == '\'' || c == '\u{2019}' || c
                == '\u{02bc}') {
                out.push(c);
            }
            assert(low@.take(j + 1).drop_last() =~= low@.take(j as int));
            assert(out@ =~= before + strict_all(low@.take(j + 1)));
            j += 1;
        }
        assert(low@.take(low@.len() as int) =~= low@);
        assert(t.take(i + 1 - a).drop_last() =~= t.take(i - a));
        i += 1;
    }
    assert(t.take(b - a) =~= t);
    out
}

/// Like `canon`, but diacritics are preserved ("Jó" -> "jó"), so an
/// accented name (Portuguese Jó = Job) stays distinct from a same-letters
/// abbreviation (Jo = João/John).
pub fn canon_strict(input: &str) -> (r: String)
    ensures
        r@ == canon_strict_spec(input@),
{
    let v = chars_of(input);
    let c = canon_strict_chars(v.as_slice());
    string_from(c.as_slice())
}

// ---------------------------------------------------------------------------
// Localized names
// ---------------------------------------------------------------------------

/// Languages with a full table of the 66 book names: Portuguese, Spanish,
/// French, German, Italian, Dutch, Ukrainian, Russian, Chinese (simplified
/// and traditional), Korean, Japanese.
pub const NAME_LANGS: usize = 12;

/// Entries of the localized table: one per (language, book), then the
/// extra abbreviations and alternative names.
pub const LOCALIZED_COUNT: usize = 801;

pub open spec fn spec_names_pt(b: int) -> &'static str {
    if b == 0 {
        "Gênesis"
    } else if b == 1 {
        "Êxodo"
    } else if b == 2 {
        "Levítico"
    } else if b == 3 {
        "Números"
    } else if b == 4 {
        "Deuteronômio"
    } else if b == 5 {
        "Josué"
    } else if b == 6 {
        "Juízes"
    } else if b == 7 {
        "Rute"
    } else if b == 8 {
        "1 Samuel"
    } else if b == 9 {
        "2 Samuel"
    } else if b == 10 {
        "1 Reis"
    } else if b == 11 {
        "2 Reis"
    } else if b == 12 {
        "1 Crônicas"
    } else if b == 13 {
        "2 Crônicas"
    } else if b == 14 {
        "Esdras"
    } else if b == 15 {
        "Neemias"
    } else if b == 16 {
        "Ester"
    } else if b == 17 {
        "Jó"
    } else if b == 18 {
        "Salmos"
    } else if b == 19 {
        "Provérbios"
    } else if b == 20 {
        "Eclesiastes"
    } else if b == 21 {
        "Cantares"
    } else if b == 22 {
        "Isaías"
    } else if b == 23 {
        "Jeremias"
    } else if b == 24 {
        "Lamentações"
    } else if b == 25 {
        "Ezequiel"
    } else if b == 26 {
        "Daniel"
    } else if b == 27 {
        "Oséias"
    } else if b == 28 {
        "Joel"
    } else if b == 29 {
        "Amós"
    } else if b == 30 {
        "Obadias"
    } else if b == 31 {
        "Jonas"
    } else if b == 32 {
        "Miquéias"
    } else if b == 33 {
        "Naum"
    } else if b == 34 {
        "Habacuque"
    } else if b == 35 {
        "Sofonias"
    } else if b == 36 {
        "Ageu"
    } else if b == 37 {
        "Zacarias"
    } else if b == 38 {
        "Malaquias"
    } else if b == 39 {
        "Mateus"
    } else if b == 40 {
        "Marcos"
    } else if b == 41 {
        "Lucas"
    } else if b == 42 {
        "João"
    } else if b == 43 {
        "Atos"
    } else if b == 44 {
        "Romanos"
    } else if b == 45 {
        "1 Coríntios"
    } else if b == 46 {
        "2 Coríntios"
    } else if b == 47 {
        "Gálatas"
    } else if b == 48 {
        "Efésios"
    } else if b == 49 {
        "Filipenses"
    } else if b == 50 {
        "Colossenses"
    } else if b == 51 {
        "1 Tessalonicenses"
    } else if b == 52 {
        "2 Tessalonicenses"
    } else if b == 53 {
        "1 Timóteo"
    } else if b == 54 {
        "2 Timóteo"
    } else if b == 55 {
        "Tito"
    } else if b == 56 {
        "Filemom"
    } else if b == 57 {
        "Hebreus"
    } else if b == 58 {
        "Tiago"
    } else if b == 59 {
        "1 Pedro"
    } else if b == 60 {
        "2 Pedro"
    } else if b == 61 {
        "1 João"
    } else if b == 62 {
        "2 João"
    } else if b == 63 {
        "3 João"
    } else if b == 64 {
        "Judas"
    } else {
        "Apocalipse"
    }
}

pub open spec fn spec_names_es(b: int) -> &'static str {
    if b == 0 {
        "Génesis"
    } else if b == 1 {
        "Éxodo"
    } else if b == 2 {
        "Levítico"
    } else if b == 3 {
        "Números"
    } else if b == 4 {
        "Deuteronomio"
    } else if b == 5 {
        "Josué"
    } else if b == 6 {
        "Jueces"
    } else if b == 7 {
        "Rut"
    } else if b == 8 {
        "1 Samuel"
    } else if b == 9 {
        "2 Samuel"
    } else if b == 10 {
        "1 Reyes"
    } else if b == 11 {
        "2 Reyes"
    } else if b == 12 {
        "1 Crónicas"
    } else if b == 13 {
        "2 Crónicas"
    } else if b == 14 {
        "Esdras"
    } else if b == 15 {
        "Nehemías"
    } else if b == 16 {
        "Ester"
    } else if b == 17 {
        "Job"
    } else if b == 18 {
        "Salmos"
    } else if b == 19 {
        "Proverbios"
    } else if b == 20 {
        "Eclesiastés"
    } else if b == 21 {
        "Cantares"
    } else if b == 22 {
        "Isaías"
    } else if b == 23 {
        "Jeremías"
    } else if b == 24 {
        "Lamentaciones"
    } else if b == 25 {
        "Ezequiel"
    } else if b == 26 {
        "Daniel"
    } else if b == 27 {
        "Oseas"
    } else if b == 28 {
        "Joel"
    } else if b == 29 {
        "Amós"
    } else if b == 30 {
        "Abdías"
    } else if b == 31 {
        "Jonás"
    } else if b == 32 {
        "Miqueas"
    } else if b == 33 {
        "Nahúm"
    } else if b == 34 {
        "Habacuc"
    } else if b == 35 {
        "Sofonías"
    } else if b == 36 {
        "Hageo"
    } else if b == 37 {
        "Zacarías"
    } else if b == 38 {
        "Malaquías"
    } else if b == 39 {
        "Mateo"
    } else if b == 40 {
        "Marcos"
    } else if b == 41 {
        "Lucas"
    } else if b == 42 {
        "Juan"
    } else if b == 43 {
        "Hechos"
    } else if b == 44 {
        "Romanos"
    } else if b == 45 {
        "1 Corintios"
    } else if b == 46 {
        "2 Corintios"
    } else if b == 47 {
        "Gálatas"
    } else if b == 48 {
        "Efesios"
    } else if b == 49 {
        "Filipenses"
    } else if b == 50 {
        "Colosenses"
    } else if b == 51 {
        "1 Tesalonicenses"
    } else if b == 52 {
        "2 Tesalonicenses"
    } else if b == 53 {
        "1 Timoteo"
    } else if b == 54 {
        "2 Timoteo"
    } else if b == 55 {
        "Tito"
    } else if b == 56 {
        "Filemón"
    } else if b == 57 {
        "Hebreos"
    } else if b == 58 {
        "Santiago"
    } else if b == 59 {
        "1 Pedro"
    } else if b == 60 {
        "2 Pedro"
    } else if b == 61 {
        "1 Juan"
    } else if b == 62 {
        "2 Juan"
    } else if b == 63 {
        "3 Juan"
    } else if b == 64 {
        "Judas"
    } else {
        "Apocalipsis"
    }
}

pub open spec fn spec_names_fr(b: int) -> &'static str {
    if b == 0 {
        "Genèse"
    } else if b == 1 {
        "Exode"
    } else if b == 2 {
        "Lévitique"
    } else if b == 3 {
        "Nombres"
    } else if b == 4 {
        "Deutéronome"
    } else if b == 5 {
        "Josué"
    } else if b == 6 {
        "Juges"
    } else if b == 7 {
        "Ruth"
    } else if b == 8 {
        "1 Samuel"
    } else if b == 9 {
        "2 Samuel"
    } else if b == 10 {
        "1 Rois"
    } else if b == 11 {
        "2 Rois"
    } else if b == 12 {
        "1 Chroniques"
    } else if b == 13 {
        "2 Chroniques"
    } else if b == 14 {
        "Esdras"
    } else if b == 15 {
        "Néhémie"
    } else if b == 16 {
        "Esther"
    } else if b == 17 {
        "Job"
    } else if b == 18 {
        "Psaumes"
    } else if b == 19 {
        "Proverbes"
    } else if b == 20 {
        "Ecclésiaste"
    } else if b == 21 {
        "Cantique des Cantiques"
    } else if b == 22 {
        "Ésaïe"
    } else if b == 23 {
        "Jérémie"
    } else if b == 24 {
        "Lamentations"
    } else if b == 25 {
        "Ézéchiel"
    } else if b == 26 {
        "Daniel"
    } else if b == 27 {
        "Osée"
    } else if b == 28 {
        "Joël"
    } else if b == 29 {
        "Amos"
    } else if b == 30 {
        "Abdias"
    } else if b == 31 {
        "Jonas"
    } else if b == 32 {
        "Michée"
    } else if b == 33 {
        "Nahum"
    } else if b == 34 {
        "Habacuc"
    } else if b == 35 {
        "Sophonie"
    } else if b == 36 {
        "Aggée"
    } else if b == 37 {
        "Zacharie"
    } else if b == 38 {
        "Malachie"
    } else if b == 39 {
        "Matthieu"
    } else if b == 40 {
        "Marc"
    } else if b == 41 {
        "Luc"
    } else if b == 42 {
        "Jean"
    } else if b == 43 {
        "Actes"
    } else if b == 44 {
        "Romains"
    } else if b == 45 {
        "1 Corinthiens"
    } else if b == 46 {
        "2 Corinthiens"
    } else if b == 47 {
        "Galates"
    } else if b == 48 {
        "Éphésiens"
    } else if b == 49 {
        "Philippiens"
    } else if b == 50 {
        "Colossiens"
    } else if b == 51 {
        "1 Thessaloniciens"
    } else if b == 52 {
        "2 Thessaloniciens"
    } else if b == 53 {
        "1 Timothée"
    } else if b == 54 {
        "2 Timothée"
    } else if b == 55 {
        "Tite"
    } else if b == 56 {
        "Philémon"
    } else if b == 57 {
        "Hébreux"
    } else if b == 58 {
        "Jacques"
    } else if b == 59 {
        "1 Pierre"
    } else if b == 60 {
        "2 Pierre"
    } else if b == 61 {
        "1 Jean"
    } else if b == 62 {
        "2 Jean"
    } else if b == 63 {
        "3 Jean"
    } else if b == 64 {
        "Jude"
    } else {
        "Apocalypse"
    }
}

pub open spec fn spec_names_de(b: int) -> &'static str {
    if b == 0 {
        "1. Mose"
    } else if b == 1 {
        "2. Mose"
    } else if b == 2 {
        "3. Mose"
    } else if b == 3 {
        "4. Mose"
    } else if b == 4 {
        "5. Mose"
    } else if b == 5 {
        "Josua"
    } else if b == 6 {
        "Richter"
    } else if b == 7 {
        "Rut"
    } else if b == 8 {
        "1. Samuel"
    } else if b == 9 {
        "2. Samuel"
    } else if b == 10 {
        "1. Könige"
    } else if b == 11 {
        "2. Könige"
    } else if b == 12 {
        "1. Chronik"
    } else if b == 13 {
        "2. Chronik"
    } else if b == 14 {
        "Esra"
    } else if b == 15 {
        "Nehemia"
    } else if b == 16 {
        "Ester"
    } else if b == 17 {
        "Hiob"
    } else if b == 18 {
        "Psalmen"
    } else if b == 19 {
        "Sprüche"
    } else if b == 20 {
        "Prediger"
    } else if b == 21 {
        "Hohelied"
    } else if b == 22 {
        "Jesaja"
    } else if b == 23 {
        "Jeremia"
    } else if b == 24 {
        "Klagelieder"
    } else if b == 25 {
        "Hesekiel"
    } else if b == 26 {
        "Daniel"
    } else if b == 27 {
        "Hosea"
    } else if b == 28 {
        "Joel"
    } else if b == 29 {
        "Amos"
    } else if b == 30 {
        "Obadja"
    } else if b == 31 {
        "Jona"
    } else if b == 32 {
        "Micha"
    } else if b == 33 {
        "Nahum"
    } else if b == 34 {
        "Habakuk"
    } else if b == 35 {
        "Zefanja"
    } else if b == 36 {
        "Haggai"
    } else if b == 37 {
        "Sacharja"
    } else if b == 38 {
        "Maleachi"
    } else if b == 39 {
        "Matthäus"
    } else if b == 40 {
        "Markus"
    } else if b == 41 {
        "Lukas"
    } else if b == 42 {
        "Johannes"
    } else if b == 43 {
        "Apostelgeschichte"
    } else if b == 44 {
        "Römer"
    } else if b == 45 {
        "1. Korinther"
    } else if b == 46 {
        "2. Korinther"
    } else if b == 47 {
        "Galater"
    } else if b == 48 {
        "Epheser"
    } else if b == 49 {
        "Philipper"
    } else if b == 50 {
        "Kolosser"
    } else if b == 51 {
        "1. Thessalonicher"
    } else if b == 52 {
        "2. Thessalonicher"
    } else if b == 53 {
        "1. Timotheus"
    } else if b == 54 {
        "2. Timotheus"
    } else if b == 55 {
        "Titus"
    } else if b == 56 {
        "Philemon"
    } else if b == 57 {
        "Hebräer"
    } else if b == 58 {
        "Jakobus"
    } else if b == 59 {
        "1. Petrus"
    } else if b == 60 {
        "2. Petrus"
    } else if b == 61 {
        "1. Johannes"
    } else if b == 62 {
        "2. Johannes"
    } else if b == 63 {
        "3. Johannes"
    } else if b == 64 {
        "Judas"
    } else {
        "Offenbarung"
    }
}

pub open spec fn spec_names_it(b: int) -> &'static str {
    if b == 0 {
        "Genesi"
    } else if b == 1 {
        "Esodo"
    } else if b == 2 {
        "Levitico"
    } else if b == 3 {
        "Numeri"
    } else if b == 4 {
        "Deuteronomio"
    } else if b == 5 {
        "Giosuè"
    } else if b == 6 {
        "Giudici"
    } else if b == 7 {
        "Rut"
    } else if b == 8 {
        "1 Samuele"
    } else if b == 9 {
        "2 Samuele"
    } else if b == 10 {
        "1 Re"
    } else if b == 11 {
        "2 Re"
    } else if b == 12 {
        "1 Cronache"
    } else if b == 13 {
        "2 Cronache"
    } else if b == 14 {
        "Esdra"
    } else if b == 15 {
        "Neemia"
    } else if b == 16 {
        "Ester"
    } else if b == 17 {
        "Giobbe"
    } else if b == 18 {
        "Salmi"
    } else if b == 19 {
        "Proverbi"
    } else if b == 20 {
        "Ecclesiaste"
    } else if b == 21 {
        "Cantico dei Cantici"
    } else if b == 22 {
        "Isaia"
    } else if b == 23 {
        "Geremia"
    } else if b == 24 {
        "Lamentazioni"
    } else if b == 25 {
        "Ezechiele"
    } else if b == 26 {
        "Daniele"
    } else if b == 27 {
        "Osea"
    } else if b == 28 {
        "Gioele"
    } else if b == 29 {
        "Amos"
    } else if b == 30 {
        "Abdia"
    } else if b == 31 {
        "Giona"
    } else if b == 32 {
        "Michea"
    } else if b == 33 {
        "Naum"
    } else if b == 34 {
        "Abacuc"
    } else if b == 35 {
        "Sofonia"
    } else if b == 36 {
        "Aggeo"
    } else if b == 37 {
        "Zaccaria"
    } else if b == 38 {
        "Malachia"
    } else if b == 39 {
        "Matteo"
    } else if b == 40 {
        "Marco"
    } else if b == 41 {
        "Luca"
    } else if b == 42 {
        "Giovanni"
    } else if b == 43 {
        "Atti"
    } else if b == 44 {
        "Romani"
    } else if b == 45 {
        "1 Corinzi"
    } else if b == 46 {
        "2 Corinzi"
    } else if b == 47 {
        "Galati"
    } else if b == 48 {
        "Efesini"
    } else if b == 49 {
        "Filippesi"
    } else if b == 50 {
        "Colossesi"
    } else if b == 51 {
        "1 Tessalonicesi"
    } else if b == 52 {
        "2 Tessalonicesi"
    } else if b == 53 {
        "1 Timoteo"
    } else if b == 54 {
        "2 Timoteo"
    } else if b == 55 {
        "Tito"
    } else if b == 56 {
        "Filemone"
    } else if b == 57 {
        "Ebrei"
    } else if b == 58 {
        "Giacomo"
    } else if b == 59 {
        "1 Pietro"
    } else if b == 60 {
        "2 Pietro"
    } else if b == 61 {
        "1 Giovanni"
    } else if b == 62 {
        "2 Giovanni"
    } else if b == 63 {
        "3 Giovanni"
    } else if b == 64 {
        "Giuda"
    } else {
        "Apocalisse"
    }
}

pub open spec fn spec_names_nl(b: int) -> &'static str {
    if b == 0 {
        "Genesis"
    } else if b == 1 {
        "Exodus"
    } else if b == 2 {
        "Leviticus"
    } else if b == 3 {
        "Numeri"
    } else if b == 4 {
        "Deuteronomium"
    } else if b == 5 {
        "Jozua"
    } else if b == 6 {
        "Richteren"
    } else if b == 7 {
        "Ruth"
    } else if b == 8 {
        "1 Samuel"
    } else if b == 9 {
        "2 Samuel"
    } else if b == 10 {
        "1 Koningen"
    } else if b == 11 {
        "2 Koningen"
    } else if b == 12 {
        "1 Kronieken"
    } else if b == 13 {
        "2 Kronieken"
    } else if b == 14 {
        "Ezra"
    } else if b == 15 {
        "Nehemia"
    } else if b == 16 {
        "Ester"
    } else if b == 17 {
        "Job"
    } else if b == 18 {
        "Psalmen"
    } else if b == 19 {
        "Spreuken"
    } else if b == 20 {
        "Prediker"
    } else if b == 21 {
        "Hooglied"
    } else if b == 22 {
        "Jesaja"
    } else if b == 23 {
        "Jeremia"
    } else if b == 24 {
        "Klaagliederen"
    } else if b == 25 {
        "Ezechiël"
    } else if b == 26 {
        "Daniël"
    } else if b == 27 {
        "Hosea"
    } else if b == 28 {
        "Joël"
    } else if b == 29 {
        "Amos"
    } else if b == 30 {
        "Obadja"
    } else if b == 31 {
        "Jona"
    } else if b == 32 {
        "Micha"
    } else if b == 33 {
        "Nahum"
    } else if b == 34 {
        "Habakuk"
    } else if b == 35 {
        "Sefanja"
    } else if b == 36 {
        "Haggai"
    } else if b == 37 {
        "Zacharia"
    } else if b == 38 {
        "Maleachi"
    } else if b == 39 {
        "Mattheüs"
    } else if b == 40 {
        "Markus"
    } else if b == 41 {
        "Lukas"
    } else if b == 42 {
        "Johannes"
    } else if b == 43 {
        "Handelingen"
    } else if b == 44 {
        "Romeinen"
    } else if b == 45 {
        "1 Korinthe"
    } else if b == 46 {
        "2 Korinthe"
    } else if b == 47 {
        "Galaten"
    } else if b == 48 {
        "Efeze"
    } else if b == 49 {
        "Filippenzen"
    } else if b == 50 {
        "Kolossenzen"
    } else if b == 51 {
        "1 Thessalonicenzen"
    } else if b == 52 {
        "2 Thessalonicenzen"
    } else if b == 53 {
        "1 Timotheüs"
    } else if b == 54 {
        "2 Timotheüs"
    } else if b == 55 {
        "Titus"
    } else if b == 56 {
        "Filemon"
    } else if b == 57 {
        "Hebreeën"
    } else if b == 58 {
        "Jakobus"
    } else if b == 59 {
        "1 Petrus"
    } else if b == 60 {
        "2 Petrus"
    } else if b == 61 {
        "1 Johannes"
    } else if b == 62 {
        "2 Johannes"
    } else if b == 63 {
        "3 Johannes"
    } else if b == 64 {
        "Judas"
    } else {
        "Openbaring"
    }
}

pub open spec fn spec_names_uk(b: int) -> &'static str {
    if b == 0 {
        "Буття"
    } else if b == 1 {
        "Вихід"
    } else if b == 2 {
        "Левит"
    } else if b == 3 {
        "Числа"
    } else if b == 4 {
        "Повторення Закону"
    } else if b == 5 {
        "Ісус Навин"
    } else if b == 6 {
        "Судді"
    } else if b == 7 {
        "Рут"
    } else if b == 8 {
        "1 Самуїлова"
    } else if b == 9 {
        "2 Самуїлова"
    } else if b == 10 {
        "1 Царів"
    } else if b == 11 {
        "2 Царів"
    } else if b == 12 {
        "1 Хронік"
    } else if b == 13 {
        "2 Хронік"
    } else if b == 14 {
        "Ездра"
    } else if b == 15 {
        "Неемія"
    } else if b == 16 {
        "Естер"
    } else if b == 17 {
        "Йов"
    } else if b == 18 {
        "Псалми"
    } else if b == 19 {
        "Приповісті"
    } else if b == 20 {
        "Екклезіяст"
    } else if b == 21 {
        "Пісня над піснями"
    } else if b == 22 {
        "Ісая"
    } else if b == 23 {
        "Єремія"
    } else if b == 24 {
        "Плач Єремії"
    } else if b == 25 {
        "Єзекіїль"
    } else if b == 26 {
        "Даниїл"
    } else if b == 27 {
        "Осія"
    } else if b == 28 {
        "Йоіл"
    } else if b == 29 {
        "Амос"
    } else if b == 30 {
        "Овдій"
    } else if b == 31 {
        "Йона"
    } else if b == 32 {
        "Михей"
    } else if b == 33 {
        "Наум"
    } else if b == 34 {
        "Авакум"
    } else if b == 35 {
        "Софонія"
    } else if b == 36 {
        "Огій"
    } else if b == 37 {
        "Захарія"
    } else if b == 38 {
        "Малахія"
    } else if b == 39 {
        "Матвія"
    } else if b == 40 {
        "Марка"
    } else if b == 41 {
        "Луки"
    } else if b == 42 {
        "Івана"
    } else if b == 43 {
        "Дії"
    } else if b == 44 {
        "Римлянам"
    } else if b == 45 {
        "1 Коринтянам"
    } else if b == 46 {
        "2 Коринтянам"
    } else if b == 47 {
        "Галатам"
    } else if b == 48 {
        "Ефесянам"
    } else if b == 49 {
        "Филип'янам"
    } else if b == 50 {
        "Колоссянам"
    } else if b == 51 {
        "1 Солунянам"
    } else if b == 52 {
        "2 Солунянам"
    } else if b == 53 {
        "1 Тимофію"
    } else if b == 54 {
        "2 Тимофію"
    } else if b == 55 {
        "Титу"
    } else if b == 56 {
        "Филимону"
    } else if b == 57 {
        "Євреям"
    } else if b == 58 {
        "Якова"
    } else if b == 59 {
        "1 Петра"
    } else if b == 60 {
        "2 Петра"
    } else if b == 61 {
        "1 Івана"
    } else if b == 62 {
        "2 Івана"
    } else if b == 63 {
        "3 Івана"
    } else if b == 64 {
        "Юди"
    } else {
        "Об'явлення"
    }
}

pub open spec fn spec_names_ru(b: int) -> &'static str {
    if b == 0 {
        "Бытие"
    } else if b == 1 {
        "Исход"
    } else if b == 2 {
        "Левит"
    } else if b == 3 {
        "Числа"
    } else if b == 4 {
        "Второзаконие"
    } else if b == 5 {
        "Иисус Навин"
    } else if b == 6 {
        "Судьи"
    } else if b == 7 {
        "Руфь"
    } else if b == 8 {
        "1 Царств"
    } else if b == 9 {
        "2 Царств"
    } else if b == 10 {
        "3 Царств"
    } else if b == 11 {
        "4 Царств"
    } else if b == 12 {
        "1 Паралипоменон"
    } else if b == 13 {
        "2 Паралипоменон"
    } else if b == 14 {
        "Ездра"
    } else if b == 15 {
        "Неемия"
    } else if b == 16 {
        "Есфирь"
    } else if b == 17 {
        "Иов"
    } else if b == 18 {
        "Псалтирь"
    } else if b == 19 {
        "Притчи"
    } else if b == 20 {
        "Екклесиаст"
    } else if b == 21 {
        "Песнь Песней"
    } else if b == 22 {
        "Исаия"
    } else if b == 23 {
        "Иеремия"
    } else if b == 24 {
        "Плач Иеремии"
    } else if b == 25 {
        "Иезекииль"
    } else if b == 26 {
        "Даниил"
    } else if b == 27 {
        "Осия"
    } else if b == 28 {
        "Иоиль"
    } else if b == 29 {
        "Амос"
    } else if b == 30 {
        "Авдий"
    } else if b == 31 {
        "Иона"
    } else if b == 32 {
        "Михей"
    } else if b == 33 {
        "Наум"
    } else if b == 34 {
        "Аввакум"
    } else if b == 35 {
        "Софония"
    } else if b == 36 {
        "Аггей"
    } else if b == 37 {
        "Захария"
    } else if b == 38 {
        "Малахия"
    } else if b == 39 {
        "Матфея"
    } else if b == 40 {
        "Марка"
    } else if b == 41 {
        "Луки"
    } else if b == 42 {
        "Иоанна"
    } else if b == 43 {
        "Деяния"
    } else if b == 44 {
        "Римлянам"
    } else if b == 45 {
        "1 Коринфянам"
    } else if b == 46 {
        "2 Коринфянам"
    } else if b == 47 {
        "Галатам"
    } else if b == 48 {
        "Ефесянам"
    } else if b == 49 {
        "Филиппийцам"
    } else if b == 50 {
        "Колоссянам"
    } else if b == 51 {
        "1 Фессалоникийцам"
    } else if b == 52 {
        "2 Фессалоникийцам"
    } else if b == 53 {
        "1 Тимофею"
    } else if b == 54 {
        "2 Тимофею"
    } else if b == 55 {
        "Титу"
    } else if b == 56 {
        "Филимону"
    } else if b == 57 {
        "Евреям"
    } else if b == 58 {
        "Иакова"
    } else if b == 59 {
        "1 Петра"
    } else if b == 60 {
        "2 Петра"
    } else if b == 61 {
        "1 Иоанна"
    } else if b == 62 {
        "2 Иоанна"
    } else if b == 63 {
        "3 Иоанна"
    } else if b == 64 {
        "Иуды"
    } else {
        "Откровение"
    }
}

pub open spec fn spec_names_zhs(b: int) -> &'static str {
    if b == 0 {
        "创世记"
    } else if b == 1 {
        "出埃及记"
    } else if b == 2 {
        "利未记"
    } else if b == 3 {
        "民数记"
    } else if b == 4 {
        "申命记"
    } else if b == 5 {
        "约书亚记"
    } else if b == 6 {
        "士师记"
    } else if b == 7 {
        "路得记"
    } else if b == 8 {
        "撒母耳记上"
    } else if b == 9 {
        "撒母耳记下"
    } else if b == 10 {
        "列王纪上"
    } else if b == 11 {
        "列王纪下"
    } else if b == 12 {
        "历代志上"
    } else if b == 13 {
        "历代志下"
    } else if b == 14 {
        "以斯拉记"
    } else if b == 15 {
        "尼希米记"
    } else if b == 16 {
        "以斯帖记"
    } else if b == 17 {
        "约伯记"
    } else if b == 18 {
        "诗篇"
    } else if b == 19 {
        "箴言"
    } else if b == 20 {
        "传道书"
    } else if b == 21 {
        "雅歌"
    } else if b == 22 {
        "以赛亚书"
    } else if b == 23 {
        "耶利米书"
    } else if b == 24 {
        "耶利米哀歌"
    } else if b == 25 {
        "以西结书"
    } else if b == 26 {
        "但以理书"
    } else if b == 27 {
        "何西阿书"
    } else if b == 28 {
        "约珥书"
    } else if b == 29 {
        "阿摩司书"
    } else if b == 30 {
        "俄巴底亚书"
    } else if b == 31 {
        "约拿书"
    } else if b == 32 {
        "弥迦书"
    } else if b == 33 {
        "那鸿书"
    } else if b == 34 {
        "哈巴谷书"
    } else if b == 35 {
        "西番雅书"
    } else if b == 36 {
        "哈该书"
    } else if b == 37 {
        "撒迦利亚书"
    } else if b == 38 {
        "玛拉基书"
    } else if b == 39 {
        "马太福音"
    } else if b == 40 {
        "马可福音"
    } else if b == 41 {
        "路加福音"
    } else if b == 42 {
        "约翰福音"
    } else if b == 43 {
        "使徒行传"
    } else if b == 44 {
        "罗马书"
    } else if b == 45 {
        "哥林多前书"
    } else if b == 46 {
        "哥林多后书"
    } else if b == 47 {
        "加拉太书"
    } else if b == 48 {
        "以弗所书"
    } else if b == 49 {
        "腓立比书"
    } else if b == 50 {
        "歌罗西书"
    } else if b == 51 {
        "帖撒罗尼迦前书"
    } else if b == 52 {
        "帖撒罗尼迦后书"
    } else if b == 53 {
        "提摩太前书"
    } else if b == 54 {
        "提摩太后书"
    } else if b == 55 {
        "提多书"
    } else if b == 56 {
        "腓利门书"
    } else if b == 57 {
        "希伯来书"
    } else if b == 58 {
        "雅各书"
    } else if b == 59 {
        "彼得前书"
    } else if b == 60 {
        "彼得后书"
    } else if b == 61 {
        "约翰一书"
    } else if b == 62 {
        "约翰二书"
    } else if b == 63 {
        "约翰三书"
    } else if b == 64 {
        "犹大书"
    } else {
        "启示录"
    }
}

pub open spec fn spec_names_zht(b: int) -> &'static str {
    if b == 0 {
        "創世記"
    } else if b == 1 {
        "出埃及記"
    } else if b == 2 {
        "利未記"
    } else if b == 3 {
        "民數記"
    } else if b == 4 {
        "申命記"
    } else if b == 5 {
        "約書亞記"
    } else if b == 6 {
        "士師記"
    } else if b == 7 {
        "路得記"
    } else if b == 8 {
        "撒母耳記上"
    } else if b == 9 {
        "撒母耳記下"
    } else if b == 10 {
        "列王紀上"
    } else if b == 11 {
        "列王紀下"
    } else if b == 12 {
        "歷代志上"
    } else if b == 13 {
        "歷代志下"
    } else if b == 14 {
        "以斯拉記"
    } else if b == 15 {
        "尼希米記"
    } else if b == 16 {
        "以斯帖記"
    } else if b == 17 {
        "約伯記"
    } else if b == 18 {
        "詩篇"
    } else if b == 19 {
        "箴言"
    } else if b == 20 {
        "傳道書"
    } else if b == 21 {
        "雅歌"
    } else if b == 22 {
        "以賽亞書"
    } else if b == 23 {
        "耶利米書"
    } else if b == 24 {
        "耶利米哀歌"
    } else if b == 25 {
        "以西結書"
    } else if b == 26 {
        "但以理書"
    } else if b == 27 {
        "何西阿書"
    } else if b == 28 {
        "約珥書"
    } else if b == 29 {
        "阿摩司書"
    } else if b == 30 {
        "俄巴底亞書"
    } else if b == 31 {
        "約拿書"
    } else if b == 32 {
        "彌迦書"
    } else if b == 33 {
        "那鴻書"
    } else if b == 34 {
        "哈巴谷書"
    } else if b == 35 {
        "西番雅書"
    } else if b == 36 {
        "哈該書"
    } else if b == 37 {
        "撒迦利亞書"
    } else if b == 38 {
        "瑪拉基書"
    } else if b == 39 {
        "馬太福音"
    } else if b == 40 {
        "馬可福音"
    } else if b == 41 {
        "路加福音"
    } else if b == 42 {
        "約翰福音"
    } else if b == 43 {
        "使徒行傳"
    } else if b == 44 {
        "羅馬書"
    } else if b == 45 {
        "哥林多前書"
    } else if b == 46 {
        "哥林多後書"
    } else if b == 47 {
        "加拉太書"
    } else if b == 48 {
        "以弗所書"
    } else if b == 49 {
        "腓立比書"
    } else if b == 50 {
        "歌羅西書"
    } else if b == 51 {
        "帖撒羅尼迦前書"
    } else if b == 52 {
        "帖撒羅尼迦後書"
    } else if b == 53 {
        "提摩太前書"
    } else if b == 54 {
        "提摩太後書"
    } else if b == 55 {
        "提多書"
    } else if b == 56 {
        "腓利門書"
    } else if b == 57 {
        "希伯來書"
    } else if b == 58 {
        "雅各書"
    } else if b == 59 {
        "彼得前書"
    } else if b == 60 {
        "彼得後書"
    } else if b == 61 {
        "約翰一書"
    } else if b == 62 {
        "約翰二書"
    } else if b == 63 {
        "約翰三書"
    } else if b == 64 {
        "猶大書"
    } else {
        "啟示錄"
    }
}

pub open spec fn spec_names_ko(b: int) -> &'static str {
    if b == 0 {
        "창세기"
    } else if b == 1 {
        "출애굽기"
    } else if b == 2 {
        "레위기"
    } else if b == 3 {
        "민수기"
    } else if b == 4 {
        "신명기"
    } else if b == 5 {
        "여호수아"
    } else if b == 6 {
        "사사기"
    } else if b == 7 {
        "룻기"
    } else if b == 8 {
        "사무엘상"
    } else if b == 9 {
        "사무엘하"
    } else if b == 10 {
        "열왕기상"
    } else if b == 11 {
        "열왕기하"
    } else if b == 12 {
        "역대상"
    } else if b == 13 {
        "역대하"
    } else if b == 14 {
        "에스라"
    } else if b == 15 {
        "느헤미야"
    } else if b == 16 {
        "에스더"
    } else if b == 17 {
        "욥기"
    } else if b == 18 {
        "시편"
    } else if b == 19 {
        "잠언"
    } else if b == 20 {
        "전도서"
    } else if b == 21 {
        "아가"
    } else if b == 22 {
        "이사야"
    } else if b == 23 {
        "예레미야"
    } else if b == 24 {
        "예레미야애가"
    } else if b == 25 {
        "에스겔"
    } else if b == 26 {
        "다니엘"
    } else if b == 27 {
        "호세아"
    } else if b == 28 {
        "요엘"
    } else if b == 29 {
        "아모스"
    } else if b == 30 {
        "오바댜"
    } else if b == 31 {
        "요나"
    } else if b == 32 {
        "미가"
    } else if b == 33 {
        "나훔"
    } else if b == 34 {
        "하박국"
    } else if b == 35 {
        "스바냐"
    } else if b == 36 {
        "학개"
    } else if b == 37 {
        "스가랴"
    } else if b == 38 {
        "말라기"
    } else if b == 39 {
        "마태복음"
    } else if b == 40 {
        "마가복음"
    } else if b == 41 {
        "누가복음"
    } else if b == 42 {
        "요한복음"
    } else if b == 43 {
        "사도행전"
    } else if b == 44 {
        "로마서"
    } else if b == 45 {
        "고린도전서"
    } else if b == 46 {
        "고린도후서"
    } else if b == 47 {
        "갈라디아서"
    } else if b == 48 {
        "에베소서"
    } else if b == 49 {
        "빌립보서"
    } else if b == 50 {
        "골로새서"
    } else if b == 51 {
        "데살로니가전서"
    } else if b == 52 {
        "데살로니가후서"
    } else if b == 53 {
        "디모데전서"
    } else if b == 54 {
        "디모데후서"
    } else if b == 55 {
        "디도서"
    } else if b == 56 {
        "빌레몬서"
    } else if b == 57 {
        "히브리서"
    } else if b == 58 {
        "야고보서"
    } else if b == 59 {
        "베드로전서"
    } else if b == 60 {
        "베드로후서"
    } else if b == 61 {
        "요한일서"
    } else if b == 62 {
        "요한이서"
    } else if b == 63 {
        "요한삼서"
    } else if b == 64 {
        "유다서"
    } else {
        "요한계시록"
    }
}

pub open spec fn spec_names_ja(b: int) -> &'static str {
    if b == 0 {
        "創世記"
    } else if b == 1 {
        "出エジプト記"
    } else if b == 2 {
        "レビ記"
    } else if b == 3 {
        "民数記"
    } else if b == 4 {
        "申命記"
    } else if b == 5 {
        "ヨシュア記"
    } else if b == 6 {
        "士師記"
    } else if b == 7 {
        "ルツ記"
    } else if b == 8 {
        "サムエル記上"
    } else if b == 9 {
        "サムエル記下"
    } else if b == 10 {
        "列王紀上"
    } else if b == 11 {
        "列王紀下"
    } else if b == 12 {
        "歴代志上"
    } else if b == 13 {
        "歴代志下"
    } else if b == 14 {
        "エズラ記"
    } else if b == 15 {
        "ネヘミヤ記"
    } else if b == 16 {
        "エステル記"
    } else if b == 17 {
        "ヨブ記"
    } else if b == 18 {
        "詩篇"
    } else if b == 19 {
        "箴言"
    } else if b == 20 {
        "伝道の書"
    } else if b == 21 {
        "雅歌"
    } else if b == 22 {
        "イザヤ書"
    } else if b == 23 {
        "エレミヤ書"
    } else if b == 24 {
        "哀歌"
    } else if b == 25 {
        "エゼキエル書"
    } else if b == 26 {
        "ダニエル書"
    } else if b == 27 {
        "ホセア書"
    } else if b == 28 {
        "ヨエル書"
    } else if b == 29 {
        "アモス書"
    } else if b == 30 {
        "オバデヤ書"
    } else if b == 31 {
        "ヨナ書"
    } else if b == 32 {
        "ミカ書"
    } else if b == 33 {
        "ナホム書"
    } else if b == 34 {
        "ハバクク書"
    } else if b == 35 {
        "ゼパニヤ書"
    } else if b == 36 {
        "ハガイ書"
    } else if b == 37 {
        "ゼカリヤ書"
    } else if b == 38 {
        "マラキ書"
    } else if b == 39 {
        "マタイによる福音書"
    } else if b == 40 {
        "マルコによる福音書"
    } else if b == 41 {
        "ルカによる福音書"
    } else if b == 42 {
        "ヨハネによる福音書"
    } else if b == 43 {
        "使徒行伝"
    } else if b == 44 {
        "ローマ人への手紙"
    } else if b == 45 {
        "コリント人への第一の手紙"
    } else if b == 46 {
        "コリント人への第二の手紙"
    } else if b == 47 {
        "ガラテヤ人への手紙"
    } else if b == 48 {
        "エペソ人への手紙"
    } else if b == 49 {
        "ピリピ人への手紙"
    } else if b == 50 {
        "コロサイ人への手紙"
    } else if b == 51 {
        "テサロニケ人への第一の手紙"
    } else if b == 52 {
        "テサロニケ人への第二の手紙"
    } else if b == 53 {
        "テモテへの第一の手紙"
    } else if b == 54 {
        "テモテへの第二の手紙"
    } else if b == 55 {
        "テトスへの手紙"
    } else if b == 56 {
        "ピレモンへの手紙"
    } else if b == 57 {
        "ヘブル人への手紙"
    } else if b == 58 {
        "ヤコブの手紙"
    } else if b == 59 {
        "ペテロの第一の手紙"
    } else if b == 60 {
        "ペテロの第二の手紙"
    } else if b == 61 {
        "ヨハネの第一の手紙"
    } else if b == 62 {
        "ヨハネの第二の手紙"
    } else if b == 63 {
        "ヨハネの第三の手紙"
    } else if b == 64 {
        "ユダの手紙"
    } else {
        "ヨハネの黙示録"
    }
}

/// The name of book `b` in the language with index `lang`.
pub open spec fn spec_localized_name(lang: int, b: int) -> &'static str {
    if lang == 0 {
        spec_names_pt(b)
    } else if lang == 1 {
        spec_names_es(b)
    } else if lang == 2 {
        spec_names_fr(b)
    } else if lang == 3 {
        spec_names_de(b)
    } else if lang == 4 {
        spec_names_it(b)
    } else if lang == 5 {
        spec_names_nl(b)
    } else if lang == 6 {
        spec_names_uk(b)
    } else if lang == 7 {
        spec_names_ru(b)
    } else if lang == 8 {
        spec_names_zhs(b)
    } else if lang == 9 {
        spec_names_zht(b)
    } else if lang == 10 {
        spec_names_ko(b)
    } else {
        spec_names_ja(b)
    }
}

/// Extra names: common abbreviations and alternative titles.
pub open spec fn spec_extra_name(e: int) -> &'static str {
    if e == 0 {
        "Jo"
    } else if e == 1 {
        "Cântico dos Cânticos"
    } else if e == 2 {
        "Cantar de los Cantares"
    } else if e == 3 {
        "Псалтир"
    } else if e == 4 {
        "요한1서"
    } else if e == 5 {
        "요한2서"
    } else if e == 6 {
        "요한3서"
    } else if e == 7 {
        "베드로1서"
    } else {
        "베드로2서"
    }
}

/// The book that an extra name stands for.
pub open spec fn spec_extra_book(e: int) -> int {
    if e == 0 {
        42
    } else if e == 1 {
        21
    } else if e == 2 {
        21
    } else if e == 3 {
        18
    } else if e == 4 {
        61
    } else if e == 5 {
        62
    } else if e == 6 {
        63
    } else if e == 7 {
        59
    } else {
        60
    }
}

/// The name of entry `k` of the localized table.
pub open spec fn entry_name(k: int) -> &'static str {
    if k < 792 {
        spec_localized_name(k / 66, k % 66)
    } else {
        spec_extra_name(k - 792)
    }
}

/// The book index of entry `k` of the localized table.
pub open spec fn entry_book(k: int) -> int {
    if k < 792 {
        k % 66
    } else {
        spec_extra_book(k - 792)
    }
}

fn names_pt(b: usize) -> (r: &'static str)
    requires
        b < BOOK_COUNT,
    ensures
        r == spec_names_pt(b as int),
{
    if b == 0 {
        "Gênesis"
    } else if b == 1 {
        "Êxodo"
    } else if b == 2 {
        "Levítico"
    } else if b == 3 {
        "Números"
    } else if b == 4 {
        "Deuteronômio"
    } else if b == 5 {
        "Josué"
    } else if b == 6 {
        "Juízes"
    } else if b == 7 {
        "Rute"
    } else if b == 8 {
        "1 Samuel"
    } else if b == 9 {
        "2 Samuel"
    } else if b == 10 {
        "1 Reis"
    } else if b == 11 {
        "2 Reis"
    } else if b == 12 {
        "1 Crônicas"
    } else if b == 13 {
        "2 Crônicas"
    } else if b == 14 {
        "Esdras"
    } else if b == 15 {
        "Neemias"
    } else if b == 16 {
        "Ester"
    } else if b == 17 {
        "Jó"
    } else if b == 18 {
        "Salmos"
    } else if b == 19 {
        "Provérbios"
    } else if b == 20 {
        "Eclesiastes"
    } else if b == 21 {
        "Cantares"
    } else if b == 22 {
        "Isaías"
    } else if b == 23 {
        "Jeremias"
    } else if b == 24 {
        "Lamentações"
    } else if b == 25 {
        "Ezequiel"
    } else if b == 26 {
        "Daniel"
    } else if b == 27 {
        "Oséias"
    } else if b == 28 {
        "Joel"
    } else if b == 29 {
        "Amós"
    } else if b == 30 {
        "Obadias"
    } else if b == 31 {
        "Jonas"
    } else if b == 32 {
        "Miquéias"
    } else if b == 33 {
        "Naum"
    } else if b == 34 {
        "Habacuque"
    } else if b == 35 {
        "Sofonias"
    } else if b == 36 {
        "Ageu"
    } else if b == 37 {
        "Zacarias"
    } else if b == 38 {
        "Malaquias"
    } else if b == 39 {
        "Mateus"
    } else if b == 40 {
        "Marcos"
    } else if b == 41 {
        "Lucas"
    } else if b == 42 {
        "João"
    } else if b == 43 {
        "Atos"
    } else if b == 44 {
        "Romanos"
    } else if b == 45 {
        "1 Coríntios"
    } else if b == 46 {
        "2 Coríntios"
    } else if b == 47 {
        "Gálatas"
    } else if b == 48 {
        "Efésios"
    } else if b == 49 {
        "Filipenses"
    } else if b == 50 {
        "Colossenses"
    } else if b == 51 {
        "1 Tessalonicenses"
    } else if b == 52 {
        "2 Tessalonicenses"
    } else if b == 53 {
        "1 Timóteo"
    } else if b == 54 {
        "2 Timóteo"
    } else if b == 55 {
        "Tito"
    } else if b == 56 {
        "Filemom"
    } else if b == 57 {
        "Hebreus"
    } else if b == 58 {
        "Tiago"
    } else if b == 59 {
        "1 Pedro"
    } else if b == 60 {
        "2 Pedro"
    } else if b == 61 {
        "1 João"
    } else if b == 62 {
        "2 João"
    } else if b == 63 {
        "3 João"
    } else if b == 64 {
        "Judas"
    } else {
        "Apocalipse"
    }
}

fn names_es(b: usize) -> (r: &'static str)
    requires
        b < BOOK_COUNT,
    ensures
        r == spec_names_es(b as int),
{
    if b == 0 {
        "Génesis"
    } else if b == 1 {
        "Éxodo"
    } else if b == 2 {
        "Levítico"
    } else if b == 3 {
        "Números"
    } else if b == 4 {
        "Deuteronomio"
    } else if b == 5 {
        "Josué"
    } else if b == 6 {
        "Jueces"
    } else if b == 7 {
        "Rut"
    } else if b == 8 {
        "1 Samuel"
    } else if b == 9 {
        "2 Samuel"
    } else if b == 10 {
        "1 Reyes"
    } else if b == 11 {
        "2 Reyes"
    } else if b == 12 {
        "1 Crónicas"
    } else if b == 13 {
        "2 Crónicas"
    } else if b == 14 {
        "Esdras"
    } else if b == 15 {
        "Nehemías"
    } else if b == 16 {
        "Ester"
    } else if b == 17 {
        "Job"
    } else if b == 18 {
        "Salmos"
    } else if b == 19 {
        "Proverbios"
    } else if b == 20 {
        "Eclesiastés"
    } else if b == 21 {
        "Cantares"
    } else if b == 22 {
        "Isaías"
    } else if b == 23 {
        "Jeremías"
    } else if b == 24 {
        "Lamentaciones"
    } else if b == 25 {
        "Ezequiel"
    } else if b == 26 {
        "Daniel"
    } else if b == 27 {
        "Oseas"
    } else if b == 28 {
        "Joel"
    } else if b == 29 {
        "Amós"
    } else if b == 30 {
        "Abdías"
    } else if b == 31 {
        "Jonás"
    } else if b == 32 {
        "Miqueas"
    } else if b == 33 {
        "Nahúm"
    } else if b == 34 {
        "Habacuc"
    } else if b == 35 {
        "Sofonías"
    } else if b == 36 {
        "Hageo"
    } else if b == 37 {
        "Zacarías"
    } else if b == 38 {
        "Malaquías"
    } else if b == 39 {
        "Mateo"
    } else if b == 40 {
        "Marcos"
    } else if b == 41 {
        "Lucas"
    } else if b == 42 {
        "Juan"
    } else if b == 43 {
        "Hechos"
    } else if b == 44 {
        "Romanos"
    } else if b == 45 {
        "1 Corintios"
    } else if b == 46 {
        "2 Corintios"
    } else if b == 47 {
        "Gálatas"
    } else if b == 48 {
        "Efesios"
    } else if b == 49 {
        "Filipenses"
    } else if b == 50 {
        "Colosenses"
    } else if b == 51 {
        "1 Tesalonicenses"
    } else if b == 52 {
        "2 Tesalonicenses"
    } else if b == 53 {
        "1 Timoteo"
    } else if b == 54 {
        "2 Timoteo"
    } else if b == 55 {
        "Tito"
    } else if b == 56 {
        "Filemón"
    } else if b == 57 {
        "Hebreos"
    } else if b == 58 {
        "Santiago"
    } else if b == 59 {
        "1 Pedro"
    } else if b == 60 {
        "2 Pedro"
    } else if b == 61 {
        "1 Juan"
    } else if b == 62 {
        "2 Juan"
    } else if b == 63 {
        "3 Juan"
    } else if b == 64 {
        "Judas"
    } else {
        "Apocalipsis"
    }
}

fn names_fr(b: usize) -> (r: &'static str)
    requires
        b < BOOK_COUNT,
    ensures
        r == spec_names_fr(b as int),
{
    if b == 0 {
        "Genèse"
    } else if b == 1 {
        "Exode"
    } else if b == 2 {
        "Lévitique"
    } else if b == 3 {
        "Nombres"
    } else if b == 4 {
        "Deutéronome"
    } else if b == 5 {
        "Josué"
    } else if b == 6 {
        "Juges"
    } else if b == 7 {
        "Ruth"
    } else if b == 8 {
        "1 Samuel"
    } else if b == 9 {
        "2 Samuel"
    } else if b == 10 {
        "1 Rois"
    } else if b == 11 {
        "2 Rois"
    } else if b == 12 {
        "1 Chroniques"
    } else if b == 13 {
        "2 Chroniques"
    } else if b == 14 {
        "Esdras"
    } else if b == 15 {
        "Néhémie"
    } else if b == 16 {
        "Esther"
    } else if b == 17 {
        "Job"
    } else if b == 18 {
        "Psaumes"
    } else if b == 19 {
        "Proverbes"
    } else if b == 20 {
        "Ecclésiaste"
    } else if b == 21 {
        "Cantique des Cantiques"
    } else if b == 22 {
        "Ésaïe"
    } else if b == 23 {
        "Jérémie"
    } else if b == 24 {
        "Lamentations"
    } else if b == 25 {
        "Ézéchiel"
    } else if b == 26 {
        "Daniel"
    } else if b == 27 {
        "Osée"
    } else if b == 28 {
        "Joël"
    } else if b == 29 {
        "Amos"
    } else if b == 30 {
        "Abdias"
    } else if b == 31 {
        "Jonas"
    } else if b == 32 {
        "Michée"
    } else if b == 33 {
        "Nahum"
    } else if b == 34 {
        "Habacuc"
    } else if b == 35 {
        "Sophonie"
    } else if b == 36 {
        "Aggée"
    } else if b == 37 {
        "Zacharie"
    } else if b == 38 {
        "Malachie"
    } else if b == 39 {
        "Matthieu"
    } else if b == 40 {
        "Marc"
    } else if b == 41 {
        "Luc"
    } else if b == 42 {
        "Jean"
    } else if b == 43 {
        "Actes"
    } else if b == 44 {
        "Romains"
    } else if b == 45 {
        "1 Corinthiens"
    } else if b == 46 {
        "2 Corinthiens"
    } else if b == 47 {
        "Galates"
    } else if b == 48 {
        "Éphésiens"
    } else if b == 49 {
        "Philippiens"
    } else if b == 50 {
        "Colossiens"
    } else if b == 51 {
        "1 Thessaloniciens"
    } else if b == 52 {
        "2 Thessaloniciens"
    } else if b == 53 {
        "1 Timothée"
    } else if b == 54 {
        "2 Timothée"
    } else if b == 55 {
        "Tite"
    } else if b == 56 {
        "Philémon"
    } else if b == 57 {
        "Hébreux"
    } else if b == 58 {
        "Jacques"
    } else if b == 59 {
        "1 Pierre"
    } else if b == 60 {
        "2 Pierre"
    } else if b == 61 {
        "1 Jean"
    } else if b == 62 {
        "2 Jean"
    } else if b == 63 {
        "3 Jean"
    } else if b == 64 {
        "Jude"
    } else {
        "Apocalypse"
    }
}

fn names_de(b: usize) -> (r: &'static str)
    requires
        b < BOOK_COUNT,
    ensures
        r == spec_names_de(b as int),
{
    if b == 0 {
        "1. Mose"
    } else if b == 1 {
        "2. Mose"
    } else if b == 2 {
        "3. Mose"
    } else if b == 3 {
        "4. Mose"
    } else if b == 4 {
        "5. Mose"
    } else if b == 5 {
        "Josua"
    } else if b == 6 {
        "Richter"
    } else if b == 7 {
        "Rut"
    } else if b == 8 {
        "1. Samuel"
    } else if b == 9 {
        "2. Samuel"
    } else if b == 10 {
        "1. Könige"
    } else if b == 11 {
        "2. Könige"
    } else if b == 12 {
        "1. Chronik"
    } else if b == 13 {
        "2. Chronik"
    } else if b == 14 {
        "Esra"
    } else if b == 15 {
        "Nehemia"
    } else if b == 16 {
        "Ester"
    } else if b == 17 {
        "Hiob"
    } else if b == 18 {
        "Psalmen"
    } else if b == 19 {
        "Sprüche"
    } else if b == 20 {
        "Prediger"
    } else if b == 21 {
        "Hohelied"
    } else if b == 22 {
        "Jesaja"
    } else if b == 23 {
        "Jeremia"
    } else if b == 24 {
        "Klagelieder"
    } else if b == 25 {
        "Hesekiel"
    } else if b == 26 {
        "Daniel"
    } else if b == 27 {
        "Hosea"
    } else if b == 28 {
        "Joel"
    } else if b == 29 {
        "Amos"
    } else if b == 30 {
        "Obadja"
    } else if b == 31 {
        "Jona"
    } else if b == 32 {
        "Micha"
    } else if b == 33 {
        "Nahum"
    } else if b == 34 {
        "Habakuk"
    } else if b == 35 {
        "Zefanja"
    } else if b == 36 {
        "Haggai"
    } else if b == 37 {
        "Sacharja"
    } else if b == 38 {
        "Maleachi"
    } else if b == 39 {
        "Matthäus"
    } else if b == 40 {
        "Markus"
    } else if b == 41 {
        "Lukas"
    } else if b == 42 {
        "Johannes"
    } else if b == 43 {
        "Apostelgeschichte"
    } else if b == 44 {
        "Römer"
    } else if b == 45 {
        "1. Korinther"
    } else if b == 46 {
        "2. Korinther"
    } else if b == 47 {
        "Galater"
    } else if b == 48 {
        "Epheser"
    } else if b == 49 {
        "Philipper"
    } else if b == 50 {
        "Kolosser"
    } else if b == 51 {
        "1. Thessalonicher"
    } else if b == 52 {
        "2. Thessalonicher"
    } else if b == 53 {
        "1. Timotheus"
    } else if b == 54 {
        "2. Timotheus"
    } else if b == 55 {
        "Titus"
    } else if b == 56 {
        "Philemon"
    } else if b == 57 {
        "Hebräer"
    } else if b == 58 {
        "Jakobus"
    } else if b == 59 {
        "1. Petrus"
    } else if b == 60 {
        "2. Petrus"
    } else if b == 61 {
        "1. Johannes"
    } else if b == 62 {
        "2. Johannes"
    } else if b == 63 {
        "3. Johannes"
    } else if b == 64 {
        "Judas"
    } else {
        "Offenbarung"
    }
}

fn names_it(b: usize) -> (r: &'static str)
    requires
        b < BOOK_COUNT,
    ensures
        r == spec_names_it(b as int),
{
    if b == 0 {
        "Genesi"
    } else if b == 1 {
        "Esodo"
    } else if b == 2 {
        "Levitico"
    } else if b == 3 {
        "Numeri"
    } else if b == 4 {
        "Deuteronomio"
    } else if b == 5 {
        "Giosuè"
    } else if b == 6 {
        "Giudici"
    } else if b == 7 {
        "Rut"
    } else if b == 8 {
        "1 Samuele"
    } else if b == 9 {
        "2 Samuele"
    } else if b == 10 {
        "1 Re"
    } else if b == 11 {
        "2 Re"
    } else if b == 12 {
        "1 Cronache"
    } else if b == 13 {
        "2 Cronache"
    } else if b == 14 {
        "Esdra"
    } else if b == 15 {
        "Neemia"
    } else if b == 16 {
        "Ester"
    } else if b == 17 {
        "Giobbe"
    } else if b == 18 {
        "Salmi"
    } else if b == 19 {
        "Proverbi"
    } else if b == 20 {
        "Ecclesiaste"
    } else if b == 21 {
        "Cantico dei Cantici"
    } else if b == 22 {
        "Isaia"
    } else if b == 23 {
        "Geremia"
    } else if b == 24 {
        "Lamentazioni"
    } else if b == 25 {
        "Ezechiele"
    } else if b == 26 {
        "Daniele"
    } else if b == 27 {
        "Osea"
    } else if b == 28 {
        "Gioele"
    } else if b == 29 {
        "Amos"
    } else if b == 30 {
        "Abdia"
    } else if b == 31 {
        "Giona"
    } else if b == 32 {
        "Michea"
    } else if b == 33 {
        "Naum"
    } else if b == 34 {
        "Abacuc"
    } else if b == 35 {
        "Sofonia"
    } else if b == 36 {
        "Aggeo"
    } else if b == 37 {
        "Zaccaria"
    } else if b == 38 {
        "Malachia"
    } else if b == 39 {
        "Matteo"
    } else if b == 40 {
        "Marco"
    } else if b == 41 {
        "Luca"
    } else if b == 42 {
        "Giovanni"
    } else if b == 43 {
        "Atti"
    } else if b == 44 {
        "Romani"
    } else if b == 45 {
        "1 Corinzi"
    } else if b == 46 {
        "2 Corinzi"
    } else if b == 47 {
        "Galati"
    } else if b == 48 {
        "Efesini"
    } else if b == 49 {
        "Filippesi"
    } else if b == 50 {
        "Colossesi"
    } else if b == 51 {
        "1 Tessalonicesi"
    } else if b == 52 {
        "2 Tessalonicesi"
    } else if b == 53 {
        "1 Timoteo"
    } else if b == 54 {
        "2 Timoteo"
    } else if b == 55 {
        "Tito"
    } else if b == 56 {
        "Filemone"
    } else if b == 57 {
        "Ebrei"
    } else if b == 58 {
        "Giacomo"
    } else if b == 59 {
        "1 Pietro"
    } else if b == 60 {
        "2 Pietro"
    } else if b == 61 {
        "1 Giovanni"
    } else if b == 62 {
        "2 Giovanni"
    } else if b == 63 {
        "3 Giovanni"
    } else if b == 64 {
        "Giuda"
    } else {
        "Apocalisse"
    }
}

fn names_nl(b: usize) -> (r: &'static str)
    requires
        b < BOOK_COUNT,
    ensures
        r == spec_names_nl(b as int),
{
    if b == 0 {
        "Genesis"
    } else if b == 1 {
        "Exodus"
    } else if b == 2 {
        "Leviticus"
    } else if b == 3 {
        "Numeri"
    } else if b == 4 {
        "Deuteronomium"
    } else if b == 5 {
        "Jozua"
    } else if b == 6 {
        "Richteren"
    } else if b == 7 {
        "Ruth"
    } else if b == 8 {
        "1 Samuel"
    } else if b == 9 {
        "2 Samuel"
    } else if b == 10 {
        "1 Koningen"
    } else if b == 11 {
        "2 Koningen"
    } else if b == 12 {
        "1 Kronieken"
    } else if b == 13 {
        "2 Kronieken"
    } else if b == 14 {
        "Ezra"
    } else if b == 15 {
        "Nehemia"
    } else if b == 16 {
        "Ester"
    } else if b == 17 {
        "Job"
    } else if b == 18 {
        "Psalmen"
    } else if b == 19 {
        "Spreuken"
    } else if b == 20 {
        "Prediker"
    } else if b == 21 {
        "Hooglied"
    } else if b == 22 {
        "Jesaja"
    } else if b == 23 {
        "Jeremia"
    } else if b == 24 {
        "Klaagliederen"
    } else if b == 25 {
        "Ezechiël"
    } else if b == 26 {
        "Daniël"
    } else if b == 27 {
        "Hosea"
    } else if b == 28 {
        "Joël"
    } else if b == 29 {
        "Amos"
    } else if b == 30 {
        "Obadja"
    } else if b == 31 {
        "Jona"
    } else if b == 32 {
        "Micha"
    } else if b == 33 {
        "Nahum"
    } else if b == 34 {
        "Habakuk"
    } else if b == 35 {
        "Sefanja"
    } else if b == 36 {
        "Haggai"
    } else if b == 37 {
        "Zacharia"
    } else if b == 38 {
        "Maleachi"
    } else if b == 39 {
        "Mattheüs"
    } else if b == 40 {
        "Markus"
    } else if b == 41 {
        "Lukas"
    } else if b == 42 {
        "Johannes"
    } else if b == 43 {
        "Handelingen"
    } else if b == 44 {
        "Romeinen"
    } else if b == 45 {
        "1 Korinthe"
    } else if b == 46 {
        "2 Korinthe"
    } else if b == 47 {
        "Galaten"
    } else if b == 48 {
        "Efeze"
    } else if b == 49 {
        "Filippenzen"
    } else if b == 50 {
        "Kolossenzen"
    } else if b == 51 {
        "1 Thessalonicenzen"
    } else if b == 52 {
        "2 Thessalonicenzen"
    } else if b == 53 {
        "1 Timotheüs"
    } else if b == 54 {
        "2 Timotheüs"
    } else if b == 55 {
        "Titus"
    } else if b == 56 {
        "Filemon"
    } else if b == 57 {
        "Hebreeën"
    } else if b == 58 {
        "Jakobus"
    } else if b == 59 {
        "1 Petrus"
    } else if b == 60 {
        "2 Petrus"
    } else if b == 61 {
        "1 Johannes"
    } else if b == 62 {
        "2 Johannes"
    } else if b == 63 {
        "3 Johannes"
    } else if b == 64 {
        "Judas"
    } else {
        "Openbaring"
    }
}

fn names_uk(b: usize) -> (r: &'static str)
    requires
        b < BOOK_COUNT,
    ensures
        r == spec_names_uk(b as int),
{
    if b == 0 {
        "Буття"
    } else if b == 1 {
        "Вихід"
    } else if b == 2 {
        "Левит"
    } else if b == 3 {
        "Числа"
    } else if b == 4 {
        "Повторення Закону"
    } else if b == 5 {
        "Ісус Навин"
    } else if b == 6 {
        "Судді"
    } else if b == 7 {
        "Рут"
    } else if b == 8 {
        "1 Самуїлова"
    } else if b == 9 {
        "2 Самуїлова"
    } else if b == 10 {
        "1 Царів"
    } else if b == 11 {
        "2 Царів"
    } else if b == 12 {
        "1 Хронік"
    } else if b == 13 {
        "2 Хронік"
    } else if b == 14 {
        "Ездра"
    } else if b == 15 {
        "Неемія"
    } else if b == 16 {
        "Естер"
    } else if b == 17 {
        "Йов"
    } else if b == 18 {
        "Псалми"
    } else if b == 19 {
        "Приповісті"
    } else if b == 20 {
        "Екклезіяст"
    } else if b == 21 {
        "Пісня над піснями"
    } else if b == 22 {
        "Ісая"
    } else if b == 23 {
        "Єремія"
    } else if b == 24 {
        "Плач Єремії"
    } else if b == 25 {
        "Єзекіїль"
    } else if b == 26 {
        "Даниїл"
    } else if b == 27 {
        "Осія"
    } else if b == 28 {
        "Йоіл"
    } else if b == 29 {
        "Амос"
    } else if b == 30 {
        "Овдій"
    } else if b == 31 {
        "Йона"
    } else if b == 32 {
        "Михей"
    } else if b == 33 {
        "Наум"
    } else if b == 34 {
        "Авакум"
    } else if b == 35 {
        "Софонія"
    } else if b == 36 {
        "Огій"
    } else if b == 37 {
        "Захарія"
    } else if b == 38 {
        "Малахія"
    } else if b == 39 {
        "Матвія"
    } else if b == 40 {
        "Марка"
    } else if b == 41 {
        "Луки"
    } else if b == 42 {
        "Івана"
    } else if b == 43 {
        "Дії"
    } else if b == 44 {
        "Римлянам"
    } else if b == 45 {
        "1 Коринтянам"
    } else if b == 46 {
        "2 Коринтянам"
    } else if b == 47 {
        "Галатам"
    } else if b == 48 {
        "Ефесянам"
    } else if b == 49 {
        "Филип'янам"
    } else if b == 50 {
        "Колоссянам"
    } else if b == 51 {
        "1 Солунянам"
    } else if b == 52 {
        "2 Солунянам"
    } else if b == 53 {
        "1 Тимофію"
    } else if b == 54 {
        "2 Тимофію"
    } else if b == 55 {
        "Титу"
    } else if b == 56 {
        "Филимону"
    } else if b == 57 {
        "Євреям"
    } else if b == 58 {
        "Якова"
    } else if b == 59 {
        "1 Петра"
    } else if b == 60 {
        "2 Петра"
    } else if b == 61 {
        "1 Івана"
    } else if b == 62 {
        "2 Івана"
    } else if b == 63 {
        "3 Івана"
    } else if b == 64 {
        "Юди"
    } else {
        "Об'явлення"
    }
}

fn names_ru(b: usize) -> (r: &'static str)
    requires
        b < BOOK_COUNT,
    ensures
        r == spec_names_ru(b as int),
{
    if b == 0 {
        "Бытие"
    } else if b == 1 {
        "Исход"
    } else if b == 2 {
        "Левит"
    } else if b == 3 {
        "Числа"
    } else if b == 4 {
        "Второзаконие"
    } else if b == 5 {
        "Иисус Навин"
    } else if b == 6 {
        "Судьи"
    } else if b == 7 {
        "Руфь"
    } else if b == 8 {
        "1 Царств"
    } else if b == 9 {
        "2 Царств"
    } else if b == 10 {
        "3 Царств"
    } else if b == 11 {
        "4 Царств"
    } else if b == 12 {
        "1 Паралипоменон"
    } else if b == 13 {
        "2 Паралипоменон"
    } else if b == 14 {
        "Ездра"
    } else if b == 15 {
        "Неемия"
    } else if b == 16 {
        "Есфирь"
    } else if b == 17 {
        "Иов"
    } else if b == 18 {
        "Псалтирь"
    } else if b == 19 {
        "Притчи"
    } else if b == 20 {
        "Екклесиаст"
    } else if b == 21 {
        "Песнь Песней"
    } else if b == 22 {
        "Исаия"
    } else if b == 23 {
        "Иеремия"
    } else if b == 24 {
        "Плач Иеремии"
    } else if b == 25 {
        "Иезекииль"
    } else if b == 26 {
        "Даниил"
    } else if b == 27 {
        "Осия"
    } else if b == 28 {
        "Иоиль"
    } else if b == 29 {
        "Амос"
    } else if b == 30 {
        "Авдий"
    } else if b == 31 {
        "Иона"
    } else if b == 32 {
        "Михей"
    } else if b == 33 {
        "Наум"
    } else if b == 34 {
        "Аввакум"
    } else if b == 35 {
        "Софония"
    } else if b == 36 {
        "Аггей"
    } else if b == 37 {
        "Захария"
    } else if b == 38 {
        "Малахия"
    } else if b == 39 {
        "Матфея"
    } else if b == 40 {
        "Марка"
    } else if b == 41 {
        "Луки"
    } else if b == 42 {
        "Иоанна"
    } else if b == 43 {
        "Деяния"
    } else if b == 44 {
        "Римлянам"
    } else if b == 45 {
        "1 Коринфянам"
    } else if b == 46 {
        "2 Коринфянам"
    } else if b == 47 {
        "Галатам"
    } else if b == 48 {
        "Ефесянам"
    } else if b == 49 {
        "Филиппийцам"
    } else if b == 50 {
        "Колоссянам"
    } else if b == 51 {
        "1 Фессалоникийцам"
    } else if b == 52 {
        "2 Фессалоникийцам"
    } else if b == 53 {
        "1 Тимофею"
    } else if b == 54 {
        "2 Тимофею"
    } else if b == 55 {
        "Титу"
    } else if b == 56 {
        "Филимону"
    } else if b == 57 {
        "Евреям"
    } else if b == 58 {
        "Иакова"
    } else if b == 59 {
        "1 Петра"
    } else if b == 60 {
        "2 Петра"
    } else if b == 61 {
        "1 Иоанна"
    } else if b == 62 {
        "2 Иоанна"
    } else if b == 63 {
        "3 Иоанна"
    } else if b == 64 {
        "Иуды"
    } else {
        "Откровение"
    }
}

fn names_zhs(b: usize) -> (r: &'static str)
    requires
        b < BOOK_COUNT,
    ensures
        r == spec_names_zhs(b as int),
{
    if b == 0 {
        "创世记"
    } else if b == 1 {
        "出埃及记"
    } else if b == 2 {
        "利未记"
    } else if b == 3 {
        "民数记"
    } else if b == 4 {
        "申命记"
    } else if b == 5 {
        "约书亚记"
    } else if b == 6 {
        "士师记"
    } else if b == 7 {
        "路得记"
    } else if b == 8 {
        "撒母耳记上"
    } else if b == 9 {
        "撒母耳记下"
    } else if b == 10 {
        "列王纪上"
    } else if b == 11 {
        "列王纪下"
    } else if b == 12 {
        "历代志上"
    } else if b == 13 {
        "历代志下"
    } else if b == 14 {
        "以斯拉记"
    } else if b == 15 {
        "尼希米记"
    } else if b == 16 {
        "以斯帖记"
    } else if b == 17 {
        "约伯记"
    } else if b == 18 {
        "诗篇"
    } else if b == 19 {
        "箴言"
    } else if b == 20 {
        "传道书"
    } else if b == 21 {
        "雅歌"
    } else if b == 22 {
        "以赛亚书"
    } else if b == 23 {
        "耶利米书"
    } else if b == 24 {
        "耶利米哀歌"
    } else if b == 25 {
        "以西结书"
    } else if b == 26 {
        "但以理书"
    } else if b == 27 {
        "何西阿书"
    } else if b == 28 {
        "约珥书"
    } else if b == 29 {
        "阿摩司书"
    } else if b == 30 {
        "俄巴底亚书"
    } else if b == 31 {
        "约拿书"
    } else if b == 32 {
        "弥迦书"
    } else if b == 33 {
        "那鸿书"
    } else if b == 34 {
        "哈巴谷书"
    } else if b == 35 {
        "西番雅书"
    } else if b == 36 {
        "哈该书"
    } else if b == 37 {
        "撒迦利亚书"
    } else if b == 38 {
        "玛拉基书"
    } else if b == 39 {
        "马太福音"
    } else if b == 40 {
        "马可福音"
    } else if b == 41 {
        "路加福音"
    } else if b == 42 {
        "约翰福音"
    } else if b == 43 {
        "使徒行传"
    } else if b == 44 {
        "罗马书"
    } else if b == 45 {
        "哥林多前书"
    } else if b == 46 {
        "哥林多后书"
    } else if b == 47 {
        "加拉太书"
    } else if b == 48 {
        "以弗所书"
    } else if b == 49 {
        "腓立比书"
    } else if b == 50 {
        "歌罗西书"
    } else if b == 51 {
        "帖撒罗尼迦前书"
    } else if b == 52 {
        "帖撒罗尼迦后书"
    } else if b == 53 {
        "提摩太前书"
    } else if b == 54 {
        "提摩太后书"
    } else if b == 55 {
        "提多书"
    } else if b == 56 {
        "腓利门书"
    } else if b == 57 {
        "希伯来书"
    } else if b == 58 {
        "雅各书"
    } else if b == 59 {
        "彼得前书"
    } else if b == 60 {
        "彼得后书"
    } else if b == 61 {
        "约翰一书"
    } else if b == 62 {
        "约翰二书"
    } else if b == 63 {
        "约翰三书"
    } else if b == 64 {
        "犹大书"
    } else {
        "启示录"
    }
}

fn names_zht(b: usize) -> (r: &'static str)
    requires
        b < BOOK_COUNT,
    ensures
        r == spec_names_zht(b as int),
{
    if b == 0 {
        "創世記"
    } else if b == 1 {
        "出埃及記"
    } else if b == 2 {
        "利未記"
    } else if b == 3 {
        "民數記"
    } else if b == 4 {
        "申命記"
    } else if b == 5 {
        "約書亞記"
    } else if b == 6 {
        "士師記"
    } else if b == 7 {
        "路得記"
    } else if b == 8 {
        "撒母耳記上"
    } else if b == 9 {
        "撒母耳記下"
    } else if b == 10 {
        "列王紀上"
    } else if b == 11 {
        "列王紀下"
    } else if b == 12 {
        "歷代志上"
    } else if b == 13 {
        "歷代志下"
    } else if b == 14 {
        "以斯拉記"
    } else if b == 15 {
        "尼希米記"
    } else if b == 16 {
        "以斯帖記"
    } else if b == 17 {
        "約伯記"
    } else if b == 18 {
        "詩篇"
    } else if b == 19 {
        "箴言"
    } else if b == 20 {
        "傳道書"
    } else if b == 21 {
        "雅歌"
    } else if b == 22 {
        "以賽亞書"
    } else if b == 23 {
        "耶利米書"
    } else if b == 24 {
        "耶利米哀歌"
    } else if b == 25 {
        "以西結書"
    } else if b == 26 {
        "但以理書"
    } else if b == 27 {
        "何西阿書"
    } else if b == 28 {
        "約珥書"
    } else if b == 29 {
        "阿摩司書"
    } else if b == 30 {
        "俄巴底亞書"
    } else if b == 31 {
        "約拿書"
    } else if b == 32 {
        "彌迦書"
    } else if b == 33 {
        "那鴻書"
    } else if b == 34 {
        "哈巴谷書"
    } else if b == 35 {
        "西番雅書"
    } else if b == 36 {
        "哈該書"
    } else if b == 37 {
        "撒迦利亞書"
    } else if b == 38 {
        "瑪拉基書"
    } else if b == 39 {
        "馬太福音"
    } else if b == 40 {
        "馬可福音"
    } else if b == 41 {
        "路加福音"
    } else if b == 42 {
        "約翰福音"
    } else if b == 43 {
        "使徒行傳"
    } else if b == 44 {
        "羅馬書"
    } else if b == 45 {
        "哥林多前書"
    } else if b == 46 {
        "哥林多後書"
    } else if b == 47 {
        "加拉太書"
    } else if b == 48 {
        "以弗所書"
    } else if b == 49 {
        "腓立比書"
    } else if b == 50 {
        "歌羅西書"
    } else if b == 51 {
        "帖撒羅尼迦前書"
    } else if b == 52 {
        "帖撒羅尼迦後書"
    } else if b == 53 {
        "提摩太前書"
    } else if b == 54 {
        "提摩太後書"
    } else if b == 55 {
        "提多書"
    } else if b == 56 {
        "腓利門書"
    } else if b == 57 {
        "希伯來書"
    } else if b == 58 {
        "雅各書"
    } else if b == 59 {
        "彼得前書"
    } else if b == 60 {
        "彼得後書"
    } else if b == 61 {
        "約翰一書"
    } else if b == 62 {
        "約翰二書"
    } else if b == 63 {
        "約翰三書"
    } else if b == 64 {
        "猶大書"
    } else {
        "啟示錄"
    }
}

fn names_ko(b: usize) -> (r: &'static str)
    requires
        b < BOOK_COUNT,
    ensures
        r == spec_names_ko(b as int),
{
    if b == 0 {
        "창세기"
    } else if b == 1 {
        "출애굽기"
    } else if b == 2 {
        "레위기"
    } else if b == 3 {
        "민수기"
    } else if b == 4 {
        "신명기"
    } else if b == 5 {
        "여호수아"
    } else if b == 6 {
        "사사기"
    } else if b == 7 {
        "룻기"
    } else if b == 8 {
        "사무엘상"
    } else if b == 9 {
        "사무엘하"
    } else if b == 10 {
        "열왕기상"
    } else if b == 11 {
        "열왕기하"
    } else if b == 12 {
        "역대상"
    } else if b == 13 {
        "역대하"
    } else if b == 14 {
        "에스라"
    } else if b == 15 {
        "느헤미야"
    } else if b == 16 {
        "에스더"
    } else if b == 17 {
        "욥기"
    } else if b == 18 {
        "시편"
    } else if b == 19 {
        "잠언"
    } else if b == 20 {
        "전도서"
    } else if b == 21 {
        "아가"
    } else if b == 22 {
        "이사야"
    } else if b == 23 {
        "예레미야"
    } else if b == 24 {
        "예레미야애가"
    } else if b == 25 {
        "에스겔"
    } else if b == 26 {
        "다니엘"
    } else if b == 27 {
        "호세아"
    } else if b == 28 {
        "요엘"
    } else if b == 29 {
        "아모스"
    } else if b == 30 {
        "오바댜"
    } else if b == 31 {
        "요나"
    } else if b == 32 {
        "미가"
    } else if b == 33 {
        "나훔"
    } else if b == 34 {
        "하박국"
    } else if b == 35 {
        "스바냐"
    } else if b == 36 {
        "학개"
    } else if b == 37 {
        "스가랴"
    } else if b == 38 {
        "말라기"
    } else if b == 39 {
        "마태복음"
    } else if b == 40 {
        "마가복음"
    } else if b == 41 {
        "누가복음"
    } else if b == 42 {
        "요한복음"
    } else if b == 43 {
        "사도행전"
    } else if b == 44 {
        "로마서"
    } else if b == 45 {
        "고린도전서"
    } else if b == 46 {
        "고린도후서"
    } else if b == 47 {
        "갈라디아서"
    } else if b == 48 {
        "에베소서"
    } else if b == 49 {
        "빌립보서"
    } else if b == 50 {
        "골로새서"
    } else if b == 51 {
        "데살로니가전서"
    } else if b == 52 {
        "데살로니가후서"
    } else if b == 53 {
        "디모데전서"
    } else if b == 54 {
        "디모데후서"
    } else if b == 55 {
        "디도서"
    } else if b == 56 {
        "빌레몬서"
    } else if b == 57 {
        "히브리서"
    } else if b == 58 {
        "야고보서"
    } else if b == 59 {
        "베드로전서"
    } else if b == 60 {
        "베드로후서"
    } else if b == 61 {
        "요한일서"
    } else if b == 62 {
        "요한이서"
    } else if b == 63 {
        "요한삼서"
    } else if b == 64 {
        "유다서"
    } else {
        "요한계시록"
    }
}

fn names_ja(b: usize) -> (r: &'static str)
    requires
        b < BOOK_COUNT,
    ensures
        r == spec_names_ja(b as int),
{
    if b == 0 {
        "創世記"
    } else if b == 1 {
        "出エジプト記"
    } else if b == 2 {
        "レビ記"
    } else if b == 3 {
        "民数記"
    } else if b == 4 {
        "申命記"
    } else if b == 5 {
        "ヨシュア記"
    } else if b == 6 {
        "士師記"
    } else if b == 7 {
        "ルツ記"
    } else if b == 8 {
        "サムエル記上"
    } else if b == 9 {
        "サムエル記下"
    } else if b == 10 {
        "列王紀上"
    } else if b == 11 {
        "列王紀下"
    } else if b == 12 {
        "歴代志上"
    } else if b == 13 {
        "歴代志下"
    } else if b == 14 {
        "エズラ記"
    } else if b == 15 {
        "ネヘミヤ記"
    } else if b == 16 {
        "エステル記"
    } else if b == 17 {
        "ヨブ記"
    } else if b == 18 {
        "詩篇"
    } else if b == 19 {
        "箴言"
    } else if b == 20 {
        "伝道の書"
    } else if b == 21 {
        "雅歌"
    } else if b == 22 {
        "イザヤ書"
    } else if b == 23 {
        "エレミヤ書"
    } else if b == 24 {
        "哀歌"
    } else if b == 25 {
        "エゼキエル書"
    } else if b == 26 {
        "ダニエル書"
    } else if b == 27 {
        "ホセア書"
    } else if b == 28 {
        "ヨエル書"
    } else if b == 29 {
        "アモス書"
    } else if b == 30 {
        "オバデヤ書"
    } else if b == 31 {
        "ヨナ書"
    } else if b == 32 {
        "ミカ書"
    } else if b == 33 {
        "ナホム書"
    } else if b == 34 {
        "ハバクク書"
    } else if b == 35 {
        "ゼパニヤ書"
    } else if b == 36 {
        "ハガイ書"
    } else if b == 37 {
        "ゼカリヤ書"
    } else if b == 38 {
        "マラキ書"
    } else if b == 39 {
        "マタイによる福音書"
    } else if b == 40 {
        "マルコによる福音書"
    } else if b == 41 {
        "ルカによる福音書"
    } else if b == 42 {
        "ヨハネによる福音書"
    } else if b == 43 {
        "使徒行伝"
    } else if b == 44 {
        "ローマ人への手紙"
    } else if b == 45 {
        "コリント人への第一の手紙"
    } else if b == 46 {
        "コリント人への第二の手紙"
    } else if b == 47 {
        "ガラテヤ人への手紙"
    } else if b == 48 {
        "エペソ人への手紙"
    } else if b == 49 {
        "ピリピ人への手紙"
    } else if b == 50 {
        "コロサイ人への手紙"
    } else if b == 51 {
        "テサロニケ人への第一の手紙"
    } else if b == 52 {
        "テサロニケ人への第二の手紙"
    } else if b == 53 {
        "テモテへの第一の手紙"
    } else if b == 54 {
        "テモテへの第二の手紙"
    } else if b == 55 {
        "テトスへの手紙"
    } else if b == 56 {
        "ピレモンへの手紙"
    } else if b == 57 {
        "ヘブル人への手紙"
    } else if b == 58 {
        "ヤコブの手紙"
    } else if b == 59 {
        "ペテロの第一の手紙"
    } else if b == 60 {
        "ペテロの第二の手紙"
    } else if b == 61 {
        "ヨハネの第一の手紙"
    } else if b == 62 {
        "ヨハネの第二の手紙"
    } else if b == 63 {
        "ヨハネの第三の手紙"
    } else if b == 64 {
        "ユダの手紙"
    } else {
        "ヨハネの黙示録"
    }
}

fn localized_name(lang: usize, b: usize) -> (r: &'static str)
    requires
        lang < NAME_LANGS,
        b < BOOK_COUNT,
    ensures
        r == spec_localized_name(lang as int, b as int),
{
    if lang == 0 {
        names_pt(b)
    } else if lang == 1 {
        names_es(b)
    } else if lang == 2 {
        names_fr(b)
    } else if lang == 3 {
        names_de(b)
    } else if lang == 4 {
        names_it(b)
    } else if lang == 5 {
        names_nl(b)
    } else if lang == 6 {
        names_uk(b)
    } else if lang == 7 {
        names_ru(b)
    } else if lang == 8 {
        names_zhs(b)
    } else if lang == 9 {
        names_zht(b)
    } else if lang == 10 {
        names_ko(b)
    } else {
        names_ja(b)
    }
}

fn extra_entry(e: usize) -> (r: (&'static str, usize))
    requires
        e < 9,
    ensures
        r.0 == spec_extra_name(e as int),
        r.1 as int == spec_extra_book(e as int),
{
    if e == 0 {
        ("Jo", 42)
    } else if e == 1 {
        ("Cântico dos Cânticos", 21)
    } else if e == 2 {
        ("Cantar de los Cantares", 21)
    } else if e == 3 {
        ("Псалтир", 18)
    } else if e == 4 {
        ("요한1서", 61)
    } else if e == 5 {
        ("요한2서", 62)
    } else if e == 6 {
        ("요한3서", 63)
    } else if e == 7 {
        ("베드로1서", 59)
    } else {
        ("베드로2서", 60)
    }
}

/// Entry `k` of the localized table: a name and the index of its book.
pub fn localized_entry(k: usize) -> (r: (&'static str, usize))
    requires
        k < LOCALIZED_COUNT,
    ensures
        r.0 == entry_name(k as int),
        r.1 as int == entry_book(k as int),
        r.1 < BOOK_COUNT,
{
    if k < 792 {
        (localized_name(k / 66, k % 66), k % 66)
    } else {
        extra_entry(k - 792)
    }
}

/// Cyrillic ordinal endings that may follow the number of a numbered book
/// ("1-а Царів", "1-ше Івана", "2-е Петра"), longest first.
pub const SUFFIX_COUNT: usize = 11;

pub open spec fn spec_suffix(s: int) -> &'static str {
    if s == 0 {
        "ше"
    } else if s == 1 {
        "ге"
    } else if s == 2 {
        "ий"
    } else if s == 3 {
        "ый"
    } else if s == 4 {
        "ой"
    } else if s == 5 {
        "ое"
    } else if s == 6 {
        "ая"
    } else if s == 7 {
        "а"
    } else if s == 8 {
        "е"
    } else if s == 9 {
        "я"
    } else {
        "й"
    }
}

fn suffix(s: usize) -> (r: &'static str)
    requires
        s < SUFFIX_COUNT,
    ensures
        r == spec_suffix(s as int),
{
    if s == 0 {
        "ше"
    } else if s == 1 {
        "ге"
    } else if s == 2 {
        "ий"
    } else if s == 3 {
        "ый"
    } else if s == 4 {
        "ой"
    } else if s == 5 {
        "ое"
    } else if s == 6 {
        "ая"
    } else if s == 7 {
        "а"
    } else if s == 8 {
        "е"
    } else if s == 9 {
        "я"
    } else {
        "й"
    }
}

// ---------------------------------------------------------------------------
// Matching
// ---------------------------------------------------------------------------

/// `a` is a prefix of `b`.
pub open spec fn is_prefix(a: Seq<char>, b: Seq<char>) -> bool {
    a.len() <= b.len() && b.take(a.len() as int) == a
}

/// `a` is one of the abbreviations of book `i`.
pub open spec fn abbrev_hit(a: Seq<char>, i: int) -> bool {
    exists|k: int| 0 <= k < spec_book(i).abbrevs@.len() && (#[trigger] spec_book(i).abbrevs@[k])@ == a
}

/// The ordinal form with suffix `s` stripped: the number, then the rest.
pub open spec fn ordinal_candidate(a: Seq<char>, s: int) -> Seq<char> {
    seq![a[0]] + a.skip(1 + spec_suffix(s)@.len() as int)
}

/// Suffix `s` follows the leading digit of `a`.
pub open spec fn ordinal_applies(a: Seq<char>, s: int) -> bool {
    a.len() >= 1 && is_ascii_digit(a[0]) && is_prefix(spec_suffix(s)@, a.skip(1))
}

/// The matching tests, one per stage:
/// 0 canonical English name, 1 English abbreviation, 2 prefix of a
/// canonical English name, 3 strict localized name, 4 canonical localized
/// name, 5 prefix of a canonical localized name, 6 ordinal suffix `i` whose
/// stripped form is a canonical localized name.
pub open spec fn hit(stage: int, a: Seq<char>, i: int) -> bool
    decreases stage, 0int,
{
    if stage == 0 {
        canon_spec(spec_book(i).name@) == a
    } else if stage == 1 {
        abbrev_hit(a, i)
    } else if stage == 2 {
        is_prefix(a, canon_spec(spec_book(i).name@))
    } else if stage == 3 {
        canon_strict_spec(entry_name(i)@) == a
    } else if stage == 4 {
        canon_spec(entry_name(i)@) == a
    } else if stage == 5 {
        is_prefix(a, canon_spec(entry_name(i)@))
    } else if stage == 6 {
        ordinal_applies(a, i) && first_hit(4, ordinal_candidate(a, i), 0, LOCALIZED_COUNT as int) is Some
    } else {
        false
    }
}

/// The first `i` in `lo..n` that passes test `stage`.
pub open spec fn first_hit(stage: int, a: Seq<char>, lo: int, n: int) -> Option<int>
    decreases stage, n - lo,
{
    if lo >= n {
        None
    } else if stage < 6 && hit(stage, a, lo) {
        Some(lo)
    } else if stage == 6 && ordinal_applies(a, lo) && first_hit(4, ordinal_candidate(a, lo), 0, LOCALIZED_COUNT as int) is Some {
        Some(lo)
    } else {
        first_hit(stage, a, lo + 1, n)
    }
}

/// What `first_hit` finds: the least passing index, or none in range.
pub proof fn lemma_first_hit(stage: int, a: Seq<char>, lo: int, n: int)
    ensures
        match first_hit(stage, a, lo, n) {
            Some(x) => lo <= x < n && hit(stage, a, x) && forall|j: int|
                lo <= j < x ==> !hit(stage, a, j),
            None => forall|j: int| lo <= j < n ==> !hit(stage, a, j),
        },
    decreases n - lo,
{
    if lo < n {
        lemma_first_hit(stage, a, lo + 1, n);
    }
}

/// The book that an ordinal form names, if any.
pub open spec fn ordinal_lookup(a: Seq<char>) -> Option<int> {
    match first_hit(6, a, 0, SUFFIX_COUNT as int) {
        Some(s) => match first_hit(4, ordinal_candidate(a, s), 0, LOCALIZED_COUNT as int) {
            Some(k) => Some(entry_book(k)),
            None => None,
        },
        None => None,
    }
}

/// The book that a prefix of localized names names, when it is at least
/// three chars long and every name it prefixes belongs to one book.
pub open spec fn prefix_lookup(a: Seq<char>) -> Option<int> {
    if a.len() < 3 {
        None
    } else {
        match first_hit(5, a, 0, LOCALIZED_COUNT as int) {
            None => None,
            Some(k0) => if forall|k: int|
                0 <= k < LOCALIZED_COUNT && #[trigger] hit(5, a, k) ==> entry_book(k) == entry_book(
                    k0,
                ) {
                Some(entry_book(k0))
            } else {
                None
            },
        }
    }
}

/// Lookup among localized names: strict form, canonical form, ordinal
/// form, then unambiguous prefix.
pub open spec fn localized_lookup(strict: Seq<char>, folded: Seq<char>) -> Option<int> {
    match first_hit(3, strict, 0, LOCALIZED_COUNT as int) {
        Some(k) => Some(entry_book(k)),
        None => match first_hit(4, folded, 0, LOCALIZED_COUNT as int) {
            Some(k) => Some(entry_book(k)),
            None => match ordinal_lookup(folded) {
                Some(b) => Some(b),
                None => prefix_lookup(folded),
            },
        },
    }
}

/// The index of the book that `input` names, if any: exact canonical
/// English name, then English abbreviation, then (for three or more chars)
/// prefix of a canonical English name, then the localized names.
pub open spec fn normalize_spec(input: Seq<char>) -> Option<int> {
    let folded = canon_spec(input);
    if folded.len() == 0 {
        None
    } else {
        match first_hit(0, folded, 0, BOOK_COUNT as int) {
            Some(i) => Some(i),
            None => match first_hit(1, folded, 0, BOOK_COUNT as int) {
                Some(i) => Some(i),
                None => match (if folded.len() >= 3 {
                    first_hit(2, folded, 0, BOOK_COUNT as int)
                } else {
                    None
                }) {
                    Some(i) => Some(i),
                    None => localized_lookup(canon_strict_spec(input), folded),
                },
            },
        }
    }
}

/// Whether two char sequences are equal.
pub fn chars_eq(a: &[char], b: &[char]) -> (r: bool)
    ensures
        r == (a@ == b@),
{
    if a.len() != b.len() {
        return false;
    }
    let mut i: usize = 0;
    while i < a.len()
        invariant
            a@.len() == b@.len(),
            i <= a@.len(),
            forall|k: int| 0 <= k < i ==> a@[k] == b@[k],
        decreases a@.len() - i,
    {
        if a[i] != b[i] {
            return false;
        }
        i += 1;
    }
    assert(a@ =~= b@);
    true
}

/// Whether `a` is a prefix of `b`.
pub fn chars_starts_with(b: &[char], a: &[char]) -> (r: bool)
    ensures
        r == is_prefix(a@, b@),
{
    if a.len() > b.len() {
        return false;
    }
    let mut i: usize = 0;
    while i < a.len()
        invariant
            a@.len() <= b@.len(),
            i <= a@.len(),
            forall|k: int| 0 <= k < i ==> a@[k] == b@[k],
        decreases a@.len() - i,
    {
        if a[i] != b[i] {
            assert(b@.take(a@.len() as int)[i as int] != a@[i as int]);
            return false;
        }
        i += 1;
    }
    assert(b@.take(a@.len() as int) =~= a@);
    true
}

fn book_name_canon(i: usize) -> (r: Vec<char>)
    requires
        i < BOOK_COUNT,
    ensures
        r@ == canon_spec(spec_book(i as int).name@),
{
    let b = book(i);
    let v = chars_of(b.name);
    canon_chars(v.as_slice())
}

fn entry_canon(k: usize) -> (r: Vec<char>)
    requires
        k < LOCALIZED_COUNT,
    ensures
        r@ == canon_spec(entry_name(k as int)@),
{
    let (name, _) = localized_entry(k);
    let v = chars_of(name);
    canon_chars(v.as_slice())
}

fn first_english(stage: usize, folded: &[char]) -> (r: Option<usize>)
    requires
        stage <= 2,
    ensures
        match first_hit(stage as int, folded@, 0, BOOK_COUNT as int) {
            Some(i) => r == Some(i as usize),
            None => r is None,
        },
{
    let mut i: usize = 0;
    while i < BOOK_COUNT
        invariant
            stage <= 2,
            i <= BOOK_COUNT,
            first_hit(stage as int, folded@, 0, BOOK_COUNT as int) == first_hit(
                stage as int,
                folded@,
                i as int,
                BOOK_COUNT as int,
            ),
        decreases BOOK_COUNT - i,
    {
        let found = if stage == 0 {
            let c = book_name_canon(i);
            chars_eq(c.as_slice(), folded)
        } else if stage == 1 {
            let b = book(i);
            let mut any = false;
            let mut k: usize = 0;
            while k < b.abbrevs.len()
                invariant
                    b == spec_book(i as int),
                    k <= b.abbrevs@.len(),
                    any == exists|m: int| 0 <= m < k && (#[trigger] b.abbrevs@[m])@ == folded@,
                decreases b.abbrevs@.len() - k,
            {
                let av = chars_of(b.abbrevs[k]);
                if chars_eq(av.as_slice(), folded) {
                    any = true;
                }
                k += 1;
            }
            any
        } else {
            let c = book_name_canon(i);
            chars_starts_with(c.as_slice(), folded)
        };
        assert(found == hit(stage as int, folded@, i as int));
        if found {
            return Some(i);
        }
        i += 1;
    }
    None
}

fn first_localized(stage: usize, key: &[char]) -> (r: Option<usize>)
    requires
        stage == 3 || stage == 4,
    ensures
        match first_hit(stage as int, key@, 0, LOCALIZED_COUNT as int) {
            Some(k) => r == Some(k as usize),
            None => r is None,
        },
        r matches Some(k) ==> k < LOCALIZED_COUNT,
        first_hit(stage as int, key@, 0, LOCALIZED_COUNT as int) matches Some(k) ==> 0 <= k
            < LOCALIZED_COUNT,
{
    proof {
        lemma_first_hit(stage as int, key@, 0, LOCALIZED_COUNT as int);
    }
    let mut k: usize = 0;
    while k < LOCALIZED_COUNT
        invariant
            stage == 3 || stage == 4,
            k <= LOCALIZED_COUNT,
            first_hit(stage as int, key@, 0, LOCALIZED_COUNT as int) == first_hit(
                stage as int,
                key@,
                k as int,
                LOCALIZED_COUNT as int,
            ),
        decreases LOCALIZED_COUNT - k,
    {
        let (name, _) = localized_entry(k);
        let v = chars_of(name);
        let c = if stage == 3 {
            canon_strict_chars(v.as_slice())
        } else {
            canon_chars(v.as_slice())
        };
        let same = chars_eq(c.as_slice(), key);
        assert(same == hit(stage as int, key@, k as int));
        if same {
            return Some(k);
        }
        k += 1;
    }
    None
}

fn ordinal_match(folded: &[char]) -> (r: Option<usize>)
    ensures
        match ordinal_lookup(folded@) {
            Some(b) => r == Some(b as usize),
            None => r is None,
        },
{
    if folded.len() < 1 || !ascii_digit(folded[0]) {
        proof {
            assert forall|s: int| 0 <= s < SUFFIX_COUNT implies !hit(6, folded@, s) by {}
            lemma_first_hit(6, folded@, 0, SUFFIX_COUNT as int);
        }
        return None;
    }
    let mut s: usize = 0;
    while s < SUFFIX_COUNT
        invariant
            folded@.len() >= 1,
            is_ascii_digit(folded@[0]),
            s <= SUFFIX_COUNT,
            first_hit(6, folded@, 0, SUFFIX_COUNT as int) == first_hit(
                6,
                folded@,
                s as int,
                SUFFIX_COUNT as int,
            ),
        decreases SUFFIX_COUNT - s,
    {
        let suf = chars_of(suffix(s));
        let rest = crate::text::sub_chars(folded, 1, folded.len());
        assert(rest@ =~= folded@.skip(1));
        if chars_starts_with(rest.as_slice(), suf.as_slice()) {
            let mut cand: Vec<char> = Vec::new();
            cand.push(folded[0]);
            let tail = crate::text::sub_chars(folded, 1 + suf.len(), folded.len());
            crate::text::extend_chars(&mut cand, tail.as_slice());
            assert(cand@ =~= ordinal_candidate(folded@, s as int));
            let found = first_localized(4, cand.as_slice());
            if let Some(k) = found {
                assert(ordinal_applies(folded@, s as int));
                assert(first_hit(6, folded@, s as int, SUFFIX_COUNT as int) == Some(s as int));
                let (_, b) = localized_entry(k);
                return Some(b);
            }
        }
        s += 1;
    }
    None
}

fn prefix_match(folded: &[char]) -> (r: Option<usize>)
    ensures
        match prefix_lookup(folded@) {
            Some(b) => r == Some(b as usize),
            None => r is None,
        },
{
    if folded.len() < 3 {
        return None;
    }
    let mut found: Option<usize> = None;
    let ghost mut first: int = -1;
    let mut ambiguous = false;
    let mut k: usize = 0;
    while k < LOCALIZED_COUNT
        invariant
            folded@.len() >= 3,
            k <= LOCALIZED_COUNT,
            found is None ==> forall|j: int| 0 <= j < k ==> !hit(5, folded@, j),
            found is None ==> !ambiguous,
            found is Some ==> 0 <= first < k && hit(5, folded@, first) && (forall|j: int|
                0 <= j < first ==> !hit(5, folded@, j)) && found == Some(entry_book(first) as usize),
            found is Some ==> (ambiguous <==> exists|j: int|
                0 <= j < k && #[trigger] hit(5, folded@, j) && entry_book(j) != entry_book(first)),
        decreases LOCALIZED_COUNT - k,
    {
        let c = entry_canon(k);
        let starts = chars_starts_with(c.as_slice(), folded);
        assert(starts == hit(5, folded@, k as int));
        if starts {
            let (_, b) = localized_entry(k);
            match found {
                None => {
                    found = Some(b);
                    proof {
                        first = k as int;
                    }
                },
                Some(b0) => {
                    if b != b0 {
                        ambiguous = true;
                    }
                },
            }
        }
        k += 1;
    }
    proof {
        lemma_first_hit(5, folded@, 0, LOCALIZED_COUNT as int);
    }
    if ambiguous {
        None
    } else {
        found
    }
}

fn localized_match(strict: &[char], folded: &[char]) -> (r: Option<usize>)
    ensures
        match localized_lookup(strict@, folded@) {
            Some(b) => r == Some(b as usize),
            None => r is None,
        },
{
    if let Some(k) = first_localized(3, strict) {
        let (_, b) = localized_entry(k);
        return Some(b);
    }
    if let Some(k) = first_localized(4, folded) {
        let (_, b) = localized_entry(k);
        return Some(b);
    }
    if let Some(b) = ordinal_match(folded) {
        return Some(b);
    }
    prefix_match(folded)
}

/// The index of the book that `input` names (see `normalize_spec`).
pub fn normalize_book_index(input: &str) -> (r: Option<usize>)
    ensures
        match normalize_spec(input@) {
            Some(i) => r == Some(i as usize),
            None => r is None,
        },
        r matches Some(i) ==> i < BOOK_COUNT,
        normalize_spec(input@) matches Some(i) ==> 0 <= i < BOOK_COUNT,
{
    proof {
        lemma_normalize_in_range(input@);
    }
    let v = chars_of(input);
    let folded = canon_chars(v.as_slice());
    if folded.len() == 0 {
        return None;
    }
    if let Some(i) = first_english(0, folded.as_slice()) {
        proof { lemma_first_hit(0, folded@, 0, BOOK_COUNT as int); }
        return Some(i);
    }
    if let Some(i) = first_english(1, folded.as_slice()) {
        proof { lemma_first_hit(1, folded@, 0, BOOK_COUNT as int); }
        return Some(i);
    }
    if folded.len() >= 3 {
        if let Some(i) = first_english(2, folded.as_slice()) {
            proof { lemma_first_hit(2, folded@, 0, BOOK_COUNT as int); }
            return Some(i);
        }
    }
    let strict = canon_strict_chars(v.as_slice());
    let r = localized_match(strict.as_slice(), folded.as_slice());
    proof {
        lemma_localized_in_range(strict@, folded@);
    }
    r
}

/// Every book that `normalize_spec` finds is one of the 66.
pub proof fn lemma_normalize_in_range(input: Seq<char>)
    ensures
        normalize_spec(input) matches Some(i) ==> 0 <= i < BOOK_COUNT,
{
    let folded = canon_spec(input);
    lemma_first_hit(0, folded, 0, BOOK_COUNT as int);
    lemma_first_hit(1, folded, 0, BOOK_COUNT as int);
    lemma_first_hit(2, folded, 0, BOOK_COUNT as int);
    lemma_localized_in_range(canon_strict_spec(input), folded);
}

/// Every book that the localized lookup finds is one of the 66.
pub proof fn lemma_localized_in_range(strict: Seq<char>, folded: Seq<char>)
    ensures
        localized_lookup(strict, folded) matches Some(b) ==> 0 <= b < BOOK_COUNT,
{
    lemma_first_hit(3, strict, 0, LOCALIZED_COUNT as int);
    lemma_first_hit(4, folded, 0, LOCALIZED_COUNT as int);
    lemma_first_hit(5, folded, 0, LOCALIZED_COUNT as int);
    lemma_first_hit(6, folded, 0, SUFFIX_COUNT as int);
    if let Some(s) = first_hit(6, folded, 0, SUFFIX_COUNT as int) {
        lemma_first_hit(4, ordinal_candidate(folded, s), 0, LOCALIZED_COUNT as int);
    }
    lemma_entry_books_in_range();
}

/// Every book has at least one chapter, and none has more than 150.
pub proof fn lemma_books_have_chapters()
    ensures
        forall|i: int| 0 <= i < BOOK_COUNT ==> 1 <= #[trigger] spec_book(i).chapters <= 150,
{
}

/// Every entry of the localized table names one of the 66 books.
pub proof fn lemma_entry_books_in_range()
    ensures
        forall|k: int| 0 <= k < LOCALIZED_COUNT ==> 0 <= #[trigger] entry_book(k) < BOOK_COUNT,
{
}

/// Normalize a book name to its book: full names, abbreviations, case
/// insensitivity, numbered books, and localized names ("João" -> John,
/// "1. Mose" -> Genesis).
pub fn normalize_book(input: &str) -> (r: Option<BookInfo>)
    ensures
        match normalize_spec(input@) {
            Some(i) => r == Some(spec_book(i)),
            None => r is None,
        },
{
    match normalize_book_index(input) {
        Some(i) => Some(book(i)),
        None => None,
    }
}

// ---------------------------------------------------------------------------
// Laws of the canonical forms
// ---------------------------------------------------------------------------

/// Every char of `s` is ASCII.
pub open spec fn is_ascii_text(s: Seq<char>) -> bool {
    forall|i: int| 0 <= i < s.len() ==> (#[trigger] s[i] as u32) < 128
}

/// The only whitespace `s` holds, if any, is the plain space.
pub open spec fn spaces_only(s: Seq<char>) -> bool {
    forall|i: int| 0 <= i < s.len() && is_white_space(#[trigger] s[i]) ==> s[i] == ' '
}

proof fn lemma_trimmed_keeps(s: Seq<char>, p: spec_fn(char) -> bool)
    requires
        forall|i: int| 0 <= i < s.len() ==> p(#[trigger] s[i]),
    ensures
        forall|i: int| 0 <= i < trimmed(s).len() ==> p(#[trigger] trimmed(s)[i]),
{
    lemma_trim_start_keeps(s, p);
    lemma_trim_end_keeps(trim_start(s), p);
}

proof fn lemma_trim_start_keeps(s: Seq<char>, p: spec_fn(char) -> bool)
    requires
        forall|i: int| 0 <= i < s.len() ==> p(#[trigger] s[i]),
    ensures
        forall|i: int| 0 <= i < trim_start(s).len() ==> p(#[trigger] trim_start(s)[i]),
    decreases s.len(),
{
    if s.len() > 0 && is_white_space(s[0]) {
        let d = s.drop_first();
        assert forall|i: int| 0 <= i < d.len() implies p(#[trigger] d[i]) by {
            assert(d[i] == s[i + 1]);
        }
        lemma_trim_start_keeps(d, p);
        assert(trim_start(s) == trim_start(d));
    } else {
        assert(trim_start(s) == s);
    }
}

proof fn lemma_trim_end_keeps(s: Seq<char>, p: spec_fn(char) -> bool)
    requires
        forall|i: int| 0 <= i < s.len() ==> p(#[trigger] s[i]),
    ensures
        forall|i: int| 0 <= i < trim_end(s).len() ==> p(#[trigger] trim_end(s)[i]),
    decreases s.len(),
{
    if s.len() > 0 && is_white_space(s.last()) {
        let d = s.drop_last();
        assert forall|i: int| 0 <= i < d.len() implies p(#[trigger] d[i]) by {
            assert(d[i] == s[i]);
        }
        lemma_trim_end_keeps(d, p);
        assert(trim_end(s) == trim_end(d));
    } else {
        assert(trim_end(s) == s);
    }
}

pub proof fn lemma_single_fold(a: char)
    ensures
        fold_all(seq![a]) == fold_char(a),
        strict_all(seq![a]) == strict_char(a),
{
    let s = seq![a];
    assert(s.drop_last() =~= Seq::<char>::empty());
    assert(s.last() == a);
    assert(fold_all(s.drop_last()) == Seq::<char>::empty());
    assert(strict_all(s.drop_last()) == Seq::<char>::empty());
    assert(fold_all(s) =~= fold_char(a));
    assert(strict_all(s) =~= strict_char(a));
}

proof fn lemma_ascii_fold_is_strict(c: char)
    requires
        (c as u32) < 128,
    ensures
        fold_all(lower_of(c)) == strict_all(lower_of(c)),
{
    let a = ascii_lowercase(c);
    assert(lower_of(c) == seq![a]);
    lemma_single_fold(a);
}

proof fn lemma_ascii_canon_of_is_strict(s: Seq<char>)
    requires
        is_ascii_text(s),
    ensures
        canon_of(s) == strict_of(s),
    decreases s.len(),
{
    if s.len() > 0 {
        let d = s.drop_last();
        assert forall|i: int| 0 <= i < d.len() implies (#[trigger] d[i] as u32) < 128 by {
            assert(d[i] == s[i]);
        }
        lemma_ascii_canon_of_is_strict(d);
        assert((s[s.len() - 1] as u32) < 128);
        lemma_ascii_fold_is_strict(s.last());
    }
}

/// For ASCII text the strict canonical form (which keeps diacritics) is
/// the canonical form: there are no diacritics to fold.
pub proof fn lemma_canon_strict_is_canon_for_ascii(s: Seq<char>)
    requires
        is_ascii_text(s),
    ensures
        canon_strict_spec(s) == canon_spec(s),
{
    lemma_trimmed_keeps(s, |c: char| (c as u32) < 128);
    lemma_ascii_canon_of_is_strict(trimmed(s));
}

/// A char that canonical forms are made of: ASCII, not an uppercase
/// letter, not dropped and not whitespace.
pub open spec fn settled_char(c: char) -> bool {
    (c as u32) < 128 && !('A' <= c <= 'Z') && !is_dropped(c) && !is_white_space(c)
}

proof fn lemma_canon_of_settles(s: Seq<char>)
    requires
        is_ascii_text(s),
        spaces_only(s),
    ensures
        forall|i: int| 0 <= i < canon_of(s).len() ==> settled_char(#[trigger] canon_of(s)[i]),
    decreases s.len(),
{
    if s.len() > 0 {
        let d = s.drop_last();
        assert forall|i: int| 0 <= i < d.len() implies (#[trigger] d[i] as u32) < 128 by {
            assert(d[i] == s[i]);
        }
        assert forall|i: int| 0 <= i < d.len() && is_white_space(#[trigger] d[i]) implies d[i] == ' ' by {
            assert(d[i] == s[i]);
        }
        lemma_canon_of_settles(d);
        let c = s.last();
        assert((c as u32) < 128);
        assert(is_white_space(c) ==> c == ' ');
        let a = ascii_lowercase(c);
        assert(lower_of(c) == seq![a]);
        lemma_single_fold(a);
        let x = canon_of(d);
        let y = fold_char(a);
        assert(y.len() == 0 || (y.len() == 1 && y[0] == a && settled_char(a)));
        assert forall|i: int| 0 <= i < (x + y).len() implies settled_char(#[trigger] (x + y)[i]) by {
            if i < x.len() {
                assert((x + y)[i] == x[i]);
            } else {
                assert((x + y)[i] == y[i - x.len()]);
            }
        }
    }
}

proof fn lemma_canon_of_settled(x: Seq<char>)
    requires
        forall|i: int| 0 <= i < x.len() ==> settled_char(#[trigger] x[i]),
    ensures
        canon_of(x) == x,
    decreases x.len(),
{
    if x.len() > 0 {
        let d = x.drop_last();
        assert forall|i: int| 0 <= i < d.len() implies settled_char(#[trigger] d[i]) by {
            assert(d[i] == x[i]);
        }
        lemma_canon_of_settled(d);
        let c = x.last();
        assert(settled_char(x[x.len() - 1]));
        assert(lower_of(c) == seq![c]);
        lemma_single_fold(c);
        assert(d + seq![c] =~= x);
    }
}

/// Canonicalizing twice is canonicalizing once, for ASCII text whose only
/// whitespace is the plain space (which the canonical form drops).
pub proof fn lemma_canon_idempotent_for_ascii(s: Seq<char>)
    requires
        is_ascii_text(s),
        spaces_only(s),
    ensures
        canon_spec(canon_spec(s)) == canon_spec(s),
{
    let t = trimmed(s);
    lemma_trimmed_keeps(s, |c: char| (c as u32) < 128);
    lemma_trimmed_keeps(s, |c: char| is_white_space(c) ==> c == ' ');
    assert(is_ascii_text(t));
    assert(spaces_only(t));
    lemma_canon_of_settles(t);
    let x = canon_of(t);
    if x.len() > 0 {
        assert(settled_char(x[0]));
        assert(settled_char(x[x.len() - 1]));
    }
    assert(trim_start(x) == x);
    assert(trim_end(x) == x);
    lemma_canon_of_settled(x);
}

/// Which book `normalize_book` finds depends on the input's canonical
/// forms alone; an input whose canonical form is empty finds none, and a
/// book found is one of the 66.
pub proof fn lemma_normalize_by_canon(a: Seq<char>, b: Seq<char>)
    ensures
        canon_spec(a) == canon_spec(b) && canon_strict_spec(a) == canon_strict_spec(b)
            ==> normalize_spec(a) == normalize_spec(b),
        canon_spec(a).len() == 0 ==> normalize_spec(a) is None,
        normalize_spec(a) matches Some(i) ==> 0 <= i < BOOK_COUNT,
{
    lemma_normalize_in_range(a);
}


/// One more char of an ASCII text, canonicalized: its ASCII lowercase,
/// folded.
pub proof fn lemma_canon_step(s: Seq<char>, k: int)
    requires
        0 <= k < s.len(),
        (s[k] as u32) < 128,
    ensures
        canon_of(s.take(k + 1)) == canon_of(s.take(k)) + fold_char(ascii_lowercase(s[k])),
{
    let t = s.take(k + 1);
    assert(t.drop_last() =~= s.take(k));
    assert(t.last() == s[k]);
    lemma_single_fold(ascii_lowercase(s[k]));
}

} // verus!
