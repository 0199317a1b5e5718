//! Parsing of Bible references ("John 3:16", "Ps 23:1-6", "João 3.16",
//! "1. Mose 3,16", "요한1서 5:3") and their display form.

use vstd::prelude::*;
use crate::book_names::{lemma_book_names_plain, plain_name};
use crate::books::{book, normalize_book_index, normalize_spec, spec_book, BookInfo, BOOK_COUNT};
use crate::text::{
    ascii_digit, char_is_alphabetic, chars_of, decimal, digit_char, extend_chars, extend_str,
    alphabetic, is_ascii_digit, is_white_space, push_decimal, string_from, sub_chars, trim_chars,
    trim_end, trim_start, trimmed,
};

verus! {

/// A parsed Bible reference.
#[derive(Debug, Clone, Copy)]
pub struct BibleReference {
    pub book: BookInfo,
    pub chapter: u32,
    pub verse_start: Option<u32>,
    pub verse_end: Option<u32>,
}

/// A parsed reference as plain values: book index, chapter, first and last
/// verse.
pub type RefSpec = (int, u32, Option<u32>, Option<u32>);

/// `r` is the reference that `s` describes.
pub open spec fn ref_is(r: BibleReference, s: RefSpec) -> bool {
    r.book == spec_book(s.0) && r.chapter == s.1 && r.verse_start == s.2 && r.verse_end == s.3
}

/// The chapter and verse part of the display form: "C", "C:V", or "C:V-W"
/// when the range spans more than one verse.
pub open spec fn numbers_text(chapter: u32, verse_start: Option<u32>, verse_end: Option<u32>) -> Seq<char> {
    let c = decimal(chapter as nat);
    match verse_start {
        Some(s) => match verse_end {
            Some(e) => if s != e {
                c + seq![':'] + decimal(s as nat) + seq!['-'] + decimal(e as nat)
            } else {
                c + seq![':'] + decimal(s as nat)
            },
            None => c + seq![':'] + decimal(s as nat),
        },
        None => c,
    }
}

/// The display form: "Book C", "Book C:V", or "Book C:V-W" when the range
/// spans more than one verse.
pub open spec fn display_spec(
    name: Seq<char>,
    chapter: u32,
    verse_start: Option<u32>,
    verse_end: Option<u32>,
) -> Seq<char> {
    name + seq![' '] + numbers_text(chapter, verse_start, verse_end)
}

impl BibleReference {
    /// "John 3:16", "Psalms 23:1-6", "Genesis 1".
    pub fn display(&self) -> (r: String)
        ensures
            r@ == display_spec(self.book.name@, self.chapter, self.verse_start, self.verse_end),
    {
        let mut out: Vec<char> = Vec::new();
        extend_str(&mut out, self.book.name);
        out.push(' ');
        push_decimal(&mut out, self.chapter as u64);
        match self.verse_start {
            Some(s) => {
                out.push(':');
                push_decimal(&mut out, s as u64);
                match self.verse_end {
                    Some(e) => {
                        if s != e {
                            out.push('-');
                            push_decimal(&mut out, e as u64);
                        }
                    },
                    None => {},
                }
            },
            None => {},
        }
        proof {
            let name = self.book.name@;
            let head = name + seq![' '] + decimal(self.chapter as nat);
            assert(out@ =~= display_spec(name, self.chapter, self.verse_start, self.verse_end));
        }
        string_from(out.as_slice())
    }
}

// ---------------------------------------------------------------------------
// Numbers
// ---------------------------------------------------------------------------

/// All chars are ASCII digits.
pub open spec fn all_digits(ds: Seq<char>) -> bool {
    forall|i: int| 0 <= i < ds.len() ==> is_ascii_digit(#[trigger] ds[i])
}

/// The value of a run of decimal digits.
pub open spec fn digits_value(ds: Seq<char>) -> int
    decreases ds.len(),
{
    if ds.len() == 0 {
        0
    } else {
        digits_value(ds.drop_last()) * 10 + ((ds.last() as u32) - ('0' as u32))
    }
}

/// What `str::parse::<u32>` accepts: an optional leading `+`, then one or
/// more ASCII digits whose value fits in a `u32`.
pub open spec fn parse_u32_spec(s: Seq<char>) -> Option<u32> {
    let ds = if s.len() > 0 && s[0] == '+' {
        s.drop_first()
    } else {
        s
    };
    if ds.len() > 0 && all_digits(ds) && digits_value(ds) <= u32::MAX {
        Some(digits_value(ds) as u32)
    } else {
        None
    }
}

proof fn lemma_digits_value_grows(ds: Seq<char>, i: int)
    requires
        0 <= i <= ds.len(),
        all_digits(ds),
    ensures
        digits_value(ds.take(i)) <= digits_value(ds),
        0 <= digits_value(ds.take(i)),
    decreases ds.len() - i,
{
    if i < ds.len() {
        lemma_digits_value_grows(ds, i + 1);
        assert(ds.take(i + 1).drop_last() =~= ds.take(i));
        assert(is_ascii_digit(ds[i]));
    } else {
        assert(ds.take(i) =~= ds);
        lemma_digits_value_nonneg(ds);
    }
}

proof fn lemma_digits_value_nonneg(ds: Seq<char>)
    requires
        all_digits(ds),
    ensures
        0 <= digits_value(ds),
    decreases ds.len(),
{
    if ds.len() > 0 {
        assert(all_digits(ds.drop_last()));
        lemma_digits_value_nonneg(ds.drop_last());
        assert(is_ascii_digit(ds[ds.len() - 1]));
    }
}

/// Parses a decimal `u32` the way `str::parse::<u32>` does.
pub fn parse_u32(s: &[char]) -> (r: Option<u32>)
    ensures
        r == parse_u32_spec(s@),
{
    let start: usize = if s.len() > 0 && s[0] == '+' {
        1
    } else {
        0
    };
    let ghost ds = if s@.len() > 0 && s@[0] == '+' {
        s@.drop_first()
    } else {
        s@
    };
    assert(ds =~= s@.skip(start as int));
    assert(parse_u32_spec(s@) == (if ds.len() > 0 && all_digits(ds) && digits_value(ds) <= u32::MAX {
        Some(digits_value(ds) as u32)
    } else {
        None
    }));
    if start >= s.len() {
        return None;
    }
    let mut acc: u64 = 0;
    let mut i: usize = start;
    while i < s.len()
        invariant
            start <= i <= s@.len(),
            ds == s@.skip(start as int),
            parse_u32_spec(s@) == (if ds.len() > 0 && all_digits(ds) && digits_value(ds)
                <= u32::MAX {
                Some(digits_value(ds) as u32)
            } else {
                None
            }),
            all_digits(ds.take(i - start)),
            acc == digits_value(ds.take(i - start)),
            acc <= u32::MAX,
        decreases s@.len() - i,
    {
        let c = s[i];
        if !ascii_digit(c) {
            assert(ds[i - start] == c);
            assert(!is_ascii_digit(ds[i - start]));
            assert(!all_digits(ds));
            return None;
        }
        let d: u64 = (c as u32 - '0' as u32) as u64;
        assert(ds.take(i + 1 - start).drop_last() =~= ds.take(i - start));
        assert(ds.take(i + 1 - start).last() == c);
        let next = acc * 10 + d;
        assert(next == digits_value(ds.take(i + 1 - start)));
        if next > u32::MAX as u64 {
            proof {
                if all_digits(ds) {
                    lemma_digits_value_grows(ds, i + 1 - start);
                    assert(digits_value(ds) > u32::MAX);
                }
            }
            return None;
        }
        acc = next;
        assert(all_digits(ds.take(i + 1 - start)));
        i += 1;
    }
    assert(ds.take(i - start) =~= ds);
    Some(acc as u32)
}

// ---------------------------------------------------------------------------
// Chapter and verse
// ---------------------------------------------------------------------------

/// Separators: `level` 0 stands between chapter and verse (":", "." or
/// ","), `level` 1 inside a verse range ("-" or an en dash).
pub open spec fn is_sep(level: int, c: char) -> bool {
    if level == 0 {
        c == ':' || c == '.' || c == ','
    } else {
        c == '-' || c == '\u{2013}'
    }
}

/// Index of the first separator of `level` at or after `i`, or `s.len()`.
pub open spec fn find_sep(s: Seq<char>, level: int, i: int) -> int
    decreases s.len() - i,
{
    if i >= s.len() {
        s.len() as int
    } else if is_sep(level, s[i]) {
        i
    } else {
        find_sep(s, level, i + 1)
    }
}

/// `prefix` then `x` then a closing quote.
pub open spec fn quoted(prefix: Seq<char>, x: Seq<char>) -> Seq<char> {
    prefix + x + seq!['\'']
}

/// Chapter, first verse, last verse of "3:16", "3.16", "3,16", "3:16-18",
/// "3", or the error message.
pub open spec fn chapter_verse_spec(input: Seq<char>) -> Result<(u32, Option<u32>, Option<u32>), Seq<char>> {
    let t = trimmed(input);
    let p = find_sep(t, 0, 0);
    if p < t.len() {
        let cs = t.take(p);
        let vp = t.skip(p + 1);
        match parse_u32_spec(trimmed(cs)) {
            None => Err(quoted("Invalid chapter number: '"@, cs)),
            Some(ch) => {
                let q = find_sep(vp, 1, 0);
                if q < vp.len() {
                    let ss = vp.take(q);
                    let es = vp.skip(q + 1);
                    match parse_u32_spec(trimmed(ss)) {
                        None => Err(quoted("Invalid verse number: '"@, ss)),
                        Some(a) => match parse_u32_spec(trimmed(es)) {
                            None => Err(quoted("Invalid verse number: '"@, es)),
                            Some(b) => Ok((ch, Some(a), Some(b))),
                        },
                    }
                } else {
                    match parse_u32_spec(trimmed(vp)) {
                        None => Err(quoted("Invalid verse number: '"@, vp)),
                        Some(v) => Ok((ch, Some(v), Some(v))),
                    }
                }
            },
        }
    } else {
        match parse_u32_spec(t) {
            None => Err(quoted("Invalid chapter number: '"@, t)),
            Some(ch) => Ok((ch, None, None)),
        }
    }
}

fn find_sep_exec(s: &[char], level: usize) -> (r: usize)
    requires
        level <= 1,
    ensures
        r == find_sep(s@, level as int, 0),
        r <= s@.len(),
{
    let mut i: usize = 0;
    while i < s.len()
        invariant
            level <= 1,
            i <= s@.len(),
            find_sep(s@, level as int, 0) == find_sep(s@, level as int, i as int),
        decreases s@.len() - i,
    {
        let c = s[i];
        let hit = if level == 0 {
            c == ':' || c == '.' || c == ','
        } else {
            c == '-' || c == '\u{2013}'
        };
        if hit {
            return i;
        }
        i += 1;
    }
    i
}

fn quoted_exec(prefix: &str, x: &[char]) -> (r: Vec<char>)
    ensures
        r@ == quoted(prefix@, x@),
{
    let mut out: Vec<char> = Vec::new();
    extend_str(&mut out, prefix);
    extend_chars(&mut out, x);
    out.push('\'');
    assert(out@ =~= quoted(prefix@, x@));
    out
}

/// Parse "3:16", "3.16", "3,16", "3:16-18" or "3" into chapter, first verse
/// and last verse. The separator may be ":", "." or ","; a range uses "-"
/// or an en dash.
pub fn parse_chapter_verse(input: &[char]) -> (r: Result<(u32, Option<u32>, Option<u32>), Vec<char>>)
    ensures
        match (r, chapter_verse_spec(input@)) {
            (Ok(a), Ok(b)) => a == b,
            (Err(a), Err(b)) => a@ == b,
            _ => false,
        },
{
    let t = trim_chars(input);
    let p = find_sep_exec(t.as_slice(), 0);
    if p < t.len() {
        let cs = sub_chars(t.as_slice(), 0, p);
        let vp = sub_chars(t.as_slice(), p + 1, t.len());
        assert(cs@ =~= t@.take(p as int));
        assert(vp@ =~= t@.skip(p + 1));
        let cst = trim_chars(cs.as_slice());
        match parse_u32(cst.as_slice()) {
            None => Err(quoted_exec("Invalid chapter number: '", cs.as_slice())),
            Some(ch) => {
                let q = find_sep_exec(vp.as_slice(), 1);
                if q < vp.len() {
                    let ss = sub_chars(vp.as_slice(), 0, q);
                    let es = sub_chars(vp.as_slice(), q + 1, vp.len());
                    assert(ss@ =~= vp@.take(q as int));
                    assert(es@ =~= vp@.skip(q + 1));
                    let sst = trim_chars(ss.as_slice());
                    match parse_u32(sst.as_slice()) {
                        None => Err(quoted_exec("Invalid verse number: '", ss.as_slice())),
                        Some(a) => {
                            let est = trim_chars(es.as_slice());
                            match parse_u32(est.as_slice()) {
                                None => Err(quoted_exec("Invalid verse number: '", es.as_slice())),
                                Some(b) => Ok((ch, Some(a), Some(b))),
                            }
                        },
                    }
                } else {
                    let vpt = trim_chars(vp.as_slice());
                    match parse_u32(vpt.as_slice()) {
                        None => Err(quoted_exec("Invalid verse number: '", vp.as_slice())),
                        Some(v) => Ok((ch, Some(v), Some(v))),
                    }
                }
            },
        }
    } else {
        match parse_u32(t.as_slice()) {
            None => Err(quoted_exec("Invalid chapter number: '", t.as_slice())),
            Some(ch) => Ok((ch, None, None)),
        }
    }
}

// ---------------------------------------------------------------------------
// Candidates
// ---------------------------------------------------------------------------

/// A split of the input into a book name and what follows it.
pub type Cand = (Seq<char>, Seq<char>);

/// Index of the first char at or after `j` that is not a space.
pub open spec fn skip_spaces(s: Seq<char>, j: int) -> int
    decreases s.len() - j,
{
    if j < s.len() && s[j] == ' ' {
        skip_spaces(s, j + 1)
    } else {
        j
    }
}

/// Where the scan for chapter numbers starts: past a leading numbered-book
/// prefix ("1 Cor", "1cor", "1. Mose", "1-а Царів"), or none when the input
/// is bare digits ("3:16", "1.16").
pub open spec fn scan_start(s: Seq<char>) -> Option<int> {
    if s.len() > 0 && is_ascii_digit(s[0]) && s[0] != '0' {
        let j1: int = if s.len() > 1 && (s[1] == '.' || s[1] == '-') {
            2
        } else {
            1
        };
        let j = skip_spaces(s, j1);
        if j < s.len() && alphabetic(s[j]) {
            Some(j)
        } else {
            None
        }
    } else {
        Some(0)
    }
}

/// Walks `s` from `i`; at the start of each digit run, the trimmed text
/// before it is a book candidate (when not empty) with the trimmed rest as
/// its chapter/verse. At most four candidates.
pub open spec fn scan(s: Seq<char>, i: int, in_run: bool, acc: Seq<Cand>) -> Seq<Cand>
    decreases s.len() - i,
{
    if i >= s.len() || acc.len() >= 4 || i < 0 {
        acc
    } else if is_ascii_digit(s[i]) {
        if in_run {
            scan(s, i + 1, true, acc)
        } else {
            let b = trimmed(s.take(i));
            scan(
                s,
                i + 1,
                true,
                if b.len() > 0 {
                    acc.push((b, trimmed(s.skip(i))))
                } else {
                    acc
                },
            )
        }
    } else {
        scan(s, i + 1, false, acc)
    }
}

/// The candidates for a trimmed input: one per digit run, then the whole
/// input as a bare book name; or the error for bare digits.
pub open spec fn candidates_spec(s: Seq<char>) -> Result<Seq<Cand>, Seq<char>> {
    match scan_start(s) {
        None => Err("No book name found"@),
        Some(i) => Ok(scan(s, i, false, seq![]).push((s, seq![]))),
    }
}

/// `v` holds the candidates `c`.
pub open spec fn cands_are(v: Seq<(Vec<char>, Vec<char>)>, c: Seq<Cand>) -> bool {
    v.len() == c.len() && forall|k: int|
        0 <= k < v.len() ==> (#[trigger] v[k]).0@ == c[k].0 && v[k].1@ == c[k].1
}

fn split_candidates(s: &[char]) -> (r: Result<Vec<(Vec<char>, Vec<char>)>, Vec<char>>)
    ensures
        match (r, candidates_spec(s@)) {
            (Ok(a), Ok(b)) => cands_are(a@, b),
            (Err(a), Err(b)) => a@ == b,
            _ => false,
        },
{
    let n = s.len();
    let mut i: usize = 0;
    if n > 0 && ascii_digit(s[0]) && s[0] != '0' {
        let mut j: usize = 1;
        if j < n && (s[j] == '.' || s[j] == '-') {
            j += 1;
        }
        let ghost j1 = j as int;
        while j < n && s[j] == ' '
            invariant
                j1 <= j <= n == s@.len(),
                skip_spaces(s@, j1) == skip_spaces(s@, j as int),
            decreases n - j,
        {
            j += 1;
        }
        if j < n && char_is_alphabetic(s[j]) {
            i = j;
        } else {
            let mut e: Vec<char> = Vec::new();
            extend_str(&mut e, "No book name found");
            assert(e@ =~= "No book name found"@);
            return Err(e);
        }
    }
    assert(scan_start(s@) == Some(i as int));
    let ghost i0 = i as int;
    let mut cands: Vec<(Vec<char>, Vec<char>)> = Vec::new();
    let ghost mut acc: Seq<Cand> = seq![];
    let mut in_run = false;
    while i < n && cands.len() < 4
        invariant
            i0 <= i <= n == s@.len(),
            0 <= i0,
            cands_are(cands@, acc),
            scan(s@, i0, false, seq![]) == scan(s@, i as int, in_run, acc),
        decreases n - i,
    {
        if ascii_digit(s[i]) {
            if !in_run {
                let before = sub_chars(s, 0, i);
                assert(before@ =~= s@.take(i as int));
                let b = trim_chars(before.as_slice());
                if b.len() > 0 {
                    let after = sub_chars(s, i, n);
                    assert(after@ =~= s@.skip(i as int));
                    let a = trim_chars(after.as_slice());
                    proof {
                        acc = acc.push((b@, a@));
                    }
                    cands.push((b, a));
                }
            }
            in_run = true;
        } else {
            in_run = false;
        }
        i += 1;
    }
    let whole: Vec<char> = sub_chars(s, 0, n);
    assert(whole@ =~= s@);
    cands.push((whole, Vec::new()));
    proof {
        let full = acc.push((s@, seq![]));
        assert(cands_are(cands@, full));
    }
    Ok(cands)
}

// ---------------------------------------------------------------------------
// References
// ---------------------------------------------------------------------------

/// "<Book> has <n> chapters, but chapter <c> was requested".
pub open spec fn chapter_error(name: Seq<char>, chapters: u32, chapter: u32) -> Seq<char> {
    name + " has "@ + decimal(chapters as nat) + " chapters, but chapter "@ + decimal(
        chapter as nat,
    ) + " was requested"@
}

/// The reference named by one candidate split, or the error.
pub open spec fn candidate_spec(book_str: Seq<char>, rest: Seq<char>) -> Result<RefSpec, Seq<char>> {
    match normalize_spec(book_str) {
        None => Err(quoted("Unknown book: '"@, book_str)),
        Some(b) => if rest.len() == 0 {
            Ok((b, 1u32, None, None))
        } else {
            match chapter_verse_spec(rest) {
                Err(e) => Err(e),
                Ok(cv) => if cv.0 == 0 || cv.0 > spec_book(b).chapters {
                    Err(chapter_error(spec_book(b).name@, spec_book(b).chapters, cv.0))
                } else {
                    Ok((b, cv.0, cv.1, cv.2))
                },
            }
        },
    }
}

/// The first candidate from `k` on that names a reference; when none does,
/// the error of the earliest one.
pub open spec fn try_candidates(c: Seq<Cand>, k: int) -> Result<RefSpec, Seq<char>>
    decreases c.len() - k,
{
    if k >= c.len() || k < 0 {
        Err("No book name found"@)
    } else {
        match candidate_spec(c[k].0, c[k].1) {
            Ok(r) => Ok(r),
            Err(e) => match try_candidates(c, k + 1) {
                Ok(r) => Ok(r),
                Err(_) => Err(e),
            },
        }
    }
}

/// What `parse` gives for `input`.
pub open spec fn parse_spec(input: Seq<char>) -> Result<RefSpec, Seq<char>> {
    let t = trimmed(input);
    if t.len() == 0 {
        Err("Empty reference"@)
    } else {
        match candidates_spec(t) {
            Err(e) => Err(e),
            Ok(c) => try_candidates(c, 0),
        }
    }
}

/// The reference `r` is what `s` says, and `e` the message.
pub open spec fn result_is(r: Result<BibleReference, String>, s: Result<RefSpec, Seq<char>>) -> bool {
    match (r, s) {
        (Ok(a), Ok(b)) => ref_is(a, b),
        (Err(a), Err(b)) => a@ == b,
        _ => false,
    }
}

fn parse_candidate(book_str: &[char], rest: &[char]) -> (r: Result<BibleReference, Vec<char>>)
    ensures
        match (r, candidate_spec(book_str@, rest@)) {
            (Ok(a), Ok(b)) => ref_is(a, b),
            (Err(a), Err(b)) => a@ == b,
            _ => false,
        },
{
    let name = string_from(book_str);
    let idx = normalize_book_index(name.as_str());
    let b = match idx {
        None => {
            return Err(quoted_exec("Unknown book: '", book_str));
        },
        Some(i) => i,
    };
    let info = book(b);
    if rest.len() == 0 {
        return Ok(BibleReference { book: info, chapter: 1, verse_start: None, verse_end: None });
    }
    let (chapter, verse_start, verse_end) = match parse_chapter_verse(rest) {
        Ok(cv) => cv,
        Err(e) => {
            return Err(e);
        },
    };
    if chapter == 0 || chapter > info.chapters {
        let mut out: Vec<char> = Vec::new();
        extend_str(&mut out, info.name);
        extend_str(&mut out, " has ");
        push_decimal(&mut out, info.chapters as u64);
        extend_str(&mut out, " chapters, but chapter ");
        push_decimal(&mut out, chapter as u64);
        extend_str(&mut out, " was requested");
        assert(out@ =~= chapter_error(info.name@, info.chapters, chapter));
        return Err(out);
    }
    Ok(BibleReference { book: info, chapter, verse_start, verse_end })
}

/// Parse a Bible reference into a book, chapter and optional verse range.
///
/// Accepts "John 3:16", "John 3:16-18", "Genesis 1", "1 Cor 13",
/// "Ps 23:1-6", "jn3:16", localized names with "." or "," separators
/// ("João 3.16", "1. Mose 3,16"), and book names that contain digits
/// ("요한1서 5:3"). A bare book name means its first chapter.
pub fn parse(input: &str) -> (r: Result<BibleReference, String>)
    ensures
        result_is(r, parse_spec(input@)),
{
    let v = chars_of(input);
    let t = trim_chars(v.as_slice());
    if t.len() == 0 {
        let mut e: Vec<char> = Vec::new();
        extend_str(&mut e, "Empty reference");
        assert(e@ =~= "Empty reference"@);
        return Err(string_from(e.as_slice()));
    }
    let cands = match split_candidates(t.as_slice()) {
        Ok(c) => c,
        Err(e) => {
            return Err(string_from(e.as_slice()));
        },
    };
    let ghost c = match candidates_spec(t@) {
        Ok(c) => c,
        Err(_) => seq![],
    };
    let mut first_err: Option<Vec<char>> = None;
    let mut k: usize = 0;
    while k < cands.len()
        invariant
            k <= cands@.len(),
            cands_are(cands@, c),
            parse_spec(input@) == match first_err {
                Some(e) => match try_candidates(c, k as int) {
                    Ok(r) => Ok(r),
                    Err(_) => Err(e@),
                },
                None => try_candidates(c, k as int),
            },
        decreases cands@.len() - k,
    {
        let pair = &cands[k];
        match parse_candidate(pair.0.as_slice(), pair.1.as_slice()) {
            Ok(r) => {
                return Ok(r);
            },
            Err(e) => {
                if first_err.is_none() {
                    first_err = Some(e);
                }
            },
        }
        k += 1;
    }
    match first_err {
        Some(e) => Err(string_from(e.as_slice())),
        None => {
            let mut e: Vec<char> = Vec::new();
            extend_str(&mut e, "No book name found");
            assert(e@ =~= "No book name found"@);
            Err(string_from(e.as_slice()))
        },
    }
}

/// What a reference asks to be read: one verse, a range of verses, or the
/// whole chapter.
#[derive(Debug, Clone, Copy, PartialEq, Eq, Structural)]
pub enum ReadPlan {
    Verse(u32),
    Range(u32, u32),
    Chapter,
}

impl BibleReference {
    /// One verse when the reference names a single verse, a range when it
    /// names two different ends, else the whole chapter.
    pub fn read_plan(&self) -> (r: ReadPlan)
        ensures
            r == match (self.verse_start, self.verse_end) {
                (Some(a), Some(b)) => if a != b {
                    ReadPlan::Range(a, b)
                } else {
                    ReadPlan::Verse(a)
                },
                (Some(a), None) => ReadPlan::Verse(a),
                _ => ReadPlan::Chapter,
            },
    {
        match (self.verse_start, self.verse_end) {
            (Some(a), Some(b)) => if a != b {
                ReadPlan::Range(a, b)
            } else {
                ReadPlan::Verse(a)
            },
            (Some(a), None) => ReadPlan::Verse(a),
            _ => ReadPlan::Chapter,
        }
    }
}

/// The book and chapter of the verse of the day for day number `day`
/// (days since 1970-01-01): the books in turn, and within a book its
/// chapters in turn as the days go round.
pub fn daily_chapter(day: u64) -> (r: (usize, u32))
    ensures
        r.0 == day % 66,
        r.1 == (day / 66) % (spec_book((day % 66) as int).chapters as u64) + 1,
{
    proof {
        crate::books::lemma_books_have_chapters();
    }
    let idx = (day % 66) as usize;
    let chapters = book(idx).chapters as u64;
    let ch = ((day / 66) % chapters + 1) as u32;
    (idx, ch)
}

/// Which of a chapter's `count` verses is the verse of the day `day`.
pub fn daily_verse_index(day: u64, count: usize) -> (r: usize)
    requires
        count > 0,
    ensures
        r == (day / 66) % (count as u64),
{
    ((day / 66) % (count as u64)) as usize
}

// ---------------------------------------------------------------------------
// Reading the display form back
// ---------------------------------------------------------------------------

proof fn lemma_digit_char(d: nat)
    requires
        d < 10,
    ensures
        is_ascii_digit(digit_char(d)),
        (digit_char(d) as u32) - ('0' as u32) == d,
{
}

/// A numeral is one or more digits whose value is the number.
proof fn lemma_decimal(n: nat)
    ensures
        decimal(n).len() >= 1,
        all_digits(decimal(n)),
        digits_value(decimal(n)) == n,
    decreases n,
{
    let d = decimal(n);
    if n < 10 {
        lemma_digit_char(n);
        assert(d.drop_last() =~= Seq::<char>::empty());
        assert(digits_value(d.drop_last()) == 0);
        assert(d.last() == digit_char(n));
    } else {
        lemma_decimal(n / 10);
        lemma_digit_char(n % 10);
        let p = decimal(n / 10);
        assert(d.drop_last() =~= p);
        assert(d.last() == digit_char(n % 10));
        assert(digits_value(d) == digits_value(p) * 10 + ((d.last() as u32) - ('0' as u32)));
        assert(n == (n / 10) * 10 + n % 10);
        assert forall|i: int| 0 <= i < d.len() implies is_ascii_digit(#[trigger] d[i]) by {
            if i < d.len() - 1 {
                assert(d[i] == p[i]);
            }
        }
    }
}

/// The numeral of a `u32` parses back to it.
proof fn lemma_parse_decimal(n: u32)
    ensures
        parse_u32_spec(decimal(n as nat)) == Some(n),
{
    lemma_decimal(n as nat);
    assert(is_ascii_digit(decimal(n as nat)[0]));
}

/// Text that neither starts nor ends with whitespace is its own trim.
proof fn lemma_trimmed_unchanged(s: Seq<char>)
    requires
        s.len() > 0,
        !is_white_space(s[0]),
        !is_white_space(s.last()),
    ensures
        trimmed(s) == s,
{
    assert(trim_start(s) == s);
    assert(trim_end(s) == s);
}

/// In digits followed by text that is empty or starts with a separator of
/// `level`, the first such separator from `i` on is right after the
/// digits.
proof fn lemma_find_sep_after_digits(ds: Seq<char>, rest: Seq<char>, level: int, i: int)
    requires
        all_digits(ds),
        0 <= i <= ds.len(),
        rest.len() == 0 || is_sep(level, rest[0]),
    ensures
        find_sep(ds + rest, level, i) == ds.len(),
    decreases ds.len() - i,
{
    let s = ds + rest;
    if i < ds.len() {
        assert(s[i] == ds[i]);
        assert(is_ascii_digit(ds[i]));
        lemma_find_sep_after_digits(ds, rest, level, i + 1);
    } else if rest.len() > 0 {
        assert(s[i] == rest[0]);
    }
}

/// The chapter/verse part of a display form reads back as the chapter and
/// verses it shows.
proof fn lemma_numbers_read_back(ch: u32, vs: Option<u32>, ve: Option<u32>)
    requires
        vs is Some <==> ve is Some,
    ensures
        chapter_verse_spec(numbers_text(ch, vs, ve)) == Ok::<(u32, Option<u32>, Option<u32>), Seq<char>>((ch, vs, ve)),
        numbers_text(ch, vs, ve).len() > 0,
        is_ascii_digit(numbers_text(ch, vs, ve)[0]),
        is_ascii_digit(numbers_text(ch, vs, ve).last()),
{
    let c = decimal(ch as nat);
    lemma_decimal(ch as nat);
    lemma_parse_decimal(ch);
    let t = numbers_text(ch, vs, ve);
    assert(is_ascii_digit(c[0]));
    assert(is_ascii_digit(c.last()));
    match vs {
        None => {
            assert(t == c);
            lemma_trimmed_unchanged(t);
            assert(c =~= c + Seq::<char>::empty());
            lemma_find_sep_after_digits(c, Seq::<char>::empty(), 0, 0);
        },
        Some(a) => {
            let e = ve.unwrap();
            let da = decimal(a as nat);
            lemma_decimal(a as nat);
            lemma_parse_decimal(a);
            assert(is_ascii_digit(da[0]));
            assert(is_ascii_digit(da.last()));
            lemma_trimmed_unchanged(c);
            lemma_trimmed_unchanged(da);
            let vp = if a != e {
                da + seq!['-'] + decimal(e as nat)
            } else {
                da
            };
            assert(t =~= c + (seq![':'] + vp));
            assert(t[0] == c[0]);
            lemma_find_sep_after_digits(c, seq![':'] + vp, 0, 0);
            assert(t.take(c.len() as int) =~= c);
            assert(t.skip(c.len() as int + 1) =~= vp);
            if a != e {
                let de = decimal(e as nat);
                lemma_decimal(e as nat);
                lemma_parse_decimal(e);
                assert(is_ascii_digit(de[0]));
                assert(is_ascii_digit(de.last()));
                lemma_trimmed_unchanged(de);
                assert(t.last() == de.last());
                lemma_trimmed_unchanged(t);
                assert(vp =~= da + (seq!['-'] + de));
                lemma_find_sep_after_digits(da, seq!['-'] + de, 1, 0);
                assert(vp.take(da.len() as int) =~= da);
                assert(vp.skip(da.len() as int + 1) =~= de);
            } else {
                assert(t.last() == da.last());
                lemma_trimmed_unchanged(t);
                assert(da =~= da + Seq::<char>::empty());
                lemma_find_sep_after_digits(da, Seq::<char>::empty(), 1, 0);
            }
        },
    }
}

/// `scan` keeps the candidates it has gathered, in front.
proof fn lemma_scan_keeps(s: Seq<char>, i: int, in_run: bool, acc: Seq<Cand>)
    ensures
        scan(s, i, in_run, acc).len() >= acc.len(),
        forall|k: int| 0 <= k < acc.len() ==> #[trigger] scan(s, i, in_run, acc)[k] == acc[k],
    decreases s.len() - i,
{
    if i >= s.len() || acc.len() >= 4 || i < 0 {
    } else if is_ascii_digit(s[i]) {
        if in_run {
            lemma_scan_keeps(s, i + 1, true, acc);
        } else {
            let b = trimmed(s.take(i));
            let acc2 = if b.len() > 0 {
                acc.push((b, trimmed(s.skip(i))))
            } else {
                acc
            };
            lemma_scan_keeps(s, i + 1, true, acc2);
            assert forall|k: int| 0 <= k < acc.len() implies #[trigger] scan(s, i, in_run, acc)[k]
                == acc[k] by {
                assert(acc2[k] == acc[k]);
            }
        }
    } else {
        lemma_scan_keeps(s, i + 1, false, acc);
    }
}

/// Over chars that are not digits, `scan` gathers nothing.
proof fn lemma_scan_skips(s: Seq<char>, i: int, j: int, acc: Seq<Cand>)
    requires
        0 <= i <= j <= s.len(),
        acc.len() < 4,
        forall|k: int| i <= k < j ==> !is_ascii_digit(#[trigger] s[k]),
    ensures
        scan(s, i, false, acc) == scan(s, j, false, acc),
    decreases j - i,
{
    if i < j {
        assert(!is_ascii_digit(s[i]));
        lemma_scan_skips(s, i + 1, j, acc);
    }
}

/// A reference of the kind `parse` gives: one of the books, a chapter
/// that book has, and either no verse or a first and a last verse.
pub open spec fn ref_in_range(r: RefSpec) -> bool {
    &&& 0 <= r.0 < BOOK_COUNT
    &&& 1 <= r.1 <= spec_book(r.0).chapters
    &&& (r.2 is Some <==> r.3 is Some)
}

proof fn lemma_candidate_in_range(book_str: Seq<char>, rest: Seq<char>)
    ensures
        candidate_spec(book_str, rest) matches Ok(r) ==> ref_in_range(r),
{
    crate::books::lemma_normalize_in_range(book_str);
    crate::books::lemma_books_have_chapters();
}

proof fn lemma_try_candidates_in_range(c: Seq<Cand>, k: int)
    ensures
        try_candidates(c, k) matches Ok(r) ==> ref_in_range(r),
    decreases c.len() - k,
{
    if 0 <= k < c.len() {
        lemma_candidate_in_range(c[k].0, c[k].1);
        lemma_try_candidates_in_range(c, k + 1);
    }
}

/// Every reference that `parse` gives is of that kind.
pub proof fn lemma_parse_in_range(input: Seq<char>)
    ensures
        parse_spec(input) matches Ok(r) ==> ref_in_range(r),
{
    let t = trimmed(input);
    match candidates_spec(t) {
        Ok(c) => lemma_try_candidates_in_range(c, 0),
        Err(_) => {},
    }
}

/// The display form of a reference parses back to that reference.
pub proof fn lemma_display_parses_back(r: RefSpec)
    requires
        ref_in_range(r),
    ensures
        parse_spec(display_spec(spec_book(r.0).name@, r.1, r.2, r.3)) == Ok::<RefSpec, Seq<char>>(r),
{
    let n = spec_book(r.0).name@;
    lemma_book_names_plain();
    assert(plain_name(n));
    let tail = numbers_text(r.1, r.2, r.3);
    lemma_numbers_read_back(r.1, r.2, r.3);
    let d = display_spec(n, r.1, r.2, r.3);
    let k: int = n.len() as int + 1;
    assert(d[0] == n[0]);
    assert(d.last() == tail.last());
    lemma_trimmed_unchanged(d);
    let j0: int = if is_ascii_digit(n[0]) {
        2
    } else {
        0
    };
    if is_ascii_digit(n[0]) {
        assert(d[1] == ' ');
        assert(d[2] == n[2]);
        assert(skip_spaces(d, 2) == 2);
        assert(skip_spaces(d, 1) == 2);
    }
    assert(scan_start(d) == Some(j0));
    assert forall|m: int| j0 <= m < k implies !is_ascii_digit(#[trigger] d[m]) by {
        if m < n.len() {
            assert(d[m] == n[m]);
        } else {
            assert(d[m] == ' ');
        }
    }
    lemma_scan_skips(d, j0, k, seq![]);
    assert(d[k] == tail[0]);
    let head = d.take(k);
    assert(head =~= n + seq![' ']);
    assert(trim_start(head) == head);
    assert(head.drop_last() =~= n);
    assert(trim_end(n) == n);
    assert(trim_end(head) == n);
    assert(trimmed(head) == n);
    assert(d.skip(k) =~= tail);
    lemma_trimmed_unchanged(tail);
    let first: Cand = (n, tail);
    assert(scan(d, k, false, seq![]) == scan(d, k + 1, true, seq![first]));
    lemma_scan_keeps(d, k + 1, true, seq![first]);
    let c = scan(d, j0, false, seq![]).push((d, seq![]));
    assert(c[0] == first);
    crate::book_lookup::lemma_full_name_finds_book(r.0);
    assert(candidate_spec(n, tail) == Ok::<RefSpec, Seq<char>>(r));
    assert(candidates_spec(d) == Ok::<Seq<Cand>, Seq<char>>(c));
    assert(try_candidates(c, 0) == Ok::<RefSpec, Seq<char>>(r));
}


/// Whatever `parse` reads from an input, it reads again from that
/// reference's display form: the same book, chapter and verses.
pub proof fn lemma_parse_display_round_trip(input: Seq<char>, r: BibleReference, s: RefSpec)
    requires
        parse_spec(input) == Ok::<RefSpec, Seq<char>>(s),
        ref_is(r, s),
    ensures
        parse_spec(display_spec(r.book.name@, r.chapter, r.verse_start, r.verse_end)) == Ok::<
            RefSpec,
            Seq<char>,
        >(s),
{
    lemma_parse_in_range(input);
    lemma_display_parses_back(s);
}

} // verus!
