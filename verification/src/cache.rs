//! Decisions of the on-disk translation cache: which translations are
//! available offline, file names, matching cached verses against a search,
//! and placing downloaded book names.

use vstd::prelude::*;
use crate::books::{book, spec_book, BOOK_COUNT};
use crate::text::{
    chars_of, contains_spec, decimal, eq_ignore_ascii_case, eq_ignore_ascii_case_spec, extend_str,
    find_chars, lowercase_str, push_decimal, str_to_lowercase, string_from,
};
use crate::types::{Chapter, SearchResult, Verse};

verus! {

/// The translation bundled with the program: KJV, in any ASCII case.
pub open spec fn is_bundled_spec(translation: Seq<char>) -> bool {
    eq_ignore_ascii_case_spec(translation, "KJV"@)
}

/// Whether `translation` is the bundled KJV.
pub fn is_bundled(translation: &str) -> (r: bool)
    ensures
        r == is_bundled_spec(translation@),
{
    eq_ignore_ascii_case(translation, "KJV")
}

/// Whether a translation is available offline in full: the bundled KJV
/// always, another one when its download left the completion marker.
pub fn is_fully_cached(translation: &str, complete_marker_present: bool) -> (r: bool)
    ensures
        r == (is_bundled_spec(translation@) || complete_marker_present),
{
    is_bundled(translation) || complete_marker_present
}

/// Whether a translation has local data: the bundled KJV always, another
/// one when at least one of the names in its cache directory
/// (`file_names`) is that of a cached chapter file.
pub fn has_cached_data(translation: &str, file_names: &Vec<String>) -> (r: bool)
    ensures
        r == (is_bundled_spec(translation@) || any_chapter_file_spec(file_names@)),
{
    is_bundled(translation) || any_chapter_file(file_names)
}

/// `name` is the name of the file that caches a chapter of the canon:
/// "<book id>_<chapter>.json" for one of the 66 books and one of its
/// chapters.
pub open spec fn is_chapter_file(name: Seq<char>) -> bool {
    exists|i: int, ch: int|
        0 <= i < BOOK_COUNT && 1 <= ch <= spec_book(i).chapters && name == #[trigger] chapter_file_spec(
            spec_book(i).bolls_id,
            ch as u32,
        )
}

/// One of `names` is that of a cached chapter file.
pub open spec fn any_chapter_file_spec(names: Seq<String>) -> bool {
    exists|k: int| 0 <= k < names.len() && is_chapter_file(#[trigger] names[k]@)
}

/// Whether `name` is the name of the file that caches a chapter of the
/// canon.
pub fn is_chapter_file_name(name: &str) -> (r: bool)
    ensures
        r == is_chapter_file(name@),
{
    proof {
        crate::books::lemma_books_have_chapters();
    }
    let v = chars_of(name);
    let mut i: usize = 0;
    while i < BOOK_COUNT
        invariant
            i <= BOOK_COUNT,
            v@ == name@,
            forall|j: int| 0 <= j < BOOK_COUNT ==> 1 <= #[trigger] spec_book(j).chapters <= 150,
            forall|j: int, ch: int|
                0 <= j < i && 1 <= ch <= spec_book(j).chapters ==> name@ != #[trigger] chapter_file_spec(
                    spec_book(j).bolls_id,
                    ch as u32,
                ),
        decreases BOOK_COUNT - i,
    {
        let b = book(i);
        let mut ch: u32 = 1;
        assert(1 <= spec_book(i as int).chapters <= 150);
        while ch <= b.chapters
            invariant
                b == spec_book(i as int),
                i < BOOK_COUNT,
                1 <= ch <= b.chapters + 1,
                b.chapters <= 150,
                v@ == name@,
                forall|c: int|
                    1 <= c < ch ==> name@ != #[trigger] chapter_file_spec(b.bolls_id, c as u32),
            decreases b.chapters + 1 - ch,
        {
            let f = chapter_file_name(b.bolls_id, ch);
            let fv = chars_of(f.as_str());
            if crate::books::chars_eq(fv.as_slice(), v.as_slice()) {
                let ghost j: int = i as int;
                let ghost c: int = ch as int;
                assert(c as u32 == ch);
                assert(name@ == chapter_file_spec(spec_book(j).bolls_id, c as u32));
                assert(0 <= j < BOOK_COUNT && 1 <= c <= spec_book(j).chapters);
                return true;
            }
            ch += 1;
        }
        assert forall|j: int, c: int|
            0 <= j < i + 1 && 1 <= c <= spec_book(j).chapters implies name@ != #[trigger] chapter_file_spec(
                spec_book(j).bolls_id,
                c as u32,
            ) by {
            if j == i {
                assert(1 <= c < ch);
            }
        }
        i += 1;
    }
    false
}

/// Whether one of `names` is that of a cached chapter file.
pub fn any_chapter_file(names: &Vec<String>) -> (r: bool)
    ensures
        r == any_chapter_file_spec(names@),
{
    let mut k: usize = 0;
    while k < names.len()
        invariant
            k <= names@.len(),
            forall|m: int| 0 <= m < k ==> !is_chapter_file(#[trigger] names@[m]@),
        decreases names@.len() - k,
    {
        if is_chapter_file_name(names[k].as_str()) {
            return true;
        }
        k += 1;
    }
    false
}

/// Sum of the chapter counts of the first `n` books.
pub open spec fn chapters_before(n: int) -> int
    decreases n,
{
    if n <= 0 {
        0
    } else {
        chapters_before(n - 1) + spec_book(n - 1).chapters
    }
}

/// Total number of chapters in the Bible (1189).
pub fn total_chapters() -> (r: usize)
    ensures
        r == chapters_before(BOOK_COUNT as int),
        r == 1189,
{
    let mut total: usize = 0;
    let mut i: usize = 0;
    while i < BOOK_COUNT
        invariant
            i <= BOOK_COUNT,
            total == chapters_before(i as int),
            total <= 150 * i,
        decreases BOOK_COUNT - i,
    {
        let b = book(i);
        total = total + b.chapters as usize;
        i += 1;
    }
    proof {
        reveal_with_fuel(chapters_before, 67);
    }
    total
}

/// The file that caches one chapter: "<book id>_<chapter>.json".
pub open spec fn chapter_file_spec(book_id: u32, chapter: u32) -> Seq<char> {
    decimal(book_id as nat) + seq!['_'] + decimal(chapter as nat) + ".json"@
}

/// The name of the file that caches one chapter.
pub fn chapter_file_name(book_id: u32, chapter: u32) -> (r: String)
    ensures
        r@ == chapter_file_spec(book_id, chapter),
{
    let mut v: Vec<char> = Vec::new();
    push_decimal(&mut v, book_id as u64);
    v.push('_');
    push_decimal(&mut v, chapter as u64);
    extend_str(&mut v, ".json");
    assert(v@ =~= chapter_file_spec(book_id, chapter));
    string_from(v.as_slice())
}

/// At most this many search results are collected.
pub const MAX_SEARCH_RESULTS: usize = 50;

/// The indices of the verses whose lowercased text contains `q`.
pub open spec fn matching_verses(verses: Seq<Verse>, q: Seq<char>) -> Seq<int>
    decreases verses.len(),
{
    if verses.len() == 0 {
        seq![]
    } else {
        let m = matching_verses(verses.drop_last(), q);
        if contains_spec(lowercase_str(verses.last().text@), q) {
            m.push(verses.len() - 1)
        } else {
            m
        }
    }
}

/// A search result as plain values.
pub type HitView = (Seq<char>, u32, u32, Seq<char>, Seq<char>);

pub open spec fn hit_view(r: SearchResult) -> HitView {
    (r.book@, r.chapter, r.verse, r.text@, r.translation@)
}

pub open spec fn hit_views(rs: Seq<SearchResult>) -> Seq<HitView> {
    rs.map_values(|r: SearchResult| hit_view(r))
}

/// The result for verse `v` of chapter `chapter` of the named book.
pub open spec fn verse_hit(book: Seq<char>, chapter: u32, v: Verse, translation: Seq<char>) -> HitView {
    (book, chapter, v.verse, v.text@, translation)
}

/// The results for the matching verses `idx`, in order.
pub open spec fn hits_of(
    book: Seq<char>,
    chapter: u32,
    verses: Seq<Verse>,
    idx: Seq<int>,
    translation: Seq<char>,
) -> Seq<HitView> {
    idx.map_values(|i: int| verse_hit(book, chapter, verses[i], translation))
}

fn gather_matches(
    results: &mut Vec<SearchResult>,
    book_name: &str,
    chapter: u32,
    verses: &Vec<Verse>,
    query_lower: &str,
    translation: &str,
) -> (full: bool)
    requires
        old(results)@.len() < MAX_SEARCH_RESULTS,
    ensures
        ({
            let m = matching_verses(verses@, query_lower@);
            let room = MAX_SEARCH_RESULTS - old(results)@.len();
            let taken = if m.len() < room {
                m
            } else {
                m.take(room)
            };
            &&& hit_views(final(results)@) == hit_views(old(results)@) + hits_of(
                book_name@,
                chapter,
                verses@,
                taken,
                translation@,
            )
            &&& full == (old(results)@.len() + m.len() >= MAX_SEARCH_RESULTS)
        }),
{
    let q = chars_of(query_lower);
    let ghost q_s = query_lower@;
    let ghost vs = verses@;
    let ghost start = hit_views(results@);
    let ghost n0 = results@.len();
    let mut i: usize = 0;
    while i < verses.len()
        invariant
            q@ == q_s,
            q_s == query_lower@,
            vs == verses@,
            start == hit_views(old(results)@),
            n0 == old(results)@.len(),
            i <= vs.len(),
            n0 < MAX_SEARCH_RESULTS,
            n0 + matching_verses(vs.take(i as int), q_s).len() < MAX_SEARCH_RESULTS,
            hit_views(results@) == start + hits_of(
                book_name@,
                chapter,
                vs,
                matching_verses(vs.take(i as int), q_s),
                translation@,
            ),
            results@.len() == n0 + matching_verses(vs.take(i as int), q_s).len(),
        decreases vs.len() - i,
    {
        let v = &verses[i];
        let lower = str_to_lowercase(v.text.as_str());
        let lc = chars_of(lower.as_str());
        let ghost m_prev = matching_verses(vs.take(i as int), q_s);
        assert(vs.take(i + 1).drop_last() =~= vs.take(i as int));
        assert(vs.take(i + 1).last() == vs[i as int]);
        let found = find_chars(lc.as_slice(), q.as_slice());
        if found.is_some() {
            let hit = SearchResult {
                book: string_from(chars_of(book_name).as_slice()),
                chapter,
                verse: v.verse,
                text: v.text.clone(),
                translation: string_from(chars_of(translation).as_slice()),
            };
            let ghost before = results@;
            results.push(hit);
            let ghost m = matching_verses(vs.take(i + 1), q_s);
            assert(m == m_prev.push(i as int));
            assert(hit_views(results@) =~= hit_views(before).push(hit_view(hit)));
            assert(hits_of(book_name@, chapter, vs, m, translation@) =~= hits_of(
                book_name@,
                chapter,
                vs,
                m_prev,
                translation@,
            ).push(verse_hit(book_name@, chapter, vs[i as int], translation@)));
            if results.len() >= MAX_SEARCH_RESULTS {
                proof {
                    lemma_matching_len(vs, q_s, i as int + 1);
                    assert(m.len() <= matching_verses(vs, q_s).len());
                    lemma_matching_prefix(vs, q_s, i as int + 1);
                    let mm = matching_verses(vs, q_s);
                    assert(mm.take(m.len() as int) =~= m);
                    assert(m.len() == MAX_SEARCH_RESULTS - n0);
                    assert(!(mm.len() < MAX_SEARCH_RESULTS - n0));
                    assert(hit_views(results@) == start + hits_of(book_name@, chapter, vs, m, translation@));
                    let room = MAX_SEARCH_RESULTS - n0;
                    let taken = if mm.len() < room { mm } else { mm.take(room) };
                    assert(taken == m);
                    assert(start == hit_views(old(results)@));
                    assert(n0 == old(results)@.len());
                    assert(hit_views(results@) == hit_views(old(results)@) + hits_of(book_name@, chapter, verses@, taken, translation@));
                    assert(n0 + mm.len() >= MAX_SEARCH_RESULTS);
                }
                return true;
            }
        } else {
            assert(matching_verses(vs.take(i + 1), q_s) == m_prev);
        }
        i += 1;
    }
    assert(vs.take(vs.len() as int) =~= vs);
    false
}

/// A verse index of `verses` whose lowercased text contains `q`.
pub open spec fn matching_index(verses: Seq<Verse>, q: Seq<char>, j: int) -> bool {
    0 <= j < verses.len() && contains_spec(lowercase_str(verses[j].text@), q)
}

/// The result `h` comes from this chapter: it names the book, the chapter
/// and the translation it was searched in, and the number and text of one
/// of the chapter's verses whose lowercased text contains `q`.
pub open spec fn hit_is_from(
    h: HitView,
    book: Seq<char>,
    chapter: u32,
    verses: Seq<Verse>,
    q: Seq<char>,
    translation: Seq<char>,
) -> bool {
    &&& h.0 == book
    &&& h.1 == chapter
    &&& h.4 == translation
    &&& exists|j: int|
        matching_index(verses, q, j) && h.2 == #[trigger] verses[j].verse && h.3 == verses[j].text@
}

/// Every index that `matching_verses` lists is a verse of the chapter whose
/// lowercased text contains the query, and they come in increasing order.
pub proof fn lemma_matching_verses_sound(verses: Seq<Verse>, q: Seq<char>)
    ensures
        forall|k: int|
            0 <= k < matching_verses(verses, q).len() ==> matching_index(
                verses,
                q,
                #[trigger] matching_verses(verses, q)[k],
            ),
        forall|k: int, l: int|
            0 <= k < l < matching_verses(verses, q).len() ==> #[trigger] matching_verses(verses, q)[k]
                < #[trigger] matching_verses(verses, q)[l],
    decreases verses.len(),
{
    if verses.len() > 0 {
        let p = verses.drop_last();
        lemma_matching_verses_sound(p, q);
        let m = matching_verses(p, q);
        assert forall|k: int| 0 <= k < m.len() implies matching_index(verses, q, #[trigger] m[k]) by {
            assert(matching_index(p, q, m[k]));
            assert(verses[m[k]] == p[m[k]]);
        }
    }
}

/// Each result made from a list of matching verse indices names the book,
/// the chapter and the translation searched, and a matching verse of that
/// chapter.
pub proof fn lemma_hits_carry_their_place(
    book: Seq<char>,
    chapter: u32,
    verses: Seq<Verse>,
    q: Seq<char>,
    idx: Seq<int>,
    translation: Seq<char>,
)
    requires
        forall|k: int| 0 <= k < idx.len() ==> matching_index(verses, q, #[trigger] idx[k]),
    ensures
        hits_of(book, chapter, verses, idx, translation).len() == idx.len(),
        forall|k: int|
            0 <= k < idx.len() ==> hit_is_from(
                #[trigger] hits_of(book, chapter, verses, idx, translation)[k],
                book,
                chapter,
                verses,
                q,
                translation,
            ),
{
    assert forall|k: int| 0 <= k < idx.len() implies hit_is_from(
        #[trigger] hits_of(book, chapter, verses, idx, translation)[k],
        book,
        chapter,
        verses,
        q,
        translation,
    ) by {
        let j = idx[k];
        assert(matching_index(verses, q, j));
        let h = hits_of(book, chapter, verses, idx, translation)[k];
        assert(h.2 == verses[j].verse);
    }
}

/// Appends to `results` the verses of one chapter whose lowercased text
/// contains `query_lower`, in order, until `MAX_SEARCH_RESULTS` results
/// are collected. Returns whether that limit was reached.
pub fn collect_matches(
    results: &mut Vec<SearchResult>,
    book_name: &str,
    chapter: u32,
    verses: &Vec<Verse>,
    query_lower: &str,
    translation: &str,
) -> (full: bool)
    requires
        old(results)@.len() < MAX_SEARCH_RESULTS,
    ensures
        ({
            let m = matching_verses(verses@, query_lower@);
            let room = MAX_SEARCH_RESULTS - old(results)@.len();
            let taken = if m.len() < room {
                m
            } else {
                m.take(room)
            };
            &&& hit_views(final(results)@) == hit_views(old(results)@) + hits_of(
                book_name@,
                chapter,
                verses@,
                taken,
                translation@,
            )
            &&& full == (old(results)@.len() + m.len() >= MAX_SEARCH_RESULTS)
        }),
        old(results)@.len() <= final(results)@.len() <= MAX_SEARCH_RESULTS,
        forall|k: int|
            0 <= k < old(results)@.len() ==> hit_view(#[trigger] final(results)@[k]) == hit_view(
                old(results)@[k],
            ),
        forall|k: int|
            old(results)@.len() <= k < final(results)@.len() ==> hit_is_from(
                hit_view(#[trigger] final(results)@[k]),
                book_name@,
                chapter,
                verses@,
                query_lower@,
                translation@,
            ),
{
    let ghost before = results@;
    let full = gather_matches(results, book_name, chapter, verses, query_lower, translation);
    proof {
        let m = matching_verses(verses@, query_lower@);
        let room = MAX_SEARCH_RESULTS - before.len();
        let taken = if m.len() < room {
            m
        } else {
            m.take(room)
        };
        lemma_matching_verses_sound(verses@, query_lower@);
        assert forall|k: int| 0 <= k < taken.len() implies matching_index(
            verses@,
            query_lower@,
            #[trigger] taken[k],
        ) by {
            assert(taken[k] == m[k]);
        }
        lemma_hits_carry_their_place(book_name@, chapter, verses@, query_lower@, taken, translation@);
        let hs = hits_of(book_name@, chapter, verses@, taken, translation@);
        assert(hit_views(results@).len() == results@.len());
        assert(hit_views(before).len() == before.len());
        assert forall|k: int| 0 <= k < before.len() implies hit_view(#[trigger] results@[k]) == hit_view(
            before[k],
        ) by {
            assert(hit_views(results@)[k] == hit_view(results@[k]));
            assert(hit_views(before)[k] == hit_view(before[k]));
        }
        assert forall|k: int| before.len() <= k < results@.len() implies hit_is_from(
            hit_view(#[trigger] results@[k]),
            book_name@,
            chapter,
            verses@,
            query_lower@,
            translation@,
        ) by {
            assert(hit_views(results@)[k] == hit_view(results@[k]));
            assert(hit_views(results@)[k] == hs[k - before.len()]);
        }
    }
    full
}

/// Matching verses of a longer prefix include those of a shorter one.
proof fn lemma_matching_len(vs: Seq<Verse>, q: Seq<char>, i: int)
    requires
        0 <= i <= vs.len(),
    ensures
        matching_verses(vs.take(i), q).len() <= matching_verses(vs, q).len(),
    decreases vs.len() - i,
{
    lemma_matching_prefix(vs, q, i);
}

/// The matching verses of a prefix are a prefix of the matching verses.
proof fn lemma_matching_prefix(vs: Seq<Verse>, q: Seq<char>, i: int)
    requires
        0 <= i <= vs.len(),
    ensures
        matching_verses(vs.take(i), q).len() <= matching_verses(vs, q).len(),
        matching_verses(vs, q).take(matching_verses(vs.take(i), q).len() as int)
            == matching_verses(vs.take(i), q),
    decreases vs.len() - i,
{
    if i == vs.len() {
        assert(vs.take(i) =~= vs);
        let m = matching_verses(vs, q);
        assert(m.take(m.len() as int) =~= m);
    } else {
        lemma_matching_prefix(vs, q, i + 1);
        let a = matching_verses(vs.take(i), q);
        let b = matching_verses(vs.take(i + 1), q);
        let m = matching_verses(vs, q);
        assert(vs.take(i + 1).drop_last() =~= vs.take(i));
        if b.len() == a.len() + 1 {
            assert(b.drop_last() == a);
            assert(m.take(a.len() as int) =~= b.take(a.len() as int));
            assert(b.take(a.len() as int) =~= a);
        } else {
            assert(b == a);
        }
    }
}

// ---------------------------------------------------------------------------
// Downloaded book names
// ---------------------------------------------------------------------------

/// Book names placed by their Bolls book number (1 to 66); other numbers
/// are ignored, and a later name for the same book wins. Unnamed books
/// stay empty.
pub open spec fn names_spec(pairs: Seq<(u64, Seq<char>)>) -> Seq<Seq<char>>
    decreases pairs.len(),
{
    if pairs.len() == 0 {
        Seq::new(BOOK_COUNT as nat, |i: int| Seq::<char>::empty())
    } else {
        let n = names_spec(pairs.drop_last());
        let (id, name) = pairs.last();
        if 1 <= id && id <= BOOK_COUNT {
            n.update(id - 1, name)
        } else {
            n
        }
    }
}

pub open spec fn pair_views(pairs: Seq<(u64, String)>) -> Seq<(u64, Seq<char>)> {
    pairs.map_values(|p: (u64, String)| (p.0, p.1@))
}

pub open spec fn names_view(v: Seq<String>) -> Seq<Seq<char>> {
    v.map_values(|s: String| s@)
}

proof fn lemma_names_len(pairs: Seq<(u64, Seq<char>)>)
    ensures
        names_spec(pairs).len() == BOOK_COUNT,
    decreases pairs.len(),
{
    if pairs.len() > 0 {
        lemma_names_len(pairs.drop_last());
    }
}

/// The 66 localized book names from (book number, name) pairs as the
/// online API lists them.
pub fn book_names_from_pairs(pairs: &Vec<(u64, String)>) -> (r: Vec<String>)
    ensures
        names_view(r@) == names_spec(pair_views(pairs@)),
        r@.len() == BOOK_COUNT,
{
    let mut names: Vec<String> = Vec::new();
    let mut i: usize = 0;
    while i < BOOK_COUNT
        invariant
            i <= BOOK_COUNT,
            names@.len() == i,
            forall|k: int| 0 <= k < i ==> (#[trigger] names@[k])@ == Seq::<char>::empty(),
        decreases BOOK_COUNT - i,
    {
        names.push(String::new());
        i += 1;
    }
    assert(names_view(names@) =~= names_spec(pair_views(pairs@).take(0)));
    let mut k: usize = 0;
    while k < pairs.len()
        invariant
            k <= pairs@.len(),
            names@.len() == BOOK_COUNT,
            names_view(names@) == names_spec(pair_views(pairs@).take(k as int)),
        decreases pairs@.len() - k,
    {
        let (id, ref name) = pairs[k];
        let ghost pv = pair_views(pairs@);
        assert(pv.take(k + 1).drop_last() =~= pv.take(k as int));
        assert(pv.take(k + 1).last() == (id, name@));
        if 1 <= id && id <= BOOK_COUNT as u64 {
            let idx = (id - 1) as usize;
            let ghost before = names@;
            names.set(idx, name.clone());
            assert(names_view(names@) =~= names_view(before).update(idx as int, name@));
        }
        k += 1;
    }
    assert(pair_views(pairs@).take(pairs@.len() as int) =~= pair_views(pairs@));
    names
}

/// Whether any book got a name.
pub fn any_named(names: &Vec<String>) -> (r: bool)
    ensures
        r == exists|i: int| 0 <= i < names@.len() && (#[trigger] names@[i])@.len() > 0,
{
    let mut i: usize = 0;
    while i < names.len()
        invariant
            i <= names@.len(),
            forall|k: int| 0 <= k < i ==> (#[trigger] names@[k])@.len() == 0,
        decreases names@.len() - i,
    {
        if names[i].as_str().is_empty() {
            i += 1;
        } else {
            return true;
        }
    }
    false
}

// ---------------------------------------------------------------------------
// Downloading a translation
// ---------------------------------------------------------------------------

/// A download leaves the completion marker only when it was not cancelled
/// and every chapter was saved.
pub fn should_mark_complete(cancelled: bool, failures: usize) -> (r: bool)
    ensures
        r == (!cancelled && failures == 0),
{
    !cancelled && failures == 0
}

/// The verses of a fetched chapter, in the order sent: (verse number cut
/// to 32 bits, text).
pub open spec fn fetched_verses(
    book: Seq<char>,
    chapter: u32,
    raw: Seq<(u64, String)>,
    translation: Seq<char>,
) -> Seq<(Seq<char>, u32, u32, Seq<char>, Seq<char>)> {
    raw.map_values(|p: (u64, String)| (book, chapter, p.0 as u32, p.1@, translation))
}

pub open spec fn verse_views(vs: Seq<Verse>) -> Seq<(Seq<char>, u32, u32, Seq<char>, Seq<char>)> {
    vs.map_values(|v: Verse| (v.book@, v.chapter, v.verse, v.text@, v.translation@))
}

/// The chapter made of the verses the online API sent (number, text):
/// `None` when it sent none, so that nothing empty is cached.
pub fn chapter_from_fetched(
    book_name: &str,
    chapter: u32,
    raw: &Vec<(u64, String)>,
    translation: &str,
) -> (r: Option<Chapter>)
    ensures
        match r {
            None => raw@.len() == 0,
            Some(c) => raw@.len() > 0 && c.book@ == book_name@ && c.chapter == chapter
                && c.translation@ == translation@ && verse_views(c.verses@) == fetched_verses(
                book_name@,
                chapter,
                raw@,
                translation@,
            ),
        },
{
    if raw.len() == 0 {
        return None;
    }
    let mut verses: Vec<Verse> = Vec::new();
    let mut i: usize = 0;
    while i < raw.len()
        invariant
            i <= raw@.len(),
            verse_views(verses@) == fetched_verses(book_name@, chapter, raw@.take(i as int), translation@),
        decreases raw@.len() - i,
    {
        let (num, ref text) = raw[i];
        let v = Verse {
            book: string_from(chars_of(book_name).as_slice()),
            chapter,
            verse: num as u32,
            text: string_from(chars_of(text.as_str()).as_slice()),
            translation: string_from(chars_of(translation).as_slice()),
        };
        let ghost before = verses@;
        verses.push(v);
        proof {
            assert(raw@.take(i + 1) =~= raw@.take(i as int).push(raw@[i as int]));
            assert(verse_views(verses@) =~= verse_views(before).push(
                (book_name@, chapter, num as u32, text@, translation@),
            ));
            assert(fetched_verses(book_name@, chapter, raw@.take(i + 1), translation@) =~= fetched_verses(
                book_name@,
                chapter,
                raw@.take(i as int),
                translation@,
            ).push((book_name@, chapter, num as u32, text@, translation@)));
        }
        i += 1;
    }
    assert(raw@.take(raw@.len() as int) =~= raw@);
    Some(
        Chapter {
            book: string_from(chars_of(book_name).as_slice()),
            chapter,
            verses,
            translation: string_from(chars_of(translation).as_slice()),
        },
    )
}

/// A verse the online API sent as a search hit or a random verse (book by
/// number, 1 to 66), as a search result: the book's English name, chapter
/// and verse numbers cut to 32 bits, the text without markup. `None` for a
/// book number outside the canon.
pub fn hit_from_api(book_id: u64, chapter: u64, verse: u64, text: &str, translation: &str) -> (r: Option<SearchResult>)
    ensures
        match r {
            None => !(1 <= book_id <= BOOK_COUNT),
            Some(h) => 1 <= book_id <= BOOK_COUNT && h.book@ == spec_book(book_id - 1).name@
                && h.chapter == chapter as u32 && h.verse == verse as u32
                && h.text@ == crate::markup::strip_markup_spec(text@)
                && h.translation@ == translation@,
        },
{
    if book_id < 1 || book_id > BOOK_COUNT as u64 {
        return None;
    }
    let b = book((book_id - 1) as usize);
    Some(
        SearchResult {
            book: string_from(chars_of(b.name).as_slice()),
            chapter: chapter as u32,
            verse: verse as u32,
            text: crate::markup::strip_markup(text),
            translation: string_from(chars_of(translation).as_slice()),
        },
    )
}

} // verus!
