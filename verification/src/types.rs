//! Scripture data handed between the sources (bundled text, cache, online
//! API) and the browser: verses, chapters and search hits.

use vstd::prelude::*;
use crate::text::{chars_of, string_from};

verus! {

/// One verse of one translation.
#[derive(Debug, Clone, PartialEq)]
pub struct Verse {
    pub book: String,
    pub chapter: u32,
    pub verse: u32,
    pub text: String,
    pub translation: String,
}

/// A chapter of one translation, its verses in order.
#[derive(Debug, Clone, PartialEq)]
pub struct Chapter {
    pub book: String,
    pub chapter: u32,
    pub verses: Vec<Verse>,
    pub translation: String,
}

/// A verse that matched a search.
#[derive(Debug, Clone, PartialEq)]
pub struct SearchResult {
    pub book: String,
    pub chapter: u32,
    pub verse: u32,
    pub text: String,
    pub translation: String,
}

/// A verse as plain values: (book, chapter, verse, text, translation).
pub open spec fn verse_view(v: Verse) -> (Seq<char>, u32, u32, Seq<char>, Seq<char>) {
    (v.book@, v.chapter, v.verse, v.text@, v.translation@)
}

/// A copy of a verse.
pub fn verse_copy(v: &Verse) -> (r: Verse)
    ensures
        verse_view(r) == verse_view(*v),
{
    Verse {
        book: string_from(chars_of(v.book.as_str()).as_slice()),
        chapter: v.chapter,
        verse: v.verse,
        text: string_from(chars_of(v.text.as_str()).as_slice()),
        translation: string_from(chars_of(v.translation.as_str()).as_slice()),
    }
}

/// The verses of `vs` numbered `start` to `end`, in order.
pub open spec fn between_spec(vs: Seq<Verse>, start: u32, end: u32) -> Seq<Verse> {
    vs.filter(|v: Verse| start <= v.verse && v.verse <= end)
}

/// The verses of a chapter numbered from `start` to `end` (inclusive), in
/// their order.
pub fn verses_between(vs: &Vec<Verse>, start: u32, end: u32) -> (r: Vec<Verse>)
    ensures
        r@.map_values(|v: Verse| verse_view(v)) == between_spec(vs@, start, end).map_values(
            |v: Verse| verse_view(v),
        ),
{
    let mut out: Vec<Verse> = Vec::new();
    let mut i: usize = 0;
    while i < vs.len()
        invariant
            i <= vs@.len(),
            out@.map_values(|v: Verse| verse_view(v)) == between_spec(vs@.take(i as int), start, end).map_values(
                |v: Verse| verse_view(v),
            ),
        decreases vs@.len() - i,
    {
        let v = &vs[i];
        let ghost before = out@;
        proof {
            let t = vs@.take(i + 1);
            assert(t.drop_last() =~= vs@.take(i as int));
            assert(t.last() == vs@[i as int]);
            assert(between_spec(t, start, end) == if start <= v.verse && v.verse <= end {
                between_spec(vs@.take(i as int), start, end).push(*v)
            } else {
                between_spec(vs@.take(i as int), start, end)
            }) by {
                reveal(Seq::filter);
                assert(t.filter(|v: Verse| start <= v.verse && v.verse <= end) == {
                    let out = t.drop_last().filter(|v: Verse| start <= v.verse && v.verse <= end);
                    if start <= t.last().verse && t.last().verse <= end {
                        out.push(t.last())
                    } else {
                        out
                    }
                });
            }
        }
        if start <= v.verse && v.verse <= end {
            out.push(verse_copy(v));
            proof {
                assert(out@.map_values(|v: Verse| verse_view(v)) =~= before.map_values(
                    |v: Verse| verse_view(v),
                ).push(verse_view(vs@[i as int])));
                assert(between_spec(vs@.take(i + 1), start, end).map_values(|v: Verse| verse_view(v))
                    =~= between_spec(vs@.take(i as int), start, end).map_values(
                    |v: Verse| verse_view(v),
                ).push(verse_view(vs@[i as int])));
            }
        }
        i += 1;
    }
    assert(vs@.take(vs@.len() as int) =~= vs@);
    out
}

} // verus!
