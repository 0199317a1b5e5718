//! Plain text out of the marked-up verse text the online API sends:
//! Strong's numbers (`<S>…</S>`) go with their content, other tags go.

use vstd::prelude::*;
use crate::text::{chars_of, occurs_at, string_from};

verus! {

/// The first index at or after `from` where `q` occurs in `s`, or the
/// length of `s` when there is none.
pub open spec fn find_from(s: Seq<char>, q: Seq<char>, from: int) -> int
    decreases s.len() - from,
{
    if from >= s.len() || from < 0 {
        s.len() as int
    } else if occurs_at(s, q, from) {
        from
    } else {
        find_from(s, q, from + 1)
    }
}

/// Where plain text resumes after the tag or element that starts at `i`:
/// past the closing `</S>` of a Strong's number, past the `>` of any other
/// tag (or at the end when it is not closed).
pub open spec fn markup_end(s: Seq<char>, i: int) -> int {
    if occurs_at(s, "<S>"@, i) {
        let j = find_from(s, "</S>"@, i + 3);
        if j + 4 <= s.len() {
            j + 4
        } else {
            s.len() as int
        }
    } else {
        let j = find_from(s, ">"@, i + 1);
        if j + 1 <= s.len() {
            j + 1
        } else {
            s.len() as int
        }
    }
}

proof fn lemma_find_from_bounds(s: Seq<char>, q: Seq<char>, from: int)
    requires
        0 <= from,
    ensures
        from <= find_from(s, q, from) || find_from(s, q, from) == s.len(),
        find_from(s, q, from) <= s.len(),
    decreases s.len() - from,
{
    if from < s.len() && !occurs_at(s, q, from) {
        lemma_find_from_bounds(s, q, from + 1);
    }
}

proof fn lemma_markup_end_after(s: Seq<char>, i: int)
    requires
        0 <= i < s.len(),
    ensures
        i < markup_end(s, i) <= s.len(),
{
    lemma_find_from_bounds(s, "</S>"@, i + 3);
    lemma_find_from_bounds(s, ">"@, i + 1);
}

/// The plain text of `s` from index `i` on.
pub open spec fn strip_from(s: Seq<char>, i: int) -> Seq<char>
    decreases s.len() - i,
{
    if i < 0 || i >= s.len() {
        seq![]
    } else if s[i] == '<' {
        let j = markup_end(s, i);
        if i < j {
            strip_from(s, j)
        } else {
            seq![]
        }
    } else {
        seq![s[i]] + strip_from(s, i + 1)
    }
}

/// The plain text of a verse as the online API sends it.
pub open spec fn strip_markup_spec(s: Seq<char>) -> Seq<char> {
    strip_from(s, 0)
}

fn occurs_here(s: &[char], q: &[char], i: usize) -> (r: bool)
    ensures
        r == occurs_at(s@, q@, i as int),
{
    if i > s.len() || q.len() > s.len() - i {
        return false;
    }
    let mut k: usize = 0;
    while k < q.len()
        invariant
            i + q@.len() <= s@.len(),
            s@.len() == s.len(),
            k <= q@.len(),
            forall|m: int| 0 <= m < k ==> s@[i + m] == q@[m],
        decreases q@.len() - k,
    {
        if s[i + k] != q[k] {
            assert(s@.subrange(i as int, i + q@.len())[k as int] != q@[k as int]);
            return false;
        }
        k += 1;
    }
    assert(s@.subrange(i as int, i + q@.len()) =~= q@);
    true
}

fn find_exec(s: &[char], q: &[char], from: usize) -> (r: usize)
    ensures
        r == find_from(s@, q@, from as int),
{
    let mut j = from;
    while j < s.len()
        invariant
            from <= j,
            find_from(s@, q@, from as int) == find_from(s@, q@, j as int),
        decreases s@.len() - j,
    {
        if occurs_here(s, q, j) {
            return j;
        }
        j += 1;
    }
    s.len()
}

/// Drops the markup from a verse's text: Strong's numbers (`<S>…</S>`)
/// with their content, and every other tag.
pub fn strip_markup(text: &str) -> (r: String)
    ensures
        r@ == strip_markup_spec(text@),
{
    let s = chars_of(text);
    let open_strong = chars_of("<S>");
    let close_strong = chars_of("</S>");
    let close_tag = chars_of(">");
    proof {
        reveal_strlit("<S>");
        reveal_strlit("</S>");
        reveal_strlit(">");
    }
    let mut out: Vec<char> = Vec::new();
    let mut i: usize = 0;
    while i < s.len()
        invariant
            i <= s@.len(),
            open_strong@ == "<S>"@,
            close_strong@ == "</S>"@,
            close_tag@ == ">"@,
            out@ + strip_from(s@, i as int) == strip_from(s@, 0),
        decreases s@.len() - i,
    {
        if s[i] == '<' {
            proof {
                reveal_strlit("<S>");
                reveal_strlit("</S>");
                reveal_strlit(">");
                lemma_markup_end_after(s@, i as int);
            }
            let next = if occurs_here(s.as_slice(), open_strong.as_slice(), i) {
                let j = find_exec(s.as_slice(), close_strong.as_slice(), i + 3);
                if j <= s.len() && 4 <= s.len() - j {
                    j + 4
                } else {
                    s.len()
                }
            } else {
                let j = find_exec(s.as_slice(), close_tag.as_slice(), i + 1);
                if j < s.len() {
                    j + 1
                } else {
                    s.len()
                }
            };
            assert(next == markup_end(s@, i as int));
            i = next;
        } else {
            let c = s[i];
            let ghost before = out@;
            out.push(c);
            assert(strip_from(s@, i as int) == seq![c] + strip_from(s@, i + 1));
            assert(out@ + strip_from(s@, i + 1) =~= before + (seq![c] + strip_from(s@, i + 1)));
            i += 1;
        }
    }
    assert(strip_from(s@, i as int) == Seq::<char>::empty());
    assert(out@ =~= strip_from(s@, 0));
    string_from(out.as_slice())
}

} // verus!
