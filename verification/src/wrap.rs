//! Greedy word wrapping on display width (CJK-aware), and an incremental
//! row counter that follows the same rules.

use vstd::prelude::*;
use crate::text::{char_is_whitespace, chars_of, is_white_space, string_from};
use unicode_width::{UnicodeWidthChar, UnicodeWidthStr};

verus! {

/// The display width of a char outside ASCII and its control chars, as
/// `UnicodeWidthChar::width` computes it from its tables.
pub uninterp spec fn char_width(c: char) -> Option<usize>;

/// The display width of a text that is not all printable ASCII, as
/// `UnicodeWidthStr::width` computes it.
pub uninterp spec fn text_width(s: Seq<char>) -> usize;

/// A printable ASCII char: U+0020 to U+007E.
pub open spec fn is_printable_ascii(c: char) -> bool {
    ' ' <= c <= '~'
}

/// A control char of ASCII or Latin-1: below U+0020, or U+007F to U+009F.
pub open spec fn is_control_char(c: char) -> bool {
    c < ' ' || ('\u{7f}' <= c && c < '\u{a0}')
}

/// Every char of `s` is printable ASCII.
pub open spec fn all_printable_ascii(s: Seq<char>) -> bool {
    forall|i: int| 0 <= i < s.len() ==> is_printable_ascii(#[trigger] s[i])
}

/// The display width of `c` in columns, or `None` for a control char:
/// 1 for printable ASCII, `None` for a control char, else from the tables.
pub open spec fn display_width(c: char) -> Option<usize> {
    if is_printable_ascii(c) {
        Some(1)
    } else if is_control_char(c) {
        None
    } else {
        char_width(c)
    }
}

/// The display width of the text `s` in columns: its length when it is
/// all printable ASCII, else as the tables and the rules for sequences
/// give it.
pub open spec fn str_display_width(s: Seq<char>) -> usize {
    if all_printable_ascii(s) {
        s.len() as usize
    } else {
        text_width(s)
    }
}

/// Calls `UnicodeWidthChar::width`, which gives 1 for printable ASCII
/// (U+0020 to U+007E) and `None` for a control char (below U+0020, or
/// U+007F to U+009F) before it consults its tables; what the tables give
/// is left to the name `char_width`.
#[verifier::external_body]
pub(crate) fn width_of_char(c: char) -> (r: Option<usize>)
    ensures
        is_printable_ascii(c) ==> r == Some(1usize),
        is_control_char(c) ==> r is None,
        !is_printable_ascii(c) && !is_control_char(c) ==> r == char_width(c),
{
    UnicodeWidthChar::width(c)
}

/// Calls `UnicodeWidthStr::width`, which counts each printable ASCII char
/// as one column, so a text of printable ASCII is as wide as it is long.
/// The width of other text (which is not always the sum of the char
/// widths) is left to the name `text_width`.
#[verifier::external_body]
pub(crate) fn width_of_str(s: &str) -> (r: usize)
    ensures
        all_printable_ascii(s@) ==> r == s@.len(),
        !all_printable_ascii(s@) ==> r == text_width(s@),
{
    UnicodeWidthStr::width(s)
}

/// The width counted for one char: its display width, 0 for a control char.
pub open spec fn cw(c: char) -> int {
    match display_width(c) {
        Some(w) => w as int,
        None => 0,
    }
}

/// The whitespace-separated words of `s`, in order (what
/// `str::split_whitespace` yields).
pub open spec fn words(s: Seq<char>) -> Seq<Seq<char>>
    decreases s.len(),
{
    if s.len() == 0 {
        seq![]
    } else {
        let w = words(s.drop_last());
        let c = s.last();
        if is_white_space(c) {
            w
        } else if s.len() >= 2 && !is_white_space(s[s.len() - 2]) {
            w.drop_last().push(w.last().push(c))
        } else {
            w.push(seq![c])
        }
    }
}

/// The views of a sequence of char vectors.
pub open spec fn views(v: Seq<Vec<char>>) -> Seq<Seq<char>> {
    v.map_values(|x: Vec<char>| x@)
}

/// The views of a sequence of strings.
pub open spec fn string_views(v: Seq<String>) -> Seq<Seq<char>> {
    v.map_values(|x: String| x@)
}

/// The words of `s` as char vectors.
pub fn split_words(s: &[char]) -> (r: Vec<Vec<char>>)
    ensures
        views(r@) == words(s@),
{
    let mut done: Vec<Vec<char>> = Vec::new();
    let mut cur: Vec<char> = Vec::new();
    let mut i: usize = 0;
    while i < s.len()
        invariant
            i <= s@.len(),
            words(s@.take(i as int)) == if cur@.len() > 0 {
                views(done@).push(cur@)
            } else {
                views(done@)
            },
            cur@.len() > 0 <==> (i > 0 && !is_white_space(s@[i - 1])),
        decreases s@.len() - i,
    {
        let c = s[i];
        let ghost pre = s@.take(i + 1);
        assert(pre.drop_last() =~= s@.take(i as int));
        assert(pre.last() == c);
        let ghost wprev = words(s@.take(i as int));
        if char_is_whitespace(c) {
            assert(words(pre) == wprev);
            if cur.len() > 0 {
                let w = cur;
                cur = Vec::new();
                let ghost before = done@;
                done.push(w);
                assert(views(done@) =~= views(before).push(w@));
            }
        } else {
            if cur.len() > 0 {
                assert(i > 0 && !is_white_space(s@[i - 1]));
                assert(pre[pre.len() - 2] == s@[i - 1]);
                assert(wprev.drop_last() =~= views(done@));
                assert(wprev.last() == cur@);
                assert(words(pre) == wprev.drop_last().push(wprev.last().push(c)));
                cur.push(c);
                assert(words(pre) =~= views(done@).push(cur@));
            } else {
                assert(words(pre) == wprev.push(seq![c]));
                cur.push(c);
                assert(cur@ =~= seq![c]);
            }
        }
        i += 1;
    }
    if cur.len() > 0 {
        let ghost before = done@;
        done.push(cur);
        assert(views(done@) =~= views(before).push(cur@));
    }
    assert(s@.take(s@.len() as int) =~= s@);
    done
}

// ---------------------------------------------------------------------------
// Whole-text wrapping
// ---------------------------------------------------------------------------

/// Wrapping state: finished lines, the current line, its width.
pub type WrapState = (Seq<Seq<char>>, Seq<char>, int);

/// One char of a hard-broken word.
pub open spec fn break_step(st: WrapState, c: char, width: int) -> WrapState {
    let st1 = if st.2 + cw(c) > width && st.2 > 0 {
        (st.0.push(st.1), seq![], 0int)
    } else {
        st
    };
    (st1.0, st1.1.push(c), st1.2 + cw(c))
}

/// A word hard-broken char by char.
pub open spec fn break_word(st: WrapState, cs: Seq<char>, width: int) -> WrapState
    decreases cs.len(),
{
    if cs.len() == 0 {
        st
    } else {
        break_step(break_word(st, cs.drop_last(), width), cs.last(), width)
    }
}

/// One word: onto the current line if it fits (after a space), else onto a
/// new line, hard-broken when wider than the whole line.
pub open spec fn wrap_word(st: WrapState, word: Seq<char>, width: int) -> WrapState {
    let ww = str_display_width(word) as int;
    let sep: int = if st.2 == 0 {
        0
    } else {
        1
    };
    if st.2 + sep + ww <= width {
        (st.0, if sep == 1 {
            st.1.push(' ') + word
        } else {
            st.1 + word
        }, st.2 + sep + ww)
    } else {
        let st1 = if st.1.len() > 0 {
            (st.0.push(st.1), seq![], 0int)
        } else {
            st
        };
        if ww <= width {
            (st1.0, st1.1 + word, ww)
        } else {
            break_word(st1, word, width)
        }
    }
}

/// All words, in order.
pub open spec fn wrap_words(st: WrapState, ws: Seq<Seq<char>>, width: int) -> WrapState
    decreases ws.len(),
{
    if ws.len() == 0 {
        st
    } else {
        wrap_word(wrap_words(st, ws.drop_last(), width), ws.last(), width)
    }
}

/// The lines of `text` wrapped at `width`: the whole text as one line for
/// width 0, else the greedy wrap, with at least one line.
pub open spec fn wrap_spec(text: Seq<char>, width: nat) -> Seq<Seq<char>> {
    if width == 0 {
        seq![text]
    } else {
        let st = wrap_words((seq![], seq![], 0), words(text), width as int);
        if st.1.len() > 0 || st.0.len() == 0 {
            st.0.push(st.1)
        } else {
            st.0
        }
    }
}

fn push_line(lines: &mut Vec<Vec<char>>, line: Vec<char>)
    ensures
        views(final(lines)@) == views(old(lines)@).push(line@),
{
    let ghost before = lines@;
    lines.push(line);
    assert(views(lines@) =~= views(before).push(line@));
}

fn strings_of(lines: &Vec<Vec<char>>) -> (r: Vec<String>)
    ensures
        string_views(r@) == views(lines@),
        r@.len() == lines@.len(),
{
    let mut out: Vec<String> = Vec::new();
    let mut i: usize = 0;
    while i < lines.len()
        invariant
            i <= lines@.len(),
            string_views(out@) == views(lines@).take(i as int),
        decreases lines@.len() - i,
    {
        let s = string_from(lines[i].as_slice());
        let ghost before = out@;
        out.push(s);
        assert(string_views(out@) =~= string_views(before).push(s@));
        assert(views(lines@).take(i + 1) =~= views(lines@).take(i as int).push(lines@[i as int]@));
        assert(string_views(out@) =~= views(lines@).take(i + 1));
        i += 1;
    }
    assert(views(lines@).take(lines@.len() as int) =~= views(lines@));
    assert(out@.len() == string_views(out@).len());
    out
}

/// Greedy word-wrap on display width (CJK-aware). Words wider than `width`
/// are hard-broken. Always returns at least one line.
pub fn wrap_text(text: &str, width: usize) -> (r: Vec<String>)
    ensures
        string_views(r@) == wrap_spec(text@, width as nat),
        r@.len() >= 1,
{
    let chars = chars_of(text);
    if width == 0 {
        let mut out: Vec<String> = Vec::new();
        out.push(string_from(chars.as_slice()));
        assert(string_views(out@) =~= seq![text@]);
        return out;
    }
    let ws = split_words(chars.as_slice());
    let mut lines: Vec<Vec<char>> = Vec::new();
    let mut line: Vec<char> = Vec::new();
    let mut line_w: usize = 0;
    let ghost w = width as int;
    let mut k: usize = 0;
    while k < ws.len()
        invariant
            width > 0,
            w == width as int,
            k <= ws@.len(),
            views(ws@) == words(chars@),
            chars@ == text@,
            wrap_words((seq![], seq![], 0), views(ws@).take(k as int), w) == (
                views(lines@),
                line@,
                line_w as int,
            ),
        decreases ws@.len() - k,
    {
        let ghost st = (views(lines@), line@, line_w as int);
        assert(views(ws@).take(k + 1).drop_last() =~= views(ws@).take(k as int));
        assert(views(ws@).take(k + 1).last() == ws@[k as int]@);
        let word_str = string_from(ws[k].as_slice());
        let word_w = width_of_str(word_str.as_str());
        let sep_w: usize = if line_w == 0 {
            0
        } else {
            1
        };
        if line_w <= width && sep_w <= width - line_w && word_w <= width - line_w - sep_w {
            if sep_w == 1 {
                line.push(' ');
            }
            crate::text::extend_chars(&mut line, ws[k].as_slice());
            line_w = line_w + sep_w + word_w;
        } else {
            if line.len() > 0 {
                let full = line;
                line = Vec::new();
                push_line(&mut lines, full);
                line_w = 0;
            }
            if word_w <= width {
                crate::text::extend_chars(&mut line, ws[k].as_slice());
                line_w = word_w;
            } else {
                let ghost st1 = (views(lines@), line@, line_w as int);
                let word = &ws[k];
                let mut j: usize = 0;
                while j < word.len()
                    invariant
                        w == width as int,
                        j <= word@.len(),
                        break_word(st1, word@.take(j as int), w) == (
                            views(lines@),
                            line@,
                            line_w as int,
                        ),
                    decreases word@.len() - j,
                {
                    let ch = word[j];
                    let c_w: usize = match width_of_char(ch) {
                        Some(x) => x,
                        None => 0,
                    };
                    assert(word@.take(j + 1).drop_last() =~= word@.take(j as int));
                    if (c_w > width || line_w > width - c_w) && line_w > 0 {
                        let full = line;
                        line = Vec::new();
                        push_line(&mut lines, full);
                        line_w = 0;
                    }
                    line.push(ch);
                    line_w = line_w + c_w;
                    j += 1;
                }
                assert(word@.take(word@.len() as int) =~= word@);
            }
        }
        k += 1;
    }
    assert(views(ws@).take(ws@.len() as int) =~= views(ws@));
    if line.len() > 0 || lines.len() == 0 {
        push_line(&mut lines, line);
    }
    assert(lines@.len() == views(lines@).len());
    strings_of(&lines)
}

/// Number of rows `text` occupies when wrapped at `width`.
pub fn wrapped_height(text: &str, width: usize) -> (r: usize)
    ensures
        r == wrap_spec(text@, width as nat).len(),
        r >= 1,
{
    let lines = wrap_text(text, width);
    lines.len()
}

// ---------------------------------------------------------------------------
// Incremental row counting
// ---------------------------------------------------------------------------

/// Row-counting state: the row the next word starts on, and the width used
/// on that row.
pub type RowState = (int, int);

/// One char of a hard-broken word.
pub open spec fn row_break_step(st: RowState, c: char, width: int) -> RowState {
    let st1 = if st.1 + cw(c) > width && st.1 > 0 {
        (st.0 + 1, 0int)
    } else {
        st
    };
    (st1.0, st1.1 + cw(c))
}

/// A word hard-broken char by char.
pub open spec fn row_break(st: RowState, cs: Seq<char>, width: int) -> RowState
    decreases cs.len(),
{
    if cs.len() == 0 {
        st
    } else {
        row_break_step(row_break(st, cs.drop_last(), width), cs.last(), width)
    }
}

/// One word, by the rules of `wrap_word`.
pub open spec fn row_word(st: RowState, word: Seq<char>, width: int) -> RowState {
    let ww = str_display_width(word) as int;
    let sep: int = if st.1 == 0 {
        0
    } else {
        1
    };
    if st.1 + sep + ww <= width {
        (st.0, st.1 + sep + ww)
    } else if ww <= width {
        (st.0 + 1, ww)
    } else {
        let st1 = if st.1 > 0 {
            (st.0 + 1, 0int)
        } else {
            st
        };
        row_break(st1, word, width)
    }
}

/// All words, in order.
pub open spec fn row_words(st: RowState, ws: Seq<Seq<char>>, width: int) -> RowState
    decreases ws.len(),
{
    if ws.len() == 0 {
        st
    } else {
        row_word(row_words(st, ws.drop_last(), width), ws.last(), width)
    }
}

/// Incremental greedy wrapper over a word stream, using the same rules as
/// `wrap_text`. Lets callers ask which row a point lands on while feeding
/// a continuous flow of text (the paragraph reading view).
pub struct RowTracker {
    width: usize,
    row: usize,
    line_w: usize,
}

impl View for RowTracker {
    /// (width, row, width used on the row)
    type V = (int, int, int);

    closed spec fn view(&self) -> (int, int, int) {
        (self.width as int, self.row as int, self.line_w as int)
    }
}

impl RowTracker {
    #[verifier::type_invariant]
    spec fn inv(&self) -> bool {
        self.width >= 1 && self.row < usize::MAX
    }

    /// A tracker at row 0 of an empty text, for lines `width` columns wide
    /// (at least 1).
    pub fn new(width: usize) -> (r: Self)
        ensures
            r@ == (if width == 0 {
                1int
            } else {
                width as int
            }, 0int, 0int),
    {
        let w = if width == 0 {
            1
        } else {
            width
        };
        RowTracker { width: w, row: 0, line_w: 0 }
    }

    /// 0-based row of the current line: the row the last word went on,
    /// where the next word also goes if it fits after it.
    pub fn row(&self) -> (r: usize)
        ensures
            r == self@.1,
    {
        self.row
    }

    /// Total rows occupied so far (at least 1).
    pub fn total_rows(&self) -> (r: usize)
        ensures
            r == self@.1 + 1,
    {
        proof {
            use_type_invariant(self);
        }
        self.row + 1
    }

    fn push_word(&mut self, word: &[char])
        requires
            word@.len() >= 1,
            old(self)@.1 + word@.len() < usize::MAX,
        ensures
            (final(self)@.1, final(self)@.2) == row_word(
                (old(self)@.1, old(self)@.2),
                word@,
                old(self)@.0,
            ),
            final(self)@.0 == old(self)@.0,
            final(self)@.1 <= old(self)@.1 + word@.len(),
    {
        proof {
            use_type_invariant(&*self);
        }
        let width = self.width;
        let s = string_from(word);
        let word_w = width_of_str(s.as_str());
        let sep_w: usize = if self.line_w == 0 {
            0
        } else {
            1
        };
        if self.line_w <= width && sep_w <= width - self.line_w && word_w <= width - self.line_w
            - sep_w {
            self.line_w = self.line_w + sep_w + word_w;
            return ;
        }
        if word_w <= width {
            self.row = self.row + 1;
            self.line_w = word_w;
            return ;
        }
        if self.line_w > 0 {
            self.row = self.row + 1;
            self.line_w = 0;
        }
        let ghost st1 = (self.row as int, self.line_w as int);
        let ghost r0 = old(self)@.1;
        let mut j: usize = 0;
        while j < word.len()
            invariant
                width == self.width,
                width >= 1,
                j <= word@.len(),
                row_break(st1, word@.take(j as int), width as int) == (
                    self.row as int,
                    self.line_w as int,
                ),
                st1.0 <= r0 + 1,
                r0 + word@.len() < usize::MAX,
                (j == 0 && self.row == st1.0 && self.line_w == 0) || (j >= 1 && self.row <= st1.0
                    + j - 1),
                st1.0 == r0 + 1 ==> j >= 1 || self.line_w == 0,
                st1.0 <= r0 + 1 && (st1.0 == r0 || st1.0 == r0 + 1),
            decreases word@.len() - j,
        {
            let ch = word[j];
            let c_w: usize = match width_of_char(ch) {
                Some(x) => x,
                None => 0,
            };
            assert(word@.take(j + 1).drop_last() =~= word@.take(j as int));
            if (c_w > width || self.line_w > width - c_w) && self.line_w > 0 {
                self.row = self.row + 1;
                self.line_w = 0;
            }
            self.line_w = self.line_w + c_w;
            j += 1;
        }
        assert(word@.take(word@.len() as int) =~= word@);
    }

    /// Feeds the words of `text` (split at whitespace) to the tracker.
    pub fn push_text(&mut self, text: &str)
        requires
            old(self)@.1 + text@.len() < usize::MAX,
        ensures
            final(self)@.0 == old(self)@.0,
            (final(self)@.1, final(self)@.2) == row_words(
                (old(self)@.1, old(self)@.2),
                words(text@),
                old(self)@.0,
            ),
            final(self)@.1 <= old(self)@.1 + text@.len(),
    {
        let s = chars_of(text);
        let ghost st0 = (self@.1, self@.2);
        let ghost r0 = self@.1;
        let ghost width = self@.0;
        let mut cur: Vec<char> = Vec::new();
        let ghost mut done: Seq<Seq<char>> = seq![];
        let mut i: usize = 0;
        while i < s.len()
            invariant
                s@ == text@,
                self@.0 == width,
                r0 + s@.len() < usize::MAX,
                i <= s@.len(),
                cur@.len() <= i,
                words(s@.take(i as int)) == if cur@.len() > 0 {
                    done.push(cur@)
                } else {
                    done
                },
                cur@.len() > 0 <==> (i > 0 && !is_white_space(s@[i - 1])),
                (self@.1, self@.2) == row_words(st0, done, width),
                self@.1 <= r0 + i - cur@.len(),
            decreases s@.len() - i,
        {
            let c = s[i];
            let ghost pre = s@.take(i + 1);
            assert(pre.drop_last() =~= s@.take(i as int));
            assert(pre.last() == c);
            let ghost wprev = words(s@.take(i as int));
            if char_is_whitespace(c) {
                assert(words(pre) == wprev);
                if cur.len() > 0 {
                    self.push_word(cur.as_slice());
                    proof {
                        let d2 = done.push(cur@);
                        assert(d2.drop_last() =~= done);
                        done = d2;
                    }
                    cur = Vec::new();
                }
            } else {
                if cur.len() > 0 {
                    assert(pre[pre.len() - 2] == s@[i - 1]);
                    assert(wprev.drop_last() =~= done);
                    assert(words(pre) == wprev.drop_last().push(wprev.last().push(c)));
                    cur.push(c);
                    assert(words(pre) =~= done.push(cur@));
                } else {
                    assert(words(pre) == wprev.push(seq![c]));
                    cur.push(c);
                    assert(cur@ =~= seq![c]);
                }
            }
            i += 1;
        }
        if cur.len() > 0 {
            self.push_word(cur.as_slice());
            proof {
                let d2 = done.push(cur@);
                assert(d2.drop_last() =~= done);
                done = d2;
            }
        }
        assert(s@.take(s@.len() as int) =~= s@);
    }
}

// ---------------------------------------------------------------------------
// The row counter follows the wrapper
// ---------------------------------------------------------------------------

/// Every word of `s` has at least one char, and a text ending in a
/// non-whitespace char has at least one word.
pub proof fn lemma_words_nonempty(s: Seq<char>)
    ensures
        forall|i: int| 0 <= i < words(s).len() ==> #[trigger] words(s)[i].len() > 0,
        s.len() > 0 && !is_white_space(s.last()) ==> words(s).len() > 0,
    decreases s.len(),
{
    if s.len() > 0 {
        let p = s.drop_last();
        let w = words(p);
        let c = s.last();
        lemma_words_nonempty(p);
        if is_white_space(c) {
        } else if s.len() >= 2 && !is_white_space(s[s.len() - 2]) {
            assert(p.last() == s[s.len() - 2]);
            let w2 = w.drop_last().push(w.last().push(c));
            assert forall|i: int| 0 <= i < w2.len() implies #[trigger] w2[i].len() > 0 by {
                if i < w2.len() - 1 {
                    assert(w2[i] == w[i]);
                }
            }
        } else {
            let w2 = w.push(seq![c]);
            assert forall|i: int| 0 <= i < w2.len() implies #[trigger] w2[i].len() > 0 by {
                if i < w2.len() - 1 {
                    assert(w2[i] == w[i]);
                }
            }
        }
    }
}

/// A wrapping state and a row-counting state describe the same place:
/// as many rows counted as lines finished, the same width used, and a
/// current line that is empty exactly when no width is used.
pub open spec fn rows_agree(st: WrapState, rs: RowState) -> bool {
    &&& rs.0 == st.0.len()
    &&& rs.1 == st.2
    &&& st.2 >= 0
    &&& (st.1.len() > 0 <==> st.2 > 0)
}

/// `word` takes at least one column, and, when it is wider than a line of
/// `width` columns (so that it is broken char by char), so does each of
/// its chars.
pub open spec fn visible_word(word: Seq<char>, width: int) -> bool {
    &&& str_display_width(word) >= 1
    &&& str_display_width(word) > width ==> forall|j: int|
        0 <= j < word.len() ==> cw(#[trigger] word[j]) >= 1
}

proof fn lemma_break_agree(st: WrapState, rs: RowState, cs: Seq<char>, width: int)
    requires
        rows_agree(st, rs),
        forall|j: int| 0 <= j < cs.len() ==> cw(#[trigger] cs[j]) >= 1,
    ensures
        rows_agree(break_word(st, cs, width), row_break(rs, cs, width)),
        cs.len() > 0 ==> break_word(st, cs, width).1.len() > 0,
    decreases cs.len(),
{
    if cs.len() > 0 {
        let p = cs.drop_last();
        assert forall|j: int| 0 <= j < p.len() implies cw(#[trigger] p[j]) >= 1 by {
            assert(p[j] == cs[j]);
        }
        lemma_break_agree(st, rs, p, width);
        assert(cw(cs[cs.len() - 1]) >= 1);
    }
}

proof fn lemma_word_agree(st: WrapState, rs: RowState, word: Seq<char>, width: int)
    requires
        rows_agree(st, rs),
        word.len() > 0,
        visible_word(word, width),
        width >= 1,
    ensures
        rows_agree(wrap_word(st, word, width), row_word(rs, word, width)),
        wrap_word(st, word, width).1.len() > 0,
{
    let ww = str_display_width(word) as int;
    let sep: int = if st.2 == 0 {
        0
    } else {
        1
    };
    if st.2 + sep + ww <= width {
    } else {
        let st1 = if st.1.len() > 0 {
            (st.0.push(st.1), seq![], 0int)
        } else {
            st
        };
        if ww <= width {
        } else {
            let rs1 = if rs.1 > 0 {
                (rs.0 + 1, 0int)
            } else {
                rs
            };
            assert(rows_agree(st1, rs1));
            lemma_break_agree(st1, rs1, word, width);
        }
    }
}

proof fn lemma_words_agree(ws: Seq<Seq<char>>, width: int)
    requires
        width >= 1,
        forall|i: int| 0 <= i < ws.len() ==> #[trigger] ws[i].len() > 0 && visible_word(ws[i], width),
    ensures
        rows_agree(wrap_words((seq![], seq![], 0), ws, width), row_words((0, 0), ws, width)),
        ws.len() > 0 ==> wrap_words((seq![], seq![], 0), ws, width).1.len() > 0,
        ws.len() == 0 ==> wrap_words((seq![], seq![], 0), ws, width).0.len() == 0,
    decreases ws.len(),
{
    if ws.len() > 0 {
        let p = ws.drop_last();
        assert forall|i: int| 0 <= i < p.len() implies #[trigger] p[i].len() > 0 && visible_word(
            p[i],
            width,
        ) by {
            assert(p[i] == ws[i]);
        }
        lemma_words_agree(p, width);
        assert(ws[ws.len() - 1].len() > 0);
        lemma_word_agree(
            wrap_words((seq![], seq![], 0), p, width),
            row_words((0, 0), p, width),
            ws.last(),
            width,
        );
    }
}

/// A row tracker fed a text counts exactly the rows `wrap_text` wraps it
/// into, at any width of at least one column, as long as no word takes
/// zero columns and no char of a word too wide for a line does either.
pub proof fn lemma_tracker_matches_wrap(text: Seq<char>, width: int)
    requires
        width >= 1,
        forall|i: int| 0 <= i < words(text).len() ==> visible_word(#[trigger] words(text)[i], width),
    ensures
        row_words((0, 0), words(text), width).0 + 1 == wrap_spec(text, width as nat).len(),
{
    lemma_words_nonempty(text);
    lemma_words_agree(words(text), width);
}

/// A text of printable ASCII and whitespace has words of printable ASCII,
/// none longer than the text.
proof fn lemma_ascii_words(s: Seq<char>)
    requires
        forall|k: int| 0 <= k < s.len() ==> is_printable_ascii(#[trigger] s[k]) || is_white_space(s[k]),
    ensures
        forall|i: int| 0 <= i < words(s).len() ==> all_printable_ascii(#[trigger] words(s)[i])
            && words(s)[i].len() <= s.len(),
    decreases s.len(),
{
    if s.len() > 0 {
        let p = s.drop_last();
        let w = words(p);
        let c = s.last();
        assert forall|k: int| 0 <= k < p.len() implies is_printable_ascii(#[trigger] p[k])
            || is_white_space(p[k]) by {
            assert(p[k] == s[k]);
        }
        lemma_ascii_words(p);
        lemma_words_nonempty(p);
        assert(is_printable_ascii(s[s.len() - 1]) || is_white_space(s[s.len() - 1]));
        if is_white_space(c) {
        } else if s.len() >= 2 && !is_white_space(s[s.len() - 2]) {
            assert(p.last() == s[s.len() - 2]);
            assert(w.len() > 0);
            let w2 = w.drop_last().push(w.last().push(c));
            assert forall|i: int| 0 <= i < w2.len() implies all_printable_ascii(#[trigger] w2[i])
                && w2[i].len() <= s.len() by {
                if i < w2.len() - 1 {
                    assert(w2[i] == w[i]);
                } else {
                    let l = w.last();
                    assert(w2[i] == l.push(c));
                    assert(all_printable_ascii(w[w.len() - 1]));
                    assert forall|j: int| 0 <= j < l.push(c).len() implies is_printable_ascii(
                        #[trigger] l.push(c)[j],
                    ) by {
                        if j < l.len() {
                            assert(l.push(c)[j] == l[j]);
                        }
                    }
                }
            }
        } else {
            let w2 = w.push(seq![c]);
            assert forall|i: int| 0 <= i < w2.len() implies all_printable_ascii(#[trigger] w2[i])
                && w2[i].len() <= s.len() by {
                if i < w2.len() - 1 {
                    assert(w2[i] == w[i]);
                } else {
                    assert(w2[i] =~= seq![c]);
                }
            }
        }
    }
}

/// On a text of printable ASCII and whitespace, a row tracker counts
/// exactly the rows `wrap_text` wraps it into, at any width of at least one
/// column.
pub proof fn lemma_tracker_matches_wrap_ascii(text: Seq<char>, width: int)
    requires
        width >= 1,
        text.len() <= usize::MAX,
        forall|k: int|
            0 <= k < text.len() ==> is_printable_ascii(#[trigger] text[k]) || is_white_space(
                text[k],
            ),
    ensures
        row_words((0, 0), words(text), width).0 + 1 == wrap_spec(text, width as nat).len(),
{
    lemma_ascii_words(text);
    lemma_words_nonempty(text);
    assert forall|i: int| 0 <= i < words(text).len() implies visible_word(
        #[trigger] words(text)[i],
        width,
    ) by {
        let wd = words(text)[i];
        assert(all_printable_ascii(wd));
        assert(wd.len() > 0);
        assert(str_display_width(wd) == wd.len());
        assert forall|j: int| 0 <= j < wd.len() implies cw(#[trigger] wd[j]) >= 1 by {
            assert(is_printable_ascii(wd[j]));
        }
    }
    lemma_tracker_matches_wrap(text, width);
}

// ---------------------------------------------------------------------------
// Laws of the row counter
// ---------------------------------------------------------------------------

proof fn lemma_row_break_never_decreases(st: RowState, cs: Seq<char>, width: int)
    ensures
        row_break(st, cs, width).0 >= st.0,
    decreases cs.len(),
{
    if cs.len() > 0 {
        lemma_row_break_never_decreases(st, cs.drop_last(), width);
    }
}

/// Feeding words never moves the row counter back.
pub proof fn lemma_rows_never_decrease(st: RowState, ws: Seq<Seq<char>>, width: int)
    ensures
        row_words(st, ws, width).0 >= st.0,
    decreases ws.len(),
{
    if ws.len() > 0 {
        let p = ws.drop_last();
        lemma_rows_never_decrease(st, p, width);
        let s1 = row_words(st, p, width);
        let s1b = if s1.1 > 0 {
            (s1.0 + 1, 0int)
        } else {
            s1
        };
        lemma_row_break_never_decreases(s1b, ws.last(), width);
    }
}

/// Feeding two runs of words one after the other is feeding them as one
/// run.
pub proof fn lemma_rows_append(st: RowState, ws1: Seq<Seq<char>>, ws2: Seq<Seq<char>>, width: int)
    ensures
        row_words(st, ws1 + ws2, width) == row_words(row_words(st, ws1, width), ws2, width),
    decreases ws2.len(),
{
    if ws2.len() == 0 {
        assert(ws1 + ws2 =~= ws1);
    } else {
        lemma_rows_append(st, ws1, ws2.drop_last(), width);
        assert((ws1 + ws2).drop_last() =~= ws1 + ws2.drop_last());
        assert((ws1 + ws2).last() == ws2.last());
    }
}

/// A text of whitespace only has no words.
pub proof fn lemma_blank_has_no_words(s: Seq<char>)
    requires
        forall|i: int| 0 <= i < s.len() ==> is_white_space(#[trigger] s[i]),
    ensures
        words(s) == Seq::<Seq<char>>::empty(),
    decreases s.len(),
{
    if s.len() > 0 {
        let p = s.drop_last();
        assert forall|i: int| 0 <= i < p.len() implies is_white_space(#[trigger] p[i]) by {
            assert(p[i] == s[i]);
        }
        lemma_blank_has_no_words(p);
        assert(is_white_space(s[s.len() - 1]));
    }
}

/// Feeding a text of whitespace only changes nothing.
pub proof fn lemma_blank_push_changes_nothing(st: RowState, s: Seq<char>, width: int)
    requires
        forall|i: int| 0 <= i < s.len() ==> is_white_space(#[trigger] s[i]),
    ensures
        row_words(st, words(s), width) == st,
{
    lemma_blank_has_no_words(s);
}

/// The words of two texts joined by a space are the words of the one,
/// then those of the other.
pub proof fn lemma_words_join(a: Seq<char>, b: Seq<char>)
    ensures
        words(a + seq![' '] + b) == words(a) + words(b),
    decreases b.len(),
{
    let j = a + seq![' '];
    assert(j.drop_last() =~= a);
    assert(is_white_space(' '));
    if b.len() == 0 {
        assert(j + b =~= j);
        assert(words(b) =~= Seq::<Seq<char>>::empty());
        assert(words(a) + words(b) =~= words(a));
    } else {
        let b1 = b.drop_last();
        let c = b.last();
        lemma_words_join(a, b1);
        let s = j + b;
        assert(s.drop_last() =~= j + b1);
        assert(s.last() == c);
        let wl = words(a) + words(b1);
        if is_white_space(c) {
        } else if b.len() >= 2 && !is_white_space(b[b.len() - 2]) {
            assert(s[s.len() - 2] == b[b.len() - 2]);
            assert(b1.last() == b[b.len() - 2]);
            lemma_words_nonempty(b1);
            assert(words(b1).len() > 0);
            assert(wl.drop_last().push(wl.last().push(c)) =~= words(a) + words(b1).drop_last().push(
                words(b1).last().push(c),
            ));
        } else {
            if b.len() >= 2 {
                assert(s[s.len() - 2] == b[b.len() - 2]);
            } else {
                assert(s[s.len() - 2] == ' ');
            }
            assert(wl.push(seq![c]) =~= words(a) + words(b1).push(seq![c]));
        }
    }
}

/// Feeding one text and then another is feeding them joined by a space.
pub proof fn lemma_push_join(st: RowState, a: Seq<char>, b: Seq<char>, width: int)
    ensures
        row_words(row_words(st, words(a), width), words(b), width) == row_words(
            st,
            words(a + seq![' '] + b),
            width,
        ),
{
    lemma_words_join(a, b);
    lemma_rows_append(st, words(a), words(b), width);
}

} // verus!
