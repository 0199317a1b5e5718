//! What the screen shows, as numbers and text: names cut to fit a
//! column, the part of a search hit to highlight, popup sizes and scroll
//! positions, the status bar and the translation picker's rows.

use vstd::prelude::*;
use crate::books::chars_eq;
use crate::browser::{append_verse_lines, spec_translation, translation_at, verse_lines, TRANSLATION_COUNT};
use crate::text::{
    chars_of, contains_spec, decimal, extend_chars, extend_str, find_chars, lowercase_str,
    occurs_at, push_decimal, str_to_lowercase, string_from, sub_chars,
};
use crate::theme::{label_spec, ThemeName};
use crate::types::Verse;
use crate::wrap::{
    cw, row_break, row_break_step, row_word, row_words, str_display_width, width_of_char, width_of_str,
    words, RowState, RowTracker,
};
use vstd::string::StringSliceAdditionalSpecFns;

verus! {

/// How many leading chars of `cs` fit in `budget` columns, taking chars
/// while they fit and stopping at the first that does not.
pub open spec fn fit_count(cs: Seq<char>, budget: int) -> nat
    decreases cs.len(),
{
    if cs.len() == 0 || cw(cs[0]) > budget {
        0
    } else {
        1 + fit_count(cs.drop_first(), budget - cw(cs[0]))
    }
}

/// `name` as shown in a column `max_width` wide: unchanged when it fits,
/// else as many leading chars as fit in one column less, then an ellipsis.
pub open spec fn truncate_name_spec(name: Seq<char>, max_width: nat) -> Seq<char> {
    if str_display_width(name) <= max_width {
        name
    } else {
        let target: int = if max_width >= 1 {
            max_width - 1
        } else {
            0
        };
        name.take(fit_count(name, target) as int).push('\u{2026}')
    }
}

/// Cuts a display name to fit `max_width` columns, ending it with an
/// ellipsis when it had to be cut.
pub fn truncate_display_name(name: &str, max_width: usize) -> (r: String)
    ensures
        r@ == truncate_name_spec(name@, max_width as nat),
{
    if width_of_str(name) <= max_width {
        return string_from(chars_of(name).as_slice());
    }
    let target: usize = if max_width >= 1 {
        max_width - 1
    } else {
        0
    };
    let cs = chars_of(name);
    let mut out: Vec<char> = Vec::new();
    let mut used: usize = 0;
    let mut i: usize = 0;
    assert(cs@.skip(0) =~= cs@);
    loop
        invariant_except_break
            i <= cs@.len(),
            used <= target,
            out@ == cs@.take(i as int),
            fit_count(cs@, target as int) == i + fit_count(cs@.skip(i as int), target - used),
        ensures
            out@ == cs@.take(fit_count(cs@, target as int) as int),
        decreases cs@.len() - i,
    {
        if i == cs.len() {
            assert(cs@.skip(i as int).len() == 0);
            assert(fit_count(cs@.skip(i as int), target - used) == 0);
            break;
        }
        let c = cs[i];
        let w: usize = match width_of_char(c) {
            Some(x) => x,
            None => 0,
        };
        assert(cs@.skip(i as int)[0] == c);
        assert(cs@.skip(i as int).drop_first() =~= cs@.skip(i + 1));
        if w > target - used {
            assert(fit_count(cs@.skip(i as int), target - used) == 0);
            break;
        }
        out.push(c);
        used = used + w;
        assert(out@ =~= cs@.take(i + 1));
        i += 1;
    }
    out.push('\u{2026}');
    string_from(out.as_slice())
}

/// `text` cut to `max_chars` chars, the last three of them dots, when it
/// is longer.
pub open spec fn truncate_text_spec(text: Seq<char>, max_chars: nat) -> Seq<char> {
    if text.len() <= max_chars {
        text
    } else {
        text.take(max_chars - 3) + "..."@
    }
}

/// Cuts a search hit's text to `max_chars` chars, ending it with "..."
/// when it had to be cut.
pub fn truncate_result_text(text: &str, max_chars: usize) -> (r: String)
    requires
        max_chars >= 3 || text@.len() <= max_chars,
    ensures
        r@ == truncate_text_spec(text@, max_chars as nat),
{
    let cs = chars_of(text);
    if cs.len() <= max_chars {
        return string_from(cs.as_slice());
    }
    let keep = max_chars - 3;
    let mut out: Vec<char> = Vec::new();
    let mut i: usize = 0;
    while i < keep
        invariant
            keep < cs@.len(),
            i <= keep,
            out@ == cs@.take(i as int),
        decreases keep - i,
    {
        out.push(cs[i]);
        assert(out@ =~= cs@.take(i + 1));
        i += 1;
    }
    out.push('.');
    out.push('.');
    out.push('.');
    proof {
        reveal_strlit("...");
        assert(out@ =~= cs@.take(keep as int) + "..."@);
    }
    string_from(out.as_slice())
}

/// Height of a centered popup: its content plus borders and padding,
/// within the area less a margin.
pub fn popup_height(content_rows: u16, area_height: u16, margin: u16) -> (r: u16)
    requires
        content_rows + 4 <= u16::MAX,
    ensures
        r == if content_rows + 4 <= (if area_height >= margin {
            area_height - margin
        } else {
            0
        }) {
            content_rows + 4
        } else if area_height >= margin {
            area_height - margin
        } else {
            0
        },
{
    let room = if area_height >= margin {
        area_height - margin
    } else {
        0
    };
    let wanted = content_rows + 4;
    if wanted <= room {
        wanted
    } else {
        room
    }
}

/// Scroll of a popup list so that the row `selected_row` shows: none
/// while it is within the first screen, else it sits half a screen down.
pub fn picker_scroll(selected_row: u16, inner_height: u16) -> (r: u16)
    ensures
        r == if selected_row >= inner_height {
            (selected_row - inner_height / 2) as u16
        } else {
            0
        },
{
    if selected_row >= inner_height {
        selected_row - inner_height / 2
    } else {
        0
    }
}

/// Columns left for a book name in the Books panel (borders, padding and
/// the cursor take seven).
pub fn book_name_budget(panel_width: u16) -> (r: usize)
    ensures
        r == if panel_width >= 7 {
            panel_width - 7
        } else {
            0
        },
{
    let w = panel_width as usize;
    if w >= 7 {
        w - 7
    } else {
        0
    }
}

/// Columns for a verse's text in the verse list: the panel less the cursor
/// (two columns) and the verse number, but never under ten.
pub fn verse_body_width(inner_width: u16, number_width: usize) -> (r: usize)
    ensures
        r == ({
            let text_w: int = if inner_width >= 2 {
                inner_width - 2
            } else {
                0
            };
            let body: int = if text_w >= number_width {
                text_w - number_width
            } else {
                0
            };
            if body >= 10 {
                body
            } else {
                10
            }
        }),
{
    let w = inner_width as usize;
    let text_w = if w >= 2 {
        w - 2
    } else {
        0
    };
    let body = if text_w >= number_width {
        text_w - number_width
    } else {
        0
    };
    if body >= 10 {
        body
    } else {
        10
    }
}

/// Columns for the wrapped full text of the selected search hit: the
/// panel less borders and padding, but never under ten.
pub fn preview_text_width(panel_width: u16) -> (r: usize)
    ensures
        r == if panel_width >= 14 {
            panel_width - 4
        } else {
            10
        },
{
    let w = panel_width as usize;
    if w >= 14 {
        w - 4
    } else {
        10
    }
}

/// Height of the search-hit preview: its wrapped rows plus borders, at
/// most half the panel.
pub fn preview_height(rows: usize, panel_height: u16) -> (r: u16)
    requires
        (rows as u16) + 2 <= u16::MAX,
    ensures
        r == if (rows as u16) + 2 <= panel_height / 2 {
            ((rows as u16) + 2) as u16
        } else {
            panel_height / 2
        },
{
    let h = rows as u16 + 2;
    let half = panel_height / 2;
    if h <= half {
        h
    } else {
        half
    }
}

/// Chars of a search hit's text that fit in its row: the panel less the
/// chrome (borders, padding, cursor, reference and a gap), but never under
/// twenty.
pub fn result_text_budget(panel_width: u16, ref_width: usize) -> (r: usize)
    requires
        ref_width + 6 <= usize::MAX,
    ensures
        r == ({
            let room: int = if panel_width >= ref_width + 6 {
                panel_width - (ref_width + 6)
            } else {
                0
            };
            if room >= 20 {
                room
            } else {
                20
            }
        }),
{
    let chrome = ref_width + 6;
    let w = panel_width as usize;
    let room = if w >= chrome {
        w - chrome
    } else {
        0
    };
    if room >= 20 {
        room
    } else {
        20
    }
}

/// The message of an empty result list: a query under three bytes has not
/// been searched yet.
pub fn empty_search_message(query: &str) -> (r: &'static str)
    ensures
        r@ == if (query.spec_bytes().len() as usize) < 3 {
            "Type at least 3 characters to search"@
        } else {
            "No results found"@
        },
{
    if query.len() < 3 {
        "Type at least 3 characters to search"
    } else {
        "No results found"
    }
}

/// What the picker says of a translation's availability: offline when
/// bundled or fully downloaded, cached when some chapters are on disk.
pub fn availability_suffix(offline: bool, fully_cached: bool, has_data: bool) -> (r: &'static str)
    ensures
        r@ == if offline || fully_cached {
            " (offline)"@
        } else if has_data {
            " (cached)"@
        } else {
            ""@
        },
{
    if offline || fully_cached {
        " (offline)"
    } else if has_data {
        " (cached)"
    } else {
        ""
    }
}

/// Caching progress in whole percent (0 when the total is 0).
pub fn download_percent(completed: usize, total: usize) -> (r: usize)
    requires
        total > 0 ==> completed * 100 <= usize::MAX,
    ensures
        r == if total > 0 {
            (completed * 100) as int / total as int
        } else {
            0
        },
{
    if total > 0 {
        (completed * 100) / total
    } else {
        0
    }
}

/// The sum of `v`.
pub open spec fn sum_of(v: Seq<usize>) -> int
    decreases v.len(),
{
    if v.len() == 0 {
        0
    } else {
        sum_of(v.drop_last()) + v.last()
    }
}

proof fn lemma_sum_prefix(v: Seq<usize>, i: int)
    requires
        0 <= i <= v.len(),
    ensures
        sum_of(v.take(i)) <= sum_of(v),
        sum_of(v.take(i)) >= 0,
    decreases v.len(),
{
    if v.len() > 0 {
        if i == v.len() {
            assert(v.take(i) =~= v);
            lemma_sum_prefix(v.drop_last(), i - 1);
        } else {
            assert(v.drop_last().take(i) =~= v.take(i));
            lemma_sum_prefix(v.drop_last(), i);
        }
    }
}

/// The scrollbar of the verse list, from the rows each verse takes, the
/// first verse shown and the rows visible: (largest scroll, scroll), when
/// the verses take more rows than show.
pub fn list_scrollbar(heights: &Vec<usize>, offset: usize, visible: usize) -> (r: Option<(usize, usize)>)
    requires
        sum_of(heights@) <= usize::MAX,
    ensures
        ({
            let total = sum_of(heights@);
            let first: int = if offset < heights@.len() {
                offset as int
            } else {
                heights@.len() as int
            };
            let before = sum_of(heights@.take(first));
            if total > visible && visible > 0 {
                r == Some(
                    (
                        (total - visible) as usize,
                        (if before < total - visible {
                            before
                        } else {
                            total - visible
                        }) as usize,
                    ),
                )
            } else {
                r is None
            }
        }),
{
    let n = heights.len();
    let first = if offset < n {
        offset
    } else {
        n
    };
    let mut total: usize = 0;
    let mut before: usize = 0;
    let mut i: usize = 0;
    while i < n
        invariant
            n == heights@.len(),
            first <= n,
            i <= n,
            sum_of(heights@) <= usize::MAX,
            total == sum_of(heights@.take(i as int)),
            before == sum_of(heights@.take(if i < first {
                i as int
            } else {
                first as int
            })),
        decreases n - i,
    {
        proof {
            lemma_sum_prefix(heights@, i + 1);
            assert(heights@.take(i + 1).drop_last() =~= heights@.take(i as int));
        }
        total = total + heights[i];
        if i < first {
            before = before + heights[i];
        }
        i += 1;
    }
    assert(heights@.take(n as int) =~= heights@);
    if total > visible && visible > 0 {
        let max_scroll = total - visible;
        Some((max_scroll, if before < max_scroll {
            before
        } else {
            max_scroll
        }))
    } else {
        None
    }
}

// ---------------------------------------------------------------------------
// Search hits
// ---------------------------------------------------------------------------

/// `i` is where `q` first occurs in `t`.
pub open spec fn first_occurrence_at(t: Seq<char>, q: Seq<char>, i: int) -> bool {
    occurs_at(t, q, i) && forall|j: int| 0 <= j < i ==> !occurs_at(t, q, j)
}

/// Splits a search hit's text around the first occurrence of the
/// (lowercase) query in the text's lowercase form: (before, match, after),
/// cut from the text itself. `None` when the query is empty, does not
/// occur, or occurs at a position that lowercasing has pushed past the end
/// of the text (lowercasing can change the number of chars).
pub fn highlight_parts(text: &str, query_lower: &str) -> (r: Option<(String, String, String)>)
    ensures
        ({
            let t = text@;
            let q = query_lower@;
            let low = lowercase_str(t);
            match r {
                Some(p) => q.len() > 0 && exists|i: int|
                    first_occurrence_at(low, q, i) && i + q.len() <= t.len() && p.0@ == t.take(i)
                        && p.1@ == t.subrange(i, i + q.len()) && p.2@ == t.skip(i + q.len()),
                None => q.len() == 0 || !contains_spec(low, q) || exists|i: int|
                    first_occurrence_at(low, q, i) && i + q.len() > t.len(),
            }
        }),
{
    let t = chars_of(text);
    let q = chars_of(query_lower);
    if q.len() == 0 {
        return None;
    }
    let lower = str_to_lowercase(text);
    let low = chars_of(lower.as_str());
    match find_chars(low.as_slice(), q.as_slice()) {
        Some(pos) => {
            assert(first_occurrence_at(low@, q@, pos as int));
            if pos <= t.len() && q.len() <= t.len() - pos {
                let end = pos + q.len();
                let before = sub_chars(t.as_slice(), 0, pos);
                let hit = sub_chars(t.as_slice(), pos, end);
                let after = sub_chars(t.as_slice(), end, t.len());
                assert(t@.subrange(0, pos as int) =~= t@.take(pos as int));
                assert(t@.subrange(end as int, t@.len() as int) =~= t@.skip(end as int));
                Some((string_from(before.as_slice()), string_from(hit.as_slice()), string_from(after.as_slice())))
            } else {
                None
            }
        },
        None => None,
    }
}

// ---------------------------------------------------------------------------
// Translation picker
// ---------------------------------------------------------------------------

/// A row of the translation picker.
#[derive(Debug, Clone, Copy, PartialEq, Eq, Structural)]
pub enum PickerRow {
    /// The gap between two language groups.
    Blank,
    /// The heading of the language of the translation at this index.
    Header(usize),
    /// The translation at this index.
    Item(usize),
}

/// The rows of the first `k` translations: a heading before each
/// language group, a blank row between groups.
pub open spec fn picker_rows_spec(k: int) -> Seq<PickerRow>
    decreases k,
{
    if k <= 0 {
        seq![]
    } else {
        let i = k - 1;
        let head = if i == 0 {
            seq![PickerRow::Header(0)]
        } else if spec_translation(i).lang@ != spec_translation(i - 1).lang@ {
            seq![PickerRow::Blank, PickerRow::Header(i as usize)]
        } else {
            seq![]
        };
        picker_rows_spec(i) + head + seq![PickerRow::Item(i as usize)]
    }
}

/// The picker's rows, and the row of the selected translation (0 when
/// none is selected).
pub fn picker_layout(selected: Option<usize>) -> (r: (Vec<PickerRow>, u16))
    ensures
        r.0@ == picker_rows_spec(TRANSLATION_COUNT as int),
        r.1 == match selected {
            Some(s) => if s < TRANSLATION_COUNT {
                (picker_rows_spec(s + 1).len() - 1) as u16
            } else {
                0
            },
            None => 0,
        },
{
    let mut rows: Vec<PickerRow> = Vec::new();
    let mut sel_row: u16 = 0;
    let mut i: usize = 0;
    while i < TRANSLATION_COUNT
        invariant
            i <= TRANSLATION_COUNT,
            rows@ == picker_rows_spec(i as int),
            rows@.len() <= 3 * i,
            sel_row == match selected {
                Some(s) => if s < i {
                    (picker_rows_spec(s + 1).len() - 1) as u16
                } else {
                    0
                },
                None => 0,
            },
        decreases TRANSLATION_COUNT - i,
    {
        let t = translation_at(i);
        let ghost before = rows@;
        if i == 0 {
            rows.push(PickerRow::Header(0));
        } else {
            let prev = translation_at(i - 1);
            let a = chars_of(t.lang);
            let b = chars_of(prev.lang);
            if !chars_eq(a.as_slice(), b.as_slice()) {
                rows.push(PickerRow::Blank);
                rows.push(PickerRow::Header(i));
            }
        }
        if selected == Some(i) {
            sel_row = rows.len() as u16;
        }
        rows.push(PickerRow::Item(i));
        assert(rows@ =~= picker_rows_spec(i + 1));
        i += 1;
    }
    (rows, sel_row)
}

// ---------------------------------------------------------------------------
// Status bar
// ---------------------------------------------------------------------------

/// The key hints of the status bar: (keys, what they do), with the theme
/// and the translation named.
pub open spec fn status_hints_spec(theme: ThemeName, translation: Seq<char>) -> Seq<(Seq<char>, Seq<char>)> {
    seq![
        ("\u{2190}\u{2192}/hl"@, "panels"@),
        ("\u{2191}\u{2193}/jk"@, "navigate"@),
        ("/"@, "search"@),
        ("y/Y"@, "copy"@),
        ("p"@, "view"@),
        ("t"@, label_spec(theme)),
        ("v"@, translation),
        ("?"@, "help"@),
        ("qq"@, "quit"@),
    ]
}

/// The key hints of the status bar.
pub fn status_hints(theme: ThemeName, translation: &str) -> (r: Vec<(&'static str, String)>)
    ensures
        r@.len() == 9,
        forall|i: int| 0 <= i < 9 ==> (#[trigger] r@[i]).0@ == status_hints_spec(theme, translation@)[i].0
            && r@[i].1@ == status_hints_spec(theme, translation@)[i].1,
{
    let mut r: Vec<(&'static str, String)> = Vec::new();
    r.push(("\u{2190}\u{2192}/hl", string_from(chars_of("panels").as_slice())));
    r.push(("\u{2191}\u{2193}/jk", string_from(chars_of("navigate").as_slice())));
    r.push(("/", string_from(chars_of("search").as_slice())));
    r.push(("y/Y", string_from(chars_of("copy").as_slice())));
    r.push(("p", string_from(chars_of("view").as_slice())));
    r.push(("t", string_from(chars_of(theme.label()).as_slice())));
    r.push(("v", string_from(chars_of(translation).as_slice())));
    r.push(("?", string_from(chars_of("help").as_slice())));
    r.push(("qq", string_from(chars_of("quit").as_slice())));
    r
}

// ---------------------------------------------------------------------------
// Verses flowing as a paragraph
// ---------------------------------------------------------------------------

/// A verse as it flows in the paragraph view: its number, a space, its
/// text.
pub open spec fn verse_label(v: Verse) -> Seq<char> {
    decimal(v.verse as nat) + seq![' '] + v.text@
}

/// Chars in the labels of `vs`.
pub open spec fn labels_len(vs: Seq<Verse>) -> int
    decreases vs.len(),
{
    if vs.len() == 0 {
        0
    } else {
        labels_len(vs.drop_last()) + verse_label(vs.last()).len()
    }
}

/// The row counter after the labels of `vs` flowed into lines `width`
/// columns wide.
pub open spec fn flow(vs: Seq<Verse>, width: int) -> RowState
    decreases vs.len(),
{
    if vs.len() == 0 {
        (0, 0)
    } else {
        row_words(flow(vs.drop_last(), width), words(verse_label(vs.last())), width)
    }
}

/// The row on which verse `i` of `vs` starts.
pub open spec fn start_row(vs: Seq<Verse>, i: int, width: int) -> int {
    flow(vs.take(i), width).0
}

/// The width a row counter uses for `width`: at least one column.
pub open spec fn tracker_width(width: usize) -> int {
    if width == 0 {
        1
    } else {
        width as int
    }
}

proof fn lemma_labels_prefix(vs: Seq<Verse>, i: int)
    requires
        0 <= i <= vs.len(),
    ensures
        0 <= labels_len(vs.take(i)) <= labels_len(vs),
    decreases vs.len(),
{
    if vs.len() > 0 {
        if i == vs.len() {
            assert(vs.take(i) =~= vs);
            lemma_labels_prefix(vs.drop_last(), i - 1);
        } else {
            assert(vs.drop_last().take(i) =~= vs.take(i));
            lemma_labels_prefix(vs.drop_last(), i);
        }
    }
}

/// Verses further down start no higher.
pub proof fn lemma_start_rows_ordered(vs: Seq<Verse>, i: int, j: int, width: int)
    requires
        0 <= i <= j <= vs.len(),
    ensures
        start_row(vs, i, width) <= start_row(vs, j, width),
    decreases j - i,
{
    if i < j {
        lemma_start_rows_ordered(vs, i, j - 1, width);
        let a = vs.take(j);
        assert(a.drop_last() =~= vs.take(j - 1));
        crate::wrap::lemma_rows_never_decrease(flow(a.drop_last(), width), words(verse_label(a.last())), width);
    }
}

/// The row each verse starts on when the verses flow together into lines
/// `width` columns wide (at least one), and the rows they take in all.
/// `None` when the labels together are too long to count in a `usize`.
pub fn verse_start_rows(verses: &Vec<Verse>, width: usize) -> (r: Option<(Vec<usize>, usize)>)
    ensures
        match r {
            None => labels_len(verses@) >= usize::MAX,
            Some(p) => {
                &&& labels_len(verses@) < usize::MAX
                &&& p.0@.len() == verses@.len()
                &&& forall|i: int|
                    0 <= i < verses@.len() ==> #[trigger] p.0@[i] == start_row(
                        verses@,
                        i,
                        tracker_width(width),
                    )
                &&& p.1 == flow(verses@, tracker_width(width)).0 + 1
            },
        },
{
    let ghost tw = tracker_width(width);
    let mut tracker = RowTracker::new(width);
    let mut rows: Vec<usize> = Vec::new();
    let mut used: usize = 0;
    let mut i: usize = 0;
    assert(verses@.take(0) =~= Seq::<Verse>::empty());
    while i < verses.len()
        invariant
            i <= verses@.len(),
            tracker@.0 == tw,
            (tracker@.1, tracker@.2) == flow(verses@.take(i as int), tw),
            used == labels_len(verses@.take(i as int)),
            used < usize::MAX,
            tracker@.1 <= used,
            rows@.len() == i,
            forall|k: int| 0 <= k < i ==> #[trigger] rows@[k] == start_row(verses@, k, tw),
        decreases verses@.len() - i,
    {
        let v = &verses[i];
        let mut label: Vec<char> = Vec::new();
        push_decimal(&mut label, v.verse as u64);
        label.push(' ');
        extend_str(&mut label, v.text.as_str());
        assert(label@ =~= verse_label(verses@[i as int]));
        let ghost next = verses@.take(i + 1);
        assert(next.drop_last() =~= verses@.take(i as int));
        assert(next.last() == verses@[i as int]);
        if label.len() >= usize::MAX - used {
            proof {
                lemma_labels_prefix(verses@, i + 1);
            }
            return None;
        }
        rows.push(tracker.row());
        let s = string_from(label.as_slice());
        tracker.push_text(s.as_str());
        used = used + label.len();
        i += 1;
    }
    assert(verses@.take(verses@.len() as int) =~= verses@);
    let total = tracker.total_rows();
    Some((rows, total))
}

/// The index of the last verse starting at or above `target`: the verse
/// the paragraph view shows at that row (0 when there are no verses).
pub open spec fn verse_at_row(vs: Seq<Verse>, width: int, target: int, idx: int) -> bool {
    ||| vs.len() == 0 && idx == 0
    ||| {
        &&& 0 <= idx < vs.len()
        &&& start_row(vs, idx, width) <= target
        &&& forall|j: int| idx < j < vs.len() ==> start_row(vs, j, width) > target
    }
}

/// The index of the last verse whose first row is at or above `target`,
/// from the verses' start rows.
pub fn verse_index_at_row(rows: &Vec<usize>, target: usize) -> (r: usize)
    requires
        rows@.len() > 0 ==> rows@[0] == 0,
        forall|i: int, j: int| 0 <= i <= j < rows@.len() ==> rows@[i] <= rows@[j],
    ensures
        rows@.len() == 0 ==> r == 0,
        rows@.len() > 0 ==> r < rows@.len() && rows@[r as int] <= target && forall|j: int|
            r < j < rows@.len() ==> rows@[j] > target,
{
    let mut idx: usize = 0;
    let mut i: usize = 0;
    while i < rows.len()
        invariant_except_break
            i <= rows@.len(),
            rows@.len() > 0 ==> rows@[0] == 0,
            forall|a: int, b: int| 0 <= a <= b < rows@.len() ==> rows@[a] <= rows@[b],
            i == 0 ==> idx == 0,
            i > 0 ==> idx == i - 1 && rows@[idx as int] <= target,
        ensures
            rows@.len() == 0 ==> idx == 0,
            rows@.len() > 0 ==> idx < rows@.len() && rows@[idx as int] <= target && forall|j: int|
                idx < j < rows@.len() ==> rows@[j] > target,
        decreases rows@.len() - i,
    {
        if rows[i] <= target {
            idx = i;
        } else {
            assert(i > 0);
            break;
        }
        i += 1;
    }
    idx
}

/// A passage as printed: its label and translation on the first line,
/// then one "<number> <text>" line per verse.
pub open spec fn passage_spec(label: Seq<char>, translation: Seq<char>, verses: Seq<Verse>) -> Seq<char> {
    label + " ("@ + translation + seq![')', '\n'] + verse_lines(verses)
}

/// The text of a passage: "<label> (<translation>)", then a line per verse.
pub fn passage_text(label: &str, translation: &str, verses: &Vec<Verse>) -> (r: String)
    ensures
        r@ == passage_spec(label@, translation@, verses@),
{
    let mut out: Vec<char> = Vec::new();
    extend_str(&mut out, label);
    extend_str(&mut out, " (");
    extend_str(&mut out, translation);
    out.push(')');
    out.push('\n');
    append_verse_lines(&mut out, verses, 0, verses.len());
    assert(verses@.subrange(0, verses@.len() as int) =~= verses@);
    assert(out@ =~= passage_spec(label@, translation@, verses@));
    string_from(out.as_slice())
}

} // verus!
