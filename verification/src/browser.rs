//! The state of the three-panel browser (Books, Chapters, Scripture) and
//! every navigation, selection and copy decision made on it.

use vstd::prelude::*;
use crate::books::{book, spec_book, BOOK_COUNT};
use crate::download::DownloadHandle;
use crate::state::SessionState;
use crate::text::{
    chars_of, decimal, eq_ignore_ascii_case, eq_ignore_ascii_case_spec, extend_chars, extend_str,
    occurs_at, push_decimal, string_from,
};
use crate::theme::{next_spec, ThemeName};
use vstd::string::StringSliceAdditionalSpecFns;
use crate::types::{Chapter, SearchResult, Verse};
use crate::books::chars_eq;
use crate::layout::{
    labels_len, lemma_start_rows_ordered, start_row, tracker_width, verse_at_row,
    verse_index_at_row, verse_start_rows, flow,
};

verus! {

#[verifier::external_type_specification]
#[verifier::external_body]
pub struct ExInstant(std::time::Instant);

/// Calls `Instant::now`. The clock is outside the library, so nothing is
/// said of the value.
#[verifier::external_body]
fn now() -> std::time::Instant {
    std::time::Instant::now()
}

/// Calls `Instant::elapsed`: the time since `t`. It depends on the clock,
/// so nothing is said of the value.
#[verifier::external_body]
fn elapsed(t: &std::time::Instant) -> std::time::Duration {
    t.elapsed()
}

/// Calls `Duration::as_millis`: the whole milliseconds of `d`. The
/// duration is opaque here, so nothing is said of the value.
#[verifier::external_body]
fn whole_millis(d: std::time::Duration) -> u128 {
    d.as_millis()
}

/// The browser's panels, left to right.
#[derive(Debug, Clone, Copy, PartialEq, Eq, Structural)]
pub enum Panel {
    Books,
    Chapters,
    Scripture,
}

/// How the scripture panel lays out verses.
#[derive(Debug, Clone, Copy, PartialEq, Eq, Structural)]
pub enum ViewMode {
    /// One verse per line with a selectable verse cursor.
    VersePerLine,
    /// Verses flow together for a natural reading experience.
    Paragraph,
}

impl Default for ViewMode {
    fn default() -> (r: Self)
        ensures
            r == ViewMode::VersePerLine,
    {
        ViewMode::VersePerLine
    }
}

/// The cursor of a list: which item is selected, and the first visible
/// item.
#[derive(Debug, Clone, Copy, PartialEq, Eq, Structural)]
pub struct ListState {
    pub selected: Option<usize>,
    pub offset: usize,
}

impl ListState {
    /// No selection, scrolled to the top.
    pub fn new() -> (r: Self)
        ensures
            r.selected is None,
            r.offset == 0,
    {
        ListState { selected: None, offset: 0 }
    }

    /// Selects an item (or nothing); the scroll offset resets to the top
    /// when the selection is cleared.
    pub fn select(&mut self, index: Option<usize>)
        ensures
            final(self).selected == index,
            final(self).offset == if index is None {
                0
            } else {
                old(self).offset
            },
    {
        self.selected = index;
        if index.is_none() {
            self.offset = 0;
        }
    }

    /// The selected item.
    pub fn selected(&self) -> (r: Option<usize>)
        ensures
            r == self.selected,
    {
        self.selected
    }

    /// The first visible item.
    pub fn offset(&self) -> (r: usize)
        ensures
            r == self.offset,
    {
        self.offset
    }
}

impl Default for ListState {
    fn default() -> (r: Self)
        ensures
            r.selected is None,
            r.offset == 0,
    {
        ListState::new()
    }
}

/// The selected index, or 0.
pub open spec fn sel(l: ListState) -> usize {
    match l.selected {
        Some(i) => i,
        None => 0,
    }
}

/// A translation offered by the picker.
#[derive(Debug, Clone, Copy)]
pub struct TranslationInfo {
    pub code: &'static str,
    pub name: &'static str,
    pub lang: &'static str,
    pub offline: bool,
}

/// Number of translations in the picker.
pub const TRANSLATION_COUNT: usize = 32;

/// The translation at position `i` of the picker, grouped by language.
pub open spec fn spec_translation(i: int) -> TranslationInfo {
    if i == 0 {
        TranslationInfo { code: "KJV", name: "King James Version", lang: "English", offline: true }
    } else if i == 1 {
        TranslationInfo { code: "WEB", name: "World English Bible", lang: "English", offline: false }
    } else if i == 2 {
        TranslationInfo { code: "NKJV", name: "New King James Version", lang: "English", offline: false }
    } else if i == 3 {
        TranslationInfo { code: "ESV", name: "English Standard Version", lang: "English", offline: false }
    } else if i == 4 {
        TranslationInfo { code: "NIV", name: "New International Version", lang: "English", offline: false }
    } else if i == 5 {
        TranslationInfo { code: "NLT", name: "New Living Translation", lang: "English", offline: false }
    } else if i == 6 {
        TranslationInfo { code: "NASB", name: "New American Standard Bible", lang: "English", offline: false }
    } else if i == 7 {
        TranslationInfo { code: "BSB", name: "Berean Standard Bible", lang: "English", offline: false }
    } else if i == 8 {
        TranslationInfo { code: "NET", name: "New English Translation", lang: "English", offline: false }
    } else if i == 9 {
        TranslationInfo { code: "MSG", name: "The Message", lang: "English", offline: false }
    } else if i == 10 {
        TranslationInfo { code: "YLT", name: "Young's Literal Translation", lang: "English", offline: false }
    } else if i == 11 {
        TranslationInfo { code: "UBIO", name: "Переклад Огієнка", lang: "Українська", offline: false }
    } else if i == 12 {
        TranslationInfo { code: "UKRK", name: "Переклад Куліша", lang: "Українська", offline: false }
    } else if i == 13 {
        TranslationInfo { code: "RV1960", name: "Reina-Valera 1960", lang: "Español", offline: false }
    } else if i == 14 {
        TranslationInfo { code: "NVI", name: "Nueva Versión Internacional", lang: "Español", offline: false }
    } else if i == 15 {
        TranslationInfo { code: "NAA", name: "Nova Almeida Atualizada (2017)", lang: "Português", offline: false }
    } else if i == 16 {
        TranslationInfo { code: "ARA", name: "Almeida Revista e Atualizada (1993)", lang: "Português", offline: false }
    } else if i == 17 {
        TranslationInfo { code: "ACF11", name: "Almeida Corrigida Fiel (2011)", lang: "Português", offline: false }
    } else if i == 18 {
        TranslationInfo { code: "NVIPT", name: "Nova Versão Internacional", lang: "Português", offline: false }
    } else if i == 19 {
        TranslationInfo { code: "NVT", name: "Nova Versão Transformadora (2016)", lang: "Português", offline: false }
    } else if i == 20 {
        TranslationInfo { code: "FRLSG", name: "Louis Segond 1910", lang: "Français", offline: false }
    } else if i == 21 {
        TranslationInfo { code: "NBS", name: "Nouvelle Bible Segond", lang: "Français", offline: false }
    } else if i == 22 {
        TranslationInfo { code: "LUT", name: "Luther Bibel", lang: "Deutsch", offline: false }
    } else if i == 23 {
        TranslationInfo { code: "ELB", name: "Elberfelder Bibel", lang: "Deutsch", offline: false }
    } else if i == 24 {
        TranslationInfo { code: "SYNOD", name: "Синодальный перевод", lang: "Русский", offline: false }
    } else if i == 25 {
        TranslationInfo { code: "NRT", name: "Новый Русский Перевод", lang: "Русский", offline: false }
    } else if i == 26 {
        TranslationInfo { code: "CUV", name: "和合本 (Traditional)", lang: "中文", offline: false }
    } else if i == 27 {
        TranslationInfo { code: "CUNPS", name: "和合本 (Simplified)", lang: "中文", offline: false }
    } else if i == 28 {
        TranslationInfo { code: "KRV", name: "개역한글판", lang: "한국어", offline: false }
    } else if i == 29 {
        TranslationInfo { code: "JPKJV", name: "口語訳聖書", lang: "日本語", offline: false }
    } else if i == 30 {
        TranslationInfo { code: "NR06", name: "Nuova Riveduta 2006", lang: "Italiano", offline: false }
    } else {
        TranslationInfo { code: "HSV17", name: "Herziene Statenvertaling", lang: "Nederlands", offline: false }
    }
}

/// The translation at position `i` of the picker.
pub fn translation_at(i: usize) -> (t: TranslationInfo)
    requires
        i < TRANSLATION_COUNT,
    ensures
        t == spec_translation(i as int),
{
    if i == 0 {
        TranslationInfo { code: "KJV", name: "King James Version", lang: "English", offline: true }
    } else if i == 1 {
        TranslationInfo { code: "WEB", name: "World English Bible", lang: "English", offline: false }
    } else if i == 2 {
        TranslationInfo { code: "NKJV", name: "New King James Version", lang: "English", offline: false }
    } else if i == 3 {
        TranslationInfo { code: "ESV", name: "English Standard Version", lang: "English", offline: false }
    } else if i == 4 {
        TranslationInfo { code: "NIV", name: "New International Version", lang: "English", offline: false }
    } else if i == 5 {
        TranslationInfo { code: "NLT", name: "New Living Translation", lang: "English", offline: false }
    } else if i == 6 {
        TranslationInfo { code: "NASB", name: "New American Standard Bible", lang: "English", offline: false }
    } else if i == 7 {
        TranslationInfo { code: "BSB", name: "Berean Standard Bible", lang: "English", offline: false }
    } else if i == 8 {
        TranslationInfo { code: "NET", name: "New English Translation", lang: "English", offline: false }
    } else if i == 9 {
        TranslationInfo { code: "MSG", name: "The Message", lang: "English", offline: false }
    } else if i == 10 {
        TranslationInfo { code: "YLT", name: "Young's Literal Translation", lang: "English", offline: false }
    } else if i == 11 {
        TranslationInfo { code: "UBIO", name: "Переклад Огієнка", lang: "Українська", offline: false }
    } else if i == 12 {
        TranslationInfo { code: "UKRK", name: "Переклад Куліша", lang: "Українська", offline: false }
    } else if i == 13 {
        TranslationInfo { code: "RV1960", name: "Reina-Valera 1960", lang: "Español", offline: false }
    } else if i == 14 {
        TranslationInfo { code: "NVI", name: "Nueva Versión Internacional", lang: "Español", offline: false }
    } else if i == 15 {
        TranslationInfo { code: "NAA", name: "Nova Almeida Atualizada (2017)", lang: "Português", offline: false }
    } else if i == 16 {
        TranslationInfo { code: "ARA", name: "Almeida Revista e Atualizada (1993)", lang: "Português", offline: false }
    } else if i == 17 {
        TranslationInfo { code: "ACF11", name: "Almeida Corrigida Fiel (2011)", lang: "Português", offline: false }
    } else if i == 18 {
        TranslationInfo { code: "NVIPT", name: "Nova Versão Internacional", lang: "Português", offline: false }
    } else if i == 19 {
        TranslationInfo { code: "NVT", name: "Nova Versão Transformadora (2016)", lang: "Português", offline: false }
    } else if i == 20 {
        TranslationInfo { code: "FRLSG", name: "Louis Segond 1910", lang: "Français", offline: false }
    } else if i == 21 {
        TranslationInfo { code: "NBS", name: "Nouvelle Bible Segond", lang: "Français", offline: false }
    } else if i == 22 {
        TranslationInfo { code: "LUT", name: "Luther Bibel", lang: "Deutsch", offline: false }
    } else if i == 23 {
        TranslationInfo { code: "ELB", name: "Elberfelder Bibel", lang: "Deutsch", offline: false }
    } else if i == 24 {
        TranslationInfo { code: "SYNOD", name: "Синодальный перевод", lang: "Русский", offline: false }
    } else if i == 25 {
        TranslationInfo { code: "NRT", name: "Новый Русский Перевод", lang: "Русский", offline: false }
    } else if i == 26 {
        TranslationInfo { code: "CUV", name: "和合本 (Traditional)", lang: "中文", offline: false }
    } else if i == 27 {
        TranslationInfo { code: "CUNPS", name: "和合本 (Simplified)", lang: "中文", offline: false }
    } else if i == 28 {
        TranslationInfo { code: "KRV", name: "개역한글판", lang: "한국어", offline: false }
    } else if i == 29 {
        TranslationInfo { code: "JPKJV", name: "口語訳聖書", lang: "日本語", offline: false }
    } else if i == 30 {
        TranslationInfo { code: "NR06", name: "Nuova Riveduta 2006", lang: "Italiano", offline: false }
    } else {
        TranslationInfo { code: "HSV17", name: "Herziene Statenvertaling", lang: "Nederlands", offline: false }
    }
}

/// All translations of the picker, in order.
pub fn translations() -> (r: Vec<TranslationInfo>)
    ensures
        r@.len() == TRANSLATION_COUNT,
        forall|i: int| 0 <= i < TRANSLATION_COUNT ==> #[trigger] r@[i] == spec_translation(i),
{
    let mut v: Vec<TranslationInfo> = Vec::new();
    let mut i: usize = 0;
    while i < TRANSLATION_COUNT
        invariant
            i <= TRANSLATION_COUNT,
            v@.len() == i,
            forall|k: int| 0 <= k < i ==> #[trigger] v@[k] == spec_translation(k),
        decreases TRANSLATION_COUNT - i,
    {
        v.push(translation_at(i));
        i += 1;
    }
    v
}

/// Live search: the query, its results and the result cursor.
#[derive(Debug, Clone, PartialEq)]
pub enum SearchMode {
    Off,
    Active { query: String, results: Vec<SearchResult>, list_state: ListState },
}

/// How long Books/Chapters browsing must be still before the scripture
/// panel loads a preview, in milliseconds.
pub const PREVIEW_DEBOUNCE_MS: u128 = 150;

/// The browser: panels, list cursors, the loaded chapter and the reading
/// settings.
pub struct BrowserState {
    pub active_panel: Panel,
    pub book_list: ListState,
    pub chapter_list: ListState,
    pub scripture_scroll: u16,
    pub selected_book_idx: usize,
    pub selected_chapter: u32,
    pub current_chapter: Option<Chapter>,
    pub loading: bool,
    pub search: SearchMode,
    pub translation: String,
    pub translation_picker: bool,
    pub translation_list: ListState,
    /// Localized book names for the current translation (in book order);
    /// empty means English names.
    pub localized_books: Vec<String>,
    /// Background download caching a translation.
    pub download: Option<DownloadHandle>,
    /// Verse to highlight after jumping from a search result.
    pub highlight_verse: Option<u32>,
    /// Error message shown in the scripture panel.
    pub error: Option<String>,
    pub view_mode: ViewMode,
    /// Verse cursor of the scripture panel (verse-per-line view).
    pub verse_list: ListState,
    /// Anchor verse index while selecting a range to copy.
    pub visual_anchor: Option<usize>,
    /// Transient status-bar message after a copy, with its time.
    pub copy_flash: Option<(String, std::time::Instant)>,
    /// One-shot request to scroll the paragraph view to the selected verse.
    pub pending_paragraph_scroll: bool,
    /// One-shot request to derive the verse cursor from the paragraph
    /// scroll position.
    pub pending_cursor_sync: bool,
    /// Whether the help overlay is open.
    pub help_open: bool,
    /// Scroll offset inside the help overlay.
    pub help_scroll: u16,
    /// Set while browsing Books/Chapters: the scripture panel previews the
    /// highlighted target after a short debounce.
    pub preview_pending: Option<std::time::Instant>,
}

/// The verses of the loaded chapter (none when nothing is loaded).
pub open spec fn loaded_verses(s: &BrowserState) -> Seq<Verse> {
    match s.current_chapter {
        Some(c) => c.verses@,
        None => seq![],
    }
}

/// The verse cursor, clamped to the loaded chapter.
pub open spec fn cursor_spec(s: &BrowserState) -> int {
    let i = sel(s.verse_list) as int;
    let n = loaded_verses(s).len() as int;
    let last = if n > 0 {
        n - 1
    } else {
        0
    };
    if i < last {
        i
    } else {
        last
    }
}

/// The book name shown for index `idx`: the localized one when present
/// and not empty, else the English one.
pub open spec fn display_name_spec(localized: Seq<String>, idx: int) -> Seq<char> {
    if 0 <= idx < localized.len() && localized[idx]@.len() > 0 {
        localized[idx]@
    } else {
        spec_book(idx).name@
    }
}

/// The browser after jumping to `chapter`:`verse` of the book named
/// `book` (English name, any ASCII case): that place selected in every
/// panel, shown from the top with the verse highlighted and under the
/// cursor, the search closed. An unknown book changes nothing.
pub open spec fn jump_spec(s: BrowserState, book: Seq<char>, chapter: u32, verse: u32) -> BrowserState {
    match book_index_spec(book, 0) {
        None => s,
        Some(idx) => BrowserState {
            selected_book_idx: idx as usize,
            book_list: ListState { selected: Some(idx as usize), ..s.book_list },
            selected_chapter: chapter,
            chapter_list: ListState { selected: Some((chapter - 1) as usize), ..s.chapter_list },
            scripture_scroll: 0,
            active_panel: Panel::Scripture,
            search: SearchMode::Off,
            highlight_verse: Some(verse),
            verse_list: ListState {
                selected: Some(verse_index_spec(loaded_verses(&s), verse) as usize),
                ..s.verse_list
            },
            visual_anchor: None,
            pending_paragraph_scroll: true,
            ..s
        },
    }
}

/// The browser after its download task was reported finished or not: the
/// handle goes once the task has finished.
pub open spec fn download_checked(s: BrowserState, finished: bool) -> BrowserState {
    if finished && s.download is Some {
        BrowserState { download: None, ..s }
    } else {
        s
    }
}

/// Left arrow: Scripture goes to Chapters, Chapters to Books, Books stays.
pub open spec fn prev_panel_spec(s: BrowserState) -> BrowserState {
    BrowserState {
        active_panel: match s.active_panel {
            Panel::Books => Panel::Books,
            Panel::Chapters => Panel::Books,
            Panel::Scripture => Panel::Chapters,
        },
        ..s
    }
}

/// The other reading view, with a request to carry the reading position
/// across; any range selection ends.
pub open spec fn toggle_spec(s: BrowserState) -> BrowserState {
    BrowserState {
        visual_anchor: None,
        view_mode: match s.view_mode {
            ViewMode::VersePerLine => ViewMode::Paragraph,
            ViewMode::Paragraph => ViewMode::VersePerLine,
        },
        pending_paragraph_scroll: s.pending_paragraph_scroll || s.view_mode == ViewMode::VersePerLine,
        pending_cursor_sync: s.pending_cursor_sync || s.view_mode == ViewMode::Paragraph,
        ..s
    }
}

/// The browser state the program starts with.
pub open spec fn is_initial(s: &BrowserState) -> bool {
    &&& s.active_panel == Panel::Books
    &&& s.book_list == ListState { selected: Some(0), offset: 0 }
    &&& s.chapter_list == ListState { selected: Some(0), offset: 0 }
    &&& s.scripture_scroll == 0
    &&& s.selected_book_idx == 0
    &&& s.selected_chapter == 1
    &&& s.current_chapter is None
    &&& !s.loading
    &&& s.search is Off
    &&& s.translation@ == "KJV"@
    &&& !s.translation_picker
    &&& s.translation_list == ListState { selected: None, offset: 0 }
    &&& s.localized_books@.len() == 0
    &&& s.download is None
    &&& s.highlight_verse is None
    &&& s.error is None
    &&& s.view_mode == ViewMode::VersePerLine
    &&& s.verse_list == ListState { selected: Some(0), offset: 0 }
    &&& s.visual_anchor is None
    &&& s.copy_flash is None
    &&& !s.pending_paragraph_scroll
    &&& !s.pending_cursor_sync
    &&& !s.help_open
    &&& s.help_scroll == 0
    &&& s.preview_pending is None
}

impl BrowserState {
    /// The browser at the top of the Books panel, KJV, nothing loaded.
    pub fn new() -> (r: Self)
        ensures
            is_initial(&r),
    {
        let mut book_list = ListState::new();
        book_list.select(Some(0));
        let mut chapter_list = ListState::new();
        chapter_list.select(Some(0));
        let mut verse_list = ListState::new();
        verse_list.select(Some(0));
        let mut kjv: Vec<char> = Vec::new();
        extend_str(&mut kjv, "KJV");
        assert(kjv@ =~= "KJV"@);
        BrowserState {
            active_panel: Panel::Books,
            book_list,
            chapter_list,
            scripture_scroll: 0,
            selected_book_idx: 0,
            selected_chapter: 1,
            current_chapter: None,
            loading: false,
            search: SearchMode::Off,
            translation: string_from(kjv.as_slice()),
            translation_picker: false,
            translation_list: ListState::new(),
            localized_books: Vec::new(),
            download: None,
            highlight_verse: None,
            error: None,
            view_mode: ViewMode::VersePerLine,
            verse_list,
            visual_anchor: None,
            copy_flash: None,
            pending_paragraph_scroll: false,
            pending_cursor_sync: false,
            help_open: false,
            help_scroll: 0,
            preview_pending: None,
        }
    }

    /// Number of verses in the loaded chapter.
    pub fn verse_count(&self) -> (r: usize)
        ensures
            r == loaded_verses(self).len(),
    {
        match &self.current_chapter {
            Some(c) => c.verses.len(),
            None => 0,
        }
    }

    /// Current verse cursor, clamped to the loaded chapter.
    pub fn selected_verse_idx(&self) -> (r: usize)
        ensures
            r == cursor_spec(self),
    {
        let i = match self.verse_list.selected() {
            Some(i) => i,
            None => 0,
        };
        let n = self.verse_count();
        let last = if n > 0 {
            n - 1
        } else {
            0
        };
        if i < last {
            i
        } else {
            last
        }
    }

    /// English name of the book under the Books cursor.
    pub fn selected_book_name(&self) -> (r: &'static str)
        requires
            self.selected_book_idx < BOOK_COUNT,
        ensures
            r == spec_book(self.selected_book_idx as int).name,
    {
        book(self.selected_book_idx).name
    }

    /// Chapter count of the book under the Books cursor.
    pub fn selected_book_chapters(&self) -> (r: u32)
        requires
            self.selected_book_idx < BOOK_COUNT,
        ensures
            r == spec_book(self.selected_book_idx as int).chapters,
    {
        book(self.selected_book_idx).chapters
    }

    /// The display name for a book: localized if available.
    pub fn book_display_name(&self, idx: usize) -> (r: &str)
        requires
            idx < BOOK_COUNT || (idx < self.localized_books@.len()
                && self.localized_books@[idx as int]@.len() > 0),
        ensures
            r@ == display_name_spec(self.localized_books@, idx as int),
    {
        if idx < self.localized_books.len() {
            let name = self.localized_books[idx].as_str();
            if !name.is_empty() {
                return name;
            }
        }
        book(idx).name
    }

    /// Move to the panel on the left (Books stays Books).
    pub fn prev_panel(&mut self)
        ensures
            *final(self) == prev_panel_spec(*old(self)),
    {
        self.active_panel = match self.active_panel {
            Panel::Books => Panel::Books,
            Panel::Chapters => Panel::Books,
            Panel::Scripture => Panel::Chapters,
        };
    }

    /// Toggle between verse-per-line and paragraph view, asking the next
    /// render to carry the reading position across; any range selection
    /// ends.
    pub fn toggle_view_mode(&mut self)
        ensures
            *final(self) == toggle_spec(*old(self)),
    {
        self.visual_anchor = None;
        match self.view_mode {
            ViewMode::VersePerLine => {
                self.pending_paragraph_scroll = true;
                self.view_mode = ViewMode::Paragraph;
            },
            ViewMode::Paragraph => {
                self.pending_cursor_sync = true;
                self.view_mode = ViewMode::VersePerLine;
            },
        }
    }

    /// Drop the download handle once its task has finished. Whether it has
    /// is the task's flag, set by another task: the handle is dropped or
    /// kept as `drop_finished_download` says for either answer.
    pub fn check_download(&mut self)
        ensures
            *final(self) == download_checked(*old(self), true) || *final(self) == download_checked(
                *old(self),
                false,
            ),
    {
        let finished = match &self.download {
            Some(dl) => dl.is_done(),
            None => false,
        };
        self.drop_finished_download(finished);
    }

    /// Drop the download handle when its task is reported `finished`.
    pub fn drop_finished_download(&mut self, finished: bool)
        ensures
            *final(self) == download_checked(*old(self), finished),
    {
        if finished && self.download.is_some() {
            self.download = None;
        }
    }

    /// Download progress as (completed, total), when a download runs.
    pub fn download_progress(&self) -> (r: Option<(usize, usize)>)
        ensures
            r is None <==> self.download is None,
            r matches Some(p) ==> p.1 == self.download->0.total,
    {
        match &self.download {
            Some(dl) => Some(dl.progress()),
            None => None,
        }
    }

    /// Commit the chapter highlighted in the Chapters panel and switch to
    /// Scripture. Reloading (and resetting scroll, verse cursor, highlight
    /// and range) happens only when the chapter or book differs from the
    /// loaded one, so hopping back to Scripture keeps the reader's place.
    fn commit_chapter_selection(&mut self) -> (r: bool)
        requires
            old(self).selected_book_idx < BOOK_COUNT,
            (sel(old(self).chapter_list) as u32) < u32::MAX,
        ensures
            (*final(self), r) == commit_spec(*old(self)),
    {
        let sel_idx = match self.chapter_list.selected() {
            Some(i) => i,
            None => 0,
        };
        let ch = sel_idx as u32 + 1;
        let target = chars_of(self.selected_book_name());
        let needs_reload = match &self.current_chapter {
            Some(c) => {
                let loaded = chars_of(c.book.as_str());
                c.chapter != ch || !chars_eq(loaded.as_slice(), target.as_slice())
            },
            None => true,
        };
        self.selected_chapter = ch;
        self.active_panel = Panel::Scripture;
        if needs_reload {
            self.scripture_scroll = 0;
            self.verse_list.select(Some(0));
            self.highlight_verse = None;
            self.visual_anchor = None;
        }
        needs_reload
    }

    /// Move to the next panel (right arrow). On Chapters this selects the
    /// highlighted chapter; returns whether it must be loaded.
    pub fn next_panel_or_select(&mut self) -> (r: bool)
        requires
            old(self).active_panel == Panel::Chapters ==> old(self).selected_book_idx < BOOK_COUNT
                && (sel(old(self).chapter_list) as u32) < u32::MAX,
        ensures
            (*final(self), r) == next_panel_spec(*old(self)),
            old(self).active_panel == Panel::Books ==> final(self).active_panel == Panel::Chapters
                && final(self).chapter_list.selected == Some(0usize) && final(self).selected_book_idx
                == old(self).selected_book_idx && !r,
    {
        proof {
            if self.active_panel == Panel::Books {
                lemma_open_book_starts_at_chapter_one(*self);
            }
        }
        match self.active_panel {
            Panel::Books => {
                self.chapter_list.select(Some(0));
                self.active_panel = Panel::Chapters;
                false
            },
            Panel::Chapters => self.commit_chapter_selection(),
            Panel::Scripture => false,
        }
    }

    /// Enter: open the highlighted book, or load the highlighted chapter.
    /// Returns whether a chapter must be loaded.
    pub fn select_current(&mut self) -> (r: bool)
        requires
            old(self).active_panel == Panel::Chapters ==> old(self).selected_book_idx < BOOK_COUNT
                && (sel(old(self).chapter_list) as u32) < u32::MAX,
        ensures
            (*final(self), r) == next_panel_spec(*old(self)),
            old(self).active_panel == Panel::Books ==> final(self).active_panel == Panel::Chapters
                && final(self).chapter_list.selected == Some(0usize) && final(self).selected_book_idx
                == old(self).selected_book_idx && !r,
    {
        proof {
            if self.active_panel == Panel::Books {
                lemma_open_book_starts_at_chapter_one(*self);
            }
        }
        match self.active_panel {
            Panel::Books => {
                self.chapter_list.select(Some(0));
                self.active_panel = Panel::Chapters;
                false
            },
            Panel::Chapters => self.commit_chapter_selection(),
            Panel::Scripture => false,
        }
    }

    /// Arm the live-preview debounce timer.
    fn request_preview(&mut self)
        ensures
            final(self).preview_pending is Some,
            *final(self) == (BrowserState { preview_pending: final(self).preview_pending, ..*old(self) }),
    {
        self.preview_pending = Some(now());
    }

    /// Up arrow: previous book or chapter (arming the live preview), or in
    /// Scripture the previous verse (verse-per-line) or line (paragraph).
    pub fn move_up(&mut self)
        ensures
            moved(*old(self), *final(self), move_up_spec(*old(self))),
            old(self).active_panel == Panel::Chapters && sel(old(self).chapter_list) > 0
                ==> final(self).chapter_list.selected == Some((sel(old(self).chapter_list) - 1) as usize),
            old(self).active_panel == Panel::Books && sel(old(self).book_list) > 0
                ==> final(self).book_list.selected == Some((sel(old(self).book_list) - 1) as usize)
                && final(self).selected_book_idx + 1 == sel(old(self).book_list),
    {
        proof {
            lemma_up_moves_list_cursor_by_one(*self);
        }
        match self.active_panel {
            Panel::Books => {
                let i = match self.book_list.selected() {
                    Some(i) => i,
                    None => 0,
                };
                if i > 0 {
                    self.book_list.select(Some(i - 1));
                    self.selected_book_idx = i - 1;
                    self.request_preview();
                }
            },
            Panel::Chapters => {
                let i = match self.chapter_list.selected() {
                    Some(i) => i,
                    None => 0,
                };
                if i > 0 {
                    self.chapter_list.select(Some(i - 1));
                    self.request_preview();
                }
            },
            Panel::Scripture => {
                self.highlight_verse = None;
                match self.view_mode {
                    ViewMode::VersePerLine => {
                        let i = self.selected_verse_idx();
                        if i > 0 {
                            self.verse_list.select(Some(i - 1));
                        }
                    },
                    ViewMode::Paragraph => {
                        if self.scripture_scroll > 0 {
                            self.scripture_scroll = self.scripture_scroll - 1;
                        }
                    },
                }
            },
        }
    }

    /// Down arrow: next book or chapter (arming the live preview), or in
    /// Scripture the next verse (verse-per-line) or line (paragraph).
    pub fn move_down(&mut self)
        requires
            old(self).active_panel == Panel::Chapters ==> old(self).selected_book_idx < BOOK_COUNT,
            old(self).active_panel == Panel::Scripture && old(self).view_mode == ViewMode::Paragraph
                ==> old(self).scripture_scroll < u16::MAX,
        ensures
            moved(*old(self), *final(self), move_down_spec(*old(self))),
            old(self).active_panel == Panel::Chapters && sel(old(self).chapter_list) + 1 < spec_book(
                old(self).selected_book_idx as int,
            ).chapters ==> final(self).chapter_list.selected == Some(
                (sel(old(self).chapter_list) + 1) as usize,
            ),
            old(self).active_panel == Panel::Books && sel(old(self).book_list) + 1 < BOOK_COUNT
                ==> final(self).book_list.selected == Some((sel(old(self).book_list) + 1) as usize)
                && final(self).selected_book_idx == sel(old(self).book_list) + 1,
    {
        proof {
            lemma_down_moves_list_cursor_by_one(*self);
        }
        match self.active_panel {
            Panel::Books => {
                let i = match self.book_list.selected() {
                    Some(i) => i,
                    None => 0,
                };
                if i < BOOK_COUNT - 1 {
                    self.book_list.select(Some(i + 1));
                    self.selected_book_idx = i + 1;
                    self.request_preview();
                }
            },
            Panel::Chapters => {
                let i = match self.chapter_list.selected() {
                    Some(i) => i,
                    None => 0,
                };
                let max = self.selected_book_chapters() as usize;
                if i < max - 1 {
                    self.chapter_list.select(Some(i + 1));
                    self.request_preview();
                }
            },
            Panel::Scripture => {
                self.highlight_verse = None;
                match self.view_mode {
                    ViewMode::VersePerLine => {
                        let i = self.selected_verse_idx();
                        let n = self.verse_count();
                        if n > 0 && i < n - 1 {
                            self.verse_list.select(Some(i + 1));
                        }
                    },
                    ViewMode::Paragraph => {
                        self.scripture_scroll = self.scripture_scroll + 1;
                    },
                }
            },
        }
    }

    /// Whether the debounced live preview should load now: a preview is
    /// armed and at least `PREVIEW_DEBOUNCE_MS` have passed since. The time
    /// passed is read from the clock and decided by `preview_due_after`;
    /// with no preview armed, it is never due.
    pub fn preview_due(&self) -> (r: bool)
        ensures
            r ==> self.preview_pending is Some,
    {
        match &self.preview_pending {
            Some(t) => {
                let ms = whole_millis(elapsed(t));
                self.preview_due_after(ms)
            },
            None => false,
        }
    }

    /// Whether the armed live preview is due when `elapsed_ms` have passed
    /// since it was armed.
    pub fn preview_due_after(&self, elapsed_ms: u128) -> (r: bool)
        ensures
            r == (self.preview_pending is Some && elapsed_ms >= PREVIEW_DEBOUNCE_MS),
    {
        self.preview_pending.is_some() && elapsed_ms >= PREVIEW_DEBOUNCE_MS
    }

    /// The (book, chapter) the live preview shows: chapter 1 of the
    /// highlighted book while browsing Books, the highlighted chapter while
    /// browsing Chapters.
    pub fn preview_target(&self) -> (r: (usize, u32))
        requires
            self.active_panel == Panel::Chapters ==> (sel(self.chapter_list) as u32) < u32::MAX,
        ensures
            r.0 == self.selected_book_idx,
            r.1 == if self.active_panel == Panel::Chapters {
                (sel(self.chapter_list) as u32) + 1
            } else {
                1
            },
    {
        let chapter: u32 = match self.active_panel {
            Panel::Chapters => {
                let i = match self.chapter_list.selected() {
                    Some(i) => i,
                    None => 0,
                };
                i as u32 + 1
            },
            _ => 1,
        };
        (self.selected_book_idx, chapter)
    }

    /// Move the verse cursor to the verse with this number, tolerating
    /// translations whose numbering has gaps.
    pub fn select_verse_by_number(&mut self, number: u32)
        ensures
            *final(self) == (BrowserState {
                verse_list: ListState {
                    selected: Some(verse_index_spec(loaded_verses(old(self)), number) as usize),
                    ..old(self).verse_list
                },
                ..*old(self)
            }),
    {
        let fallback: usize = if number > 0 {
            (number - 1) as usize
        } else {
            0
        };
        let idx = match &self.current_chapter {
            Some(c) => match find_verse(&c.verses, number) {
                Some(i) => i,
                None => fallback,
            },
            None => fallback,
        };
        self.verse_list.select(Some(idx));
    }

    /// Open the translation picker with the current translation selected.
    pub fn open_translation_picker(&mut self)
        ensures
            *final(self) == (BrowserState {
                translation_list: ListState {
                    selected: Some(picker_index_spec(old(self).translation@) as usize),
                    ..old(self).translation_list
                },
                translation_picker: true,
                ..*old(self)
            }),
    {
        let idx = match find_translation(self.translation.as_str()) {
            Some(i) => i,
            None => 0,
        };
        self.translation_list.select(Some(idx));
        self.translation_picker = true;
    }

    /// Take the translation selected in the picker and close it. Returns
    /// whether the translation changed.
    pub fn pick_translation(&mut self) -> (r: bool)
        requires
            sel(old(self).translation_list) < TRANSLATION_COUNT,
        ensures
            r == !eq_ignore_ascii_case_spec(
                spec_translation(sel(old(self).translation_list) as int).code@,
                old(self).translation@,
            ),
            final(self).translation@ == spec_translation(
                sel(old(self).translation_list) as int,
            ).code@,
            *final(self) == (BrowserState {
                translation: final(self).translation,
                translation_picker: false,
                ..*old(self)
            }),
    {
        let idx = match self.translation_list.selected() {
            Some(i) => i,
            None => 0,
        };
        let code = translation_at(idx).code;
        let changed = !eq_ignore_ascii_case(code, self.translation.as_str());
        self.translation = string_from(chars_of(code).as_slice());
        self.translation_picker = false;
        changed
    }

    /// Show a transient message in the status bar.
    pub fn flash(&mut self, message: String)
        ensures
            final(self).copy_flash matches Some(f) && f.0 == message,
            *final(self) == (BrowserState { copy_flash: final(self).copy_flash, ..*old(self) }),
    {
        self.copy_flash = Some((message, now()));
    }

    /// The search result under the result cursor.
    pub fn selected_search_result(&self) -> (r: Option<&SearchResult>)
        ensures
            r == match self.search {
                SearchMode::Active { results, list_state, .. } => match list_state.selected {
                    Some(i) => if i < results@.len() {
                        Some(&results@[i as int])
                    } else {
                        None
                    },
                    None => None,
                },
                SearchMode::Off => None,
            },
    {
        match &self.search {
            SearchMode::Active { results, list_state, .. } => match list_state.selected() {
                Some(i) => {
                    if i < results.len() {
                        Some(&results[i])
                    } else {
                        None
                    }
                },
                None => None,
            },
            SearchMode::Off => None,
        }
    }

    /// Navigate to a book and chapter from a search result, with the verse
    /// highlighted and under the cursor. An unknown book changes nothing.
    pub fn jump_to_result(&mut self, book_name: &str, chapter: u32, verse: u32)
        requires
            book_index_spec(book_name@, 0) is Some ==> chapter >= 1,
        ensures
            *final(self) == jump_spec(*old(self), book_name@, chapter, verse),
            book_index_spec(book_name@, 0) is Some ==> {
                &&& final(self).selected_book_idx < BOOK_COUNT
                &&& eq_ignore_ascii_case_spec(
                    spec_book(final(self).selected_book_idx as int).name@,
                    book_name@,
                )
                &&& final(self).book_list.selected == Some(final(self).selected_book_idx)
                &&& final(self).selected_chapter == chapter
                &&& final(self).chapter_list.selected == Some((chapter - 1) as usize)
                &&& final(self).active_panel == Panel::Scripture
                &&& final(self).highlight_verse == Some(verse)
            },
            book_index_spec(book_name@, 0) is None ==> *final(self) == *old(self),
    {
        proof {
            if book_index_spec(book_name@, 0) is Some {
                lemma_jump_selects_the_place(*self, book_name@, chapter, verse);
            }
        }
        let found = find_book(book_name);
        if let Some(idx) = found {
            self.selected_book_idx = idx;
            self.book_list.select(Some(idx));
            self.selected_chapter = chapter;
            self.chapter_list.select(Some((chapter - 1) as usize));
            self.scripture_scroll = 0;
            self.active_panel = Panel::Scripture;
            self.search = SearchMode::Off;
            self.highlight_verse = Some(verse);
            self.select_verse_by_number(verse);
            self.visual_anchor = None;
            self.pending_paragraph_scroll = true;
        }
    }
}


impl BrowserState {
    /// Verse indices covered by the copy selection (inclusive).
    pub fn selection_bounds(&self) -> (r: (usize, usize))
        ensures
            r == bounds_spec(self),
    {
        let cur = self.selected_verse_idx();
        match self.visual_anchor {
            Some(a) => {
                if a < cur {
                    (a, cur)
                } else {
                    (cur, a)
                }
            },
            None => (cur, cur),
        }
    }

    /// Whether a verse index is inside the active range selection.
    pub fn in_visual_range(&self, idx: usize) -> (r: bool)
        ensures
            r == (self.visual_anchor is Some && bounds_spec(self).0 <= idx <= bounds_spec(self).1),
    {
        if self.visual_anchor.is_none() {
            return false;
        }
        let (start, end) = self.selection_bounds();
        idx >= start && idx <= end
    }

    /// Display name of the book the loaded chapter belongs to (not the
    /// Books-panel cursor, which moves independently of the text).
    pub fn loaded_book_display_name(&self, chapter: &Chapter) -> (r: String)
        ensures
            r@ == loaded_name_spec(self.localized_books@, chapter.book@),
    {
        match find_book(chapter.book.as_str()) {
            Some(i) => string_from(chars_of(self.book_display_name(i)).as_slice()),
            None => chapter.book.clone(),
        }
    }

    /// The clipboard text and a short label for what gets copied: the
    /// selected verse or range in verse-per-line view, the whole chapter
    /// in paragraph view; nothing when no verses are loaded.
    pub fn copy_payload(&self) -> (r: Option<(String, String)>)
        requires
            copy_ready(self),
        ensures
            match payload_spec(self) {
                None => r is None,
                Some(p) => r matches Some(q) && q.0@ == p.0 && q.1@ == p.1,
            },
            self.view_mode == ViewMode::VersePerLine && loaded_verses(self).len() > 0
                && bounds_spec(self).0 < bounds_spec(self).1 ==> (r matches Some(q) && forall|k: int|
                bounds_spec(self).0 <= k <= bounds_spec(self).1 ==> holds_line_after(
                q.0@,
                q.1@.len() as int,
                #[trigger] loaded_verses(self)[k],
            )),
    {
        proof {
            if self.view_mode == ViewMode::VersePerLine && loaded_verses(self).len() > 0
                && bounds_spec(self).0 < bounds_spec(self).1 {
                lemma_range_copy_holds_every_verse(*self);
            }
        }
        let chapter = match &self.current_chapter {
            Some(c) => c,
            None => {
                return None;
            },
        };
        if chapter.verses.len() == 0 {
            return None;
        }
        let book_name = self.loaded_book_display_name(chapter);
        let mut head: Vec<char> = Vec::new();
        extend_str(&mut head, book_name.as_str());
        head.push(' ');
        push_decimal(&mut head, chapter.chapter as u64);
        match self.view_mode {
            ViewMode::Paragraph => {
                let mut text: Vec<char> = Vec::new();
                extend_chars(&mut text, head.as_slice());
                extend_str(&mut text, " (");
                extend_str(&mut text, chapter.translation.as_str());
                text.push(')');
                text.push('\n');
                let ghost t0 = text@;
                append_verse_lines(&mut text, &chapter.verses, 0, chapter.verses.len());
                assert(chapter.verses@.subrange(0, chapter.verses@.len() as int) =~= chapter.verses@);
                proof {
                    assert(text@ =~= payload_spec(self).unwrap().0);
                }
                Some((string_from(text.as_slice()), string_from(head.as_slice())))
            },
            ViewMode::VersePerLine => {
                let (start, end) = self.selection_bounds();
                if start == end {
                    let v = &chapter.verses[start];
                    let mut label: Vec<char> = Vec::new();
                    extend_chars(&mut label, head.as_slice());
                    label.push(':');
                    push_decimal(&mut label, v.verse as u64);
                    let mut text: Vec<char> = Vec::new();
                    extend_chars(&mut text, label.as_slice());
                    extend_str(&mut text, " - ");
                    extend_str(&mut text, v.text.as_str());
                    extend_str(&mut text, " (");
                    extend_str(&mut text, chapter.translation.as_str());
                    text.push(')');
                    proof {
                        assert(label@ =~= payload_spec(self).unwrap().1);
                        assert(text@ =~= payload_spec(self).unwrap().0);
                    }
                    Some((string_from(text.as_slice()), string_from(label.as_slice())))
                } else {
                    let first = &chapter.verses[start];
                    let last = &chapter.verses[end];
                    let mut label: Vec<char> = Vec::new();
                    extend_chars(&mut label, head.as_slice());
                    label.push(':');
                    push_decimal(&mut label, first.verse as u64);
                    label.push('-');
                    push_decimal(&mut label, last.verse as u64);
                    let mut text: Vec<char> = Vec::new();
                    extend_chars(&mut text, label.as_slice());
                    extend_str(&mut text, " (");
                    extend_str(&mut text, chapter.translation.as_str());
                    text.push(')');
                    text.push('\n');
                    append_verse_lines(&mut text, &chapter.verses, start, end + 1);
                    proof {
                        assert(label@ =~= payload_spec(self).unwrap().1);
                        assert(text@ =~= payload_spec(self).unwrap().0);
                    }
                    Some((string_from(text.as_slice()), string_from(label.as_slice())))
                }
            },
        }
    }

    /// Restore a saved session: the book index is clamped to the canon, the
    /// chapter to the book, an empty translation is ignored.
    #[verifier::rlimit(50)]
    pub fn restore(&mut self, saved: &SessionState)
        ensures
            *final(self) == restore_spec(*old(self), *saved),
    {
        let book_idx = if saved.book_index < BOOK_COUNT - 1 {
            saved.book_index
        } else {
            BOOK_COUNT - 1
        };
        self.selected_book_idx = book_idx;
        self.book_list.select(Some(book_idx));
        let max_ch = book(book_idx).chapters;
        self.selected_chapter = if saved.chapter < 1 {
            1
        } else if saved.chapter > max_ch {
            max_ch
        } else {
            saved.chapter
        };
        self.chapter_list.select(Some((self.selected_chapter - 1) as usize));
        self.scripture_scroll = saved.scroll_position;
        self.active_panel = if saved.active_panel == 0 {
            Panel::Books
        } else if saved.active_panel == 1 {
            Panel::Chapters
        } else {
            Panel::Scripture
        };
        if !saved.translation.as_str().is_empty() {
            self.translation = saved.translation.clone();
        }
        self.view_mode = if saved.view_mode == 1 {
            ViewMode::Paragraph
        } else {
            ViewMode::VersePerLine
        };
        self.verse_list.select(Some(saved.selected_verse as usize));
    }

    /// The session to save: position, panel, translation, view and verse
    /// cursor; the theme and banner flag take their defaults.
    pub fn snapshot(&self) -> (r: SessionState)
        ensures
            r == snapshot_spec(*self),
    {
        SessionState {
            book_index: self.selected_book_idx,
            chapter: self.selected_chapter,
            scroll_position: self.scripture_scroll,
            active_panel: match self.active_panel {
                Panel::Books => 0,
                Panel::Chapters => 1,
                Panel::Scripture => 2,
            },
            theme: ThemeName::Slate,
            translation: self.translation.clone(),
            view_mode: match self.view_mode {
                ViewMode::VersePerLine => 0,
                ViewMode::Paragraph => 1,
            },
            selected_verse: (match self.verse_list.selected() {
                Some(i) => i,
                None => 0,
            }) as u32,
            banner_shown: false,
        }
    }

    /// Whether the current translation has local data (bundled KJV, or any
    /// cached chapter as reported by the caller), so search can run
    /// locally.
    pub fn is_offline(&self, file_names: &Vec<String>) -> (r: bool)
        ensures
            r == (crate::cache::is_bundled_spec(self.translation@) || crate::cache::any_chapter_file_spec(
                file_names@,
            )),
    {
        crate::cache::has_cached_data(self.translation.as_str(), file_names)
    }
}

/// Appends "<n> <text>\n" for the verses `vs[from..to]`.
pub(crate) fn append_verse_lines(out: &mut Vec<char>, vs: &Vec<Verse>, from: usize, to: usize)
    requires
        from <= to <= vs@.len(),
    ensures
        final(out)@ == old(out)@ + verse_lines(vs@.subrange(from as int, to as int)),
{
    let mut i: usize = from;
    while i < to
        invariant
            from <= i <= to <= vs@.len(),
            out@ == old(out)@ + verse_lines(vs@.subrange(from as int, i as int)),
        decreases to - i,
    {
        let v = &vs[i];
        let ghost before = out@;
        push_decimal(out, v.verse as u64);
        out.push(' ');
        extend_str(out, v.text.as_str());
        out.push('\n');
        proof {
            let sub = vs@.subrange(from as int, i + 1);
            assert(sub.drop_last() =~= vs@.subrange(from as int, i as int));
            assert(sub.last() == vs@[i as int]);
            assert(out@ =~= old(out)@ + verse_lines(sub));
        }
        i += 1;
    }
}

/// The lines "<n> <text>" of the verses, each ended by a newline.
pub open spec fn verse_lines(vs: Seq<Verse>) -> Seq<char>
    decreases vs.len(),
{
    if vs.len() == 0 {
        seq![]
    } else {
        verse_lines(vs.drop_last()) + decimal(vs.last().verse as nat) + seq![' '] + vs.last().text@
            + seq!['\n']
    }
}

/// The verse indices covered by the copy selection (inclusive).
pub open spec fn bounds_spec(s: &BrowserState) -> (usize, usize) {
    let cur = cursor_spec(s) as usize;
    match s.visual_anchor {
        Some(a) => if a < cur {
            (a, cur)
        } else {
            (cur, a)
        },
        None => (cur, cur),
    }
}

/// The name shown for the book of a loaded chapter: the display name of
/// the book whose English name matches, else the chapter's own book name.
pub open spec fn loaded_name_spec(localized: Seq<String>, book_name: Seq<char>) -> Seq<char> {
    match book_index_spec(book_name, 0) {
        Some(i) => display_name_spec(localized, i),
        None => book_name,
    }
}

/// A range selection stays inside the loaded chapter (the cursor is
/// clamped, the anchor is not).
pub open spec fn copy_ready(s: &BrowserState) -> bool {
    s.view_mode == ViewMode::VersePerLine && loaded_verses(s).len() > 0 ==> match s.visual_anchor {
        Some(a) => a < loaded_verses(s).len(),
        None => true,
    }
}

/// What `copy_payload` gives: (clipboard text, label).
pub open spec fn payload_spec(s: &BrowserState) -> Option<(Seq<char>, Seq<char>)> {
    match s.current_chapter {
        None => None,
        Some(c) => if c.verses@.len() == 0 {
            None
        } else {
            let book_name = loaded_name_spec(s.localized_books@, c.book@);
            let trans = c.translation@;
            let head = book_name + seq![' '] + decimal(c.chapter as nat);
            match s.view_mode {
                ViewMode::Paragraph => Some(
                    (head + " ("@ + trans + seq![')', '\n'] + verse_lines(c.verses@), head),
                ),
                ViewMode::VersePerLine => {
                    let (a, b) = bounds_spec(s);
                    if a == b {
                        let v = c.verses@[a as int];
                        let label = head + seq![':'] + decimal(v.verse as nat);
                        Some((label + " - "@ + v.text@ + " ("@ + trans + seq![')'], label))
                    } else {
                        let first = c.verses@[a as int];
                        let last = c.verses@[b as int];
                        let label = head + seq![':'] + decimal(first.verse as nat) + seq!['-']
                            + decimal(last.verse as nat);
                        Some(
                            (
                                label + " ("@ + trans + seq![')', '\n'] + verse_lines(
                                    c.verses@.subrange(a as int, b + 1),
                                ),
                                label,
                            ),
                        )
                    }
                },
            }
        },
    }
}

/// The browser after restoring `saved`.
pub open spec fn restore_spec(s: BrowserState, saved: SessionState) -> BrowserState {
    let idx: usize = if saved.book_index < BOOK_COUNT - 1 {
        saved.book_index
    } else {
        (BOOK_COUNT - 1) as usize
    };
    let max_ch = spec_book(idx as int).chapters;
    let ch: u32 = if saved.chapter < 1 {
        1
    } else if saved.chapter > max_ch {
        max_ch
    } else {
        saved.chapter
    };
    BrowserState {
        selected_book_idx: idx,
        book_list: ListState { selected: Some(idx), ..s.book_list },
        selected_chapter: ch,
        chapter_list: ListState { selected: Some((ch - 1) as usize), ..s.chapter_list },
        scripture_scroll: saved.scroll_position,
        active_panel: if saved.active_panel == 0 {
            Panel::Books
        } else if saved.active_panel == 1 {
            Panel::Chapters
        } else {
            Panel::Scripture
        },
        translation: if saved.translation@.len() == 0 {
            s.translation
        } else {
            saved.translation
        },
        view_mode: if saved.view_mode == 1 {
            ViewMode::Paragraph
        } else {
            ViewMode::VersePerLine
        },
        verse_list: ListState { selected: Some(saved.selected_verse as usize), ..s.verse_list },
        ..s
    }
}

/// The session saved from `s`.
pub open spec fn snapshot_spec(s: BrowserState) -> SessionState {
    SessionState {
        book_index: s.selected_book_idx,
        chapter: s.selected_chapter,
        scroll_position: s.scripture_scroll,
        active_panel: match s.active_panel {
            Panel::Books => 0,
            Panel::Chapters => 1,
            Panel::Scripture => 2,
        },
        theme: ThemeName::Slate,
        translation: s.translation,
        view_mode: match s.view_mode {
            ViewMode::VersePerLine => 0,
            ViewMode::Paragraph => 1,
        },
        selected_verse: sel(s.verse_list) as u32,
        banner_shown: false,
    }
}


/// A key press, as the terminal reports it.
#[derive(Debug, Clone, Copy, PartialEq, Eq, Structural)]
pub enum Key {
    Esc,
    Backspace,
    Enter,
    Up,
    Down,
    Left,
    Right,
    Char(char),
    Other,
}

/// What must be loaded after a key press.
#[derive(Debug, Clone, Copy, PartialEq, Eq, Structural)]
pub enum LoadRequest {
    Nothing,
    /// The selected chapter of the selected book.
    Chapter,
    /// The book names of the new translation, then the selected chapter.
    BookNamesThenChapter,
}

/// What happens to the "press q again to quit" prompt.
#[derive(Debug, Clone, Copy, PartialEq, Eq, Structural)]
pub enum QuitStep {
    /// Left as it is.
    Keep,
    /// Shown (first q).
    Arm,
    /// Dismissed (any other key in the browser).
    Clear,
    /// The program ends (second q while the prompt shows).
    Exit,
}

/// The outside work a key press asks for.
pub struct KeyOutcome {
    pub load: LoadRequest,
    pub quit: QuitStep,
    /// Rerun the live search for the edited query.
    pub live_search: bool,
    /// Text and label to put on the clipboard.
    pub copy: Option<(String, String)>,
}

/// The outcome with nothing to do but the given quit step.
pub open spec fn plain(o: KeyOutcome, q: QuitStep) -> bool {
    o.load == LoadRequest::Nothing && o.quit == q && !o.live_search && o.copy is None
}

/// `o` carries the clipboard payload of `s`.
pub open spec fn copies(o: KeyOutcome, s: &BrowserState) -> bool {
    match payload_spec(s) {
        None => o.copy is None,
        Some(p) => o.copy matches Some(q) && q.0@ == p.0 && q.1@ == p.1,
    }
}

/// `s` with any range anchor past the loaded verses dropped.
pub open spec fn sane_anchor(s: BrowserState) -> BrowserState {
    if copy_ready(&s) {
        s
    } else {
        BrowserState { visual_anchor: None, ..s }
    }
}

/// The effect of a key in search mode.
pub open spec fn search_key_ok(s: BrowserState, t: BrowserState, key: Key, o: KeyOutcome) -> bool {
    match s.search {
        SearchMode::Active { query, results, list_state } => match key {
            Key::Esc => plain(o, QuitStep::Keep) && t == (BrowserState { search: SearchMode::Off, ..s }),
            Key::Backspace => o.live_search && o.load == LoadRequest::Nothing && o.quit == QuitStep::Keep
                && o.copy is None && (t.search matches SearchMode::Active { query: q2, results: r2, list_state: l2 }
                && q2@ == (if query@.len() > 0 { query@.drop_last() } else { query@ })
                && r2 == results && l2 == list_state && t == (BrowserState { search: t.search, ..s })),
            Key::Char(c) => o.live_search && o.load == LoadRequest::Nothing && o.quit == QuitStep::Keep
                && o.copy is None && (t.search matches SearchMode::Active { query: q2, results: r2, list_state: l2 }
                && q2@ == query@.push(c) && r2 == results && l2 == list_state && t == (BrowserState {
                search: t.search,
                ..s
            })),
            Key::Up => plain(o, QuitStep::Keep) && t == (BrowserState {
                search: SearchMode::Active {
                    query,
                    results,
                    list_state: if sel(list_state) > 0 {
                        ListState { selected: Some((sel(list_state) - 1) as usize), ..list_state }
                    } else {
                        list_state
                    },
                },
                ..s
            }),
            Key::Down => plain(o, QuitStep::Keep) && t == (BrowserState {
                search: SearchMode::Active {
                    query,
                    results,
                    list_state: if sel(list_state) + 1 < results@.len() {
                        ListState { selected: Some((sel(list_state) + 1) as usize), ..list_state }
                    } else {
                        list_state
                    },
                },
                ..s
            }),
            Key::Enter => o.quit == QuitStep::Keep && !o.live_search && o.copy is None && match list_state.selected {
                Some(i) => if i < results@.len() {
                    let r = results@[i as int];
                    if book_index_spec(r.book@, 0) is Some && r.chapter == 0 {
                        o.load == LoadRequest::Nothing && t == s
                    } else {
                        o.load == LoadRequest::Chapter && t == jump_spec(s, r.book@, r.chapter, r.verse)
                    }
                } else {
                    o.load == LoadRequest::Nothing && t == s
                },
                None => o.load == LoadRequest::Nothing && t == s,
            },
            _ => plain(o, QuitStep::Keep) && t == s,
        },
        SearchMode::Off => false,
    }
}

/// The effect of a key while the translation picker is open.
pub open spec fn picker_key_ok(s: BrowserState, t: BrowserState, key: Key, o: KeyOutcome) -> bool {
    match key {
        Key::Esc | Key::Char('v') => plain(o, QuitStep::Keep) && t == (BrowserState { translation_picker: false, ..s }),
        Key::Up | Key::Char('k') => plain(o, QuitStep::Keep) && t == (BrowserState {
            translation_list: if sel(s.translation_list) > 0 {
                ListState { selected: Some((sel(s.translation_list) - 1) as usize), ..s.translation_list }
            } else {
                s.translation_list
            },
            ..s
        }),
        Key::Down | Key::Char('j') => plain(o, QuitStep::Keep) && t == (BrowserState {
            translation_list: if sel(s.translation_list) < TRANSLATION_COUNT - 1 {
                ListState { selected: Some((sel(s.translation_list) + 1) as usize), ..s.translation_list }
            } else {
                s.translation_list
            },
            ..s
        }),
        Key::Enter => o.quit == QuitStep::Keep && !o.live_search && o.copy is None
            && !t.translation_picker
            && t.translation@ == spec_translation(sel(s.translation_list) as int).code@
            && t == (BrowserState { translation: t.translation, translation_picker: false, ..s })
            && o.load == (if eq_ignore_ascii_case_spec(
                spec_translation(sel(s.translation_list) as int).code@,
                s.translation@,
            ) {
                LoadRequest::Nothing
            } else {
                LoadRequest::BookNamesThenChapter
            }),
        _ => plain(o, QuitStep::Keep) && t == s,
    }
}

/// The effect of a key while the help overlay is open.
pub open spec fn help_key_ok(s: BrowserState, t: BrowserState, key: Key, o: KeyOutcome) -> bool {
    plain(o, QuitStep::Keep) && match key {
        Key::Esc | Key::Char('?') => t == (BrowserState { help_open: false, ..s }),
        Key::Up | Key::Char('k') => t == (BrowserState {
            help_scroll: if s.help_scroll > 0 {
                (s.help_scroll - 1) as u16
            } else {
                0
            },
            ..s
        }),
        Key::Down | Key::Char('j') => t == (BrowserState {
            help_scroll: if s.help_scroll < u16::MAX {
                (s.help_scroll + 1) as u16
            } else {
                s.help_scroll
            },
            ..s
        }),
        _ => t == s,
    }
}

/// The effect of a key in the browser itself.
pub open spec fn browse_key_ok(
    s: BrowserState,
    t: BrowserState,
    theme: ThemeName,
    new_theme: ThemeName,
    quit_pending: bool,
    key: Key,
    o: KeyOutcome,
) -> bool {
    if key == Key::Char('q') {
        plain(o, if quit_pending {
            QuitStep::Exit
        } else {
            QuitStep::Arm
        }) && t == s && new_theme == theme
    } else {
        o.quit == QuitStep::Clear && !o.live_search && (new_theme == if key == Key::Char('t') {
            next_spec(theme)
        } else {
            theme
        }) && match key {
            Key::Char('/') => o.load == LoadRequest::Nothing && o.copy is None && (t.search matches SearchMode::Active { query, results, list_state }
                && query@.len() == 0 && results@.len() == 0 && list_state.selected is None
                && t == (BrowserState { search: t.search, ..s })),
            Key::Char('v') => o.load == LoadRequest::Nothing && o.copy is None && t == (BrowserState {
                translation_list: ListState {
                    selected: Some(picker_index_spec(s.translation@) as usize),
                    ..s.translation_list
                },
                translation_picker: true,
                ..s
            }),
            Key::Char('p') => o.load == LoadRequest::Nothing && o.copy is None && t == (BrowserState {
                visual_anchor: None,
                view_mode: match s.view_mode {
                    ViewMode::VersePerLine => ViewMode::Paragraph,
                    ViewMode::Paragraph => ViewMode::VersePerLine,
                },
                pending_paragraph_scroll: s.pending_paragraph_scroll || s.view_mode == ViewMode::VersePerLine,
                pending_cursor_sync: s.pending_cursor_sync || s.view_mode == ViewMode::Paragraph,
                ..s
            }),
            Key::Char('?') => o.load == LoadRequest::Nothing && o.copy is None && t == (BrowserState { help_open: true, ..s }),
            Key::Esc => o.load == LoadRequest::Nothing && o.copy is None && t == (BrowserState { visual_anchor: None, ..s }),
            Key::Char('y') | Key::Char('c') => o.load == LoadRequest::Nothing && copies(o, &sane_anchor(s))
                && t == sane_anchor(s),
            Key::Char('Y') | Key::Char('C') => o.load == LoadRequest::Nothing && if s.visual_anchor is None {
                o.copy is None && t == (BrowserState { visual_anchor: Some(cursor_spec(&s) as usize), ..s })
            } else {
                copies(o, &sane_anchor(s)) && t == (BrowserState { visual_anchor: None, ..s })
            },
            Key::Left | Key::Char('h') => o.load == LoadRequest::Nothing && o.copy is None && t == (BrowserState {
                active_panel: match s.active_panel {
                    Panel::Books => Panel::Books,
                    Panel::Chapters => Panel::Books,
                    Panel::Scripture => Panel::Chapters,
                },
                ..s
            }),
            Key::Right | Key::Char('l') | Key::Enter => o.copy is None && t == next_panel_spec(s).0 && o.load == (
            if next_panel_spec(s).1 {
                LoadRequest::Chapter
            } else {
                LoadRequest::Nothing
            }),
            Key::Up | Key::Char('k') => o.load == LoadRequest::Nothing && o.copy is None && moved(s, t, move_up_spec(s)),
            Key::Down | Key::Char('j') => o.load == LoadRequest::Nothing && o.copy is None && moved(s, t, move_down_spec(s)),
            _ => o.load == LoadRequest::Nothing && o.copy is None && t == s,
        }
    }
}

/// The browser is consistent: its book cursor is one of the 66 books and
/// its chapter cursor fits a chapter number.
pub open spec fn browser_ok(s: &BrowserState) -> bool {
    &&& s.selected_book_idx < BOOK_COUNT
    &&& (sel(s.chapter_list) as u32) < u32::MAX
    &&& sel(s.translation_list) < TRANSLATION_COUNT
    &&& s.scripture_scroll < u16::MAX
}

impl BrowserState {
    fn search_key(&mut self, key: Key) -> (o: KeyOutcome)
        requires
            old(self).search is Active,
            browser_ok(&*old(self)),
        ensures
            search_key_ok(*old(self), *final(self), key, o),
    {
        let nothing = KeyOutcome { load: LoadRequest::Nothing, quit: QuitStep::Keep, live_search: false, copy: None };
        match key {
            Key::Esc => {
                self.search = SearchMode::Off;
                nothing
            },
            Key::Backspace | Key::Char(_) => {
                let mut search = SearchMode::Off;
        std::mem::swap(&mut search, &mut self.search);
                match search {
                    SearchMode::Active { query, results, list_state } => {
                        let mut q = chars_of(query.as_str());
                        match key {
                            Key::Char(c) => {
                                q.push(c);
                            },
                            _ => {
                                if q.len() > 0 {
                                    q.pop();
                                    assert(q@ =~= query@.drop_last());
                                }
                            },
                        }
                        self.search = SearchMode::Active { query: string_from(q.as_slice()), results, list_state };
                    },
                    SearchMode::Off => {},
                }
                KeyOutcome { load: LoadRequest::Nothing, quit: QuitStep::Keep, live_search: true, copy: None }
            },
            Key::Up | Key::Down => {
                match &mut self.search {
                    SearchMode::Active { results, list_state, .. } => {
                        let i = match list_state.selected() {
                            Some(i) => i,
                            None => 0,
                        };
                        match key {
                            Key::Up => {
                                if i > 0 {
                                    list_state.select(Some(i - 1));
                                }
                            },
                            _ => {
                                if results.len() > 0 && i < results.len() - 1 {
                                    list_state.select(Some(i + 1));
                                }
                            },
                        }
                    },
                    SearchMode::Off => {},
                }
                nothing
            },
            Key::Enter => {
                let target = match self.selected_search_result() {
                    Some(r) => Some((r.book.clone(), r.chapter, r.verse)),
                    None => None,
                };
                match target {
                    Some((book_name, chapter, verse)) => {
                        if chapter == 0 && find_book(book_name.as_str()).is_some() {
                            // No chapter 0 to go to.
                            nothing
                        } else {
                            self.jump_to_result(book_name.as_str(), chapter, verse);
                            KeyOutcome { load: LoadRequest::Chapter, quit: QuitStep::Keep, live_search: false, copy: None }
                        }
                    },
                    None => nothing,
                }
            },
            _ => nothing,
        }
    }

    fn picker_key(&mut self, key: Key) -> (o: KeyOutcome)
        requires
            browser_ok(&*old(self)),
        ensures
            picker_key_ok(*old(self), *final(self), key, o),
    {
        let nothing = KeyOutcome { load: LoadRequest::Nothing, quit: QuitStep::Keep, live_search: false, copy: None };
        let i = match self.translation_list.selected() {
            Some(i) => i,
            None => 0,
        };
        match key {
            Key::Esc | Key::Char('v') => {
                self.translation_picker = false;
                nothing
            },
            Key::Up | Key::Char('k') => {
                if i > 0 {
                    self.translation_list.select(Some(i - 1));
                }
                nothing
            },
            Key::Down | Key::Char('j') => {
                if i < TRANSLATION_COUNT - 1 {
                    self.translation_list.select(Some(i + 1));
                }
                nothing
            },
            Key::Enter => {
                let changed = self.pick_translation();
                KeyOutcome {
                    load: if changed {
                        LoadRequest::BookNamesThenChapter
                    } else {
                        LoadRequest::Nothing
                    },
                    quit: QuitStep::Keep,
                    live_search: false,
                    copy: None,
                }
            },
            _ => nothing,
        }
    }

    fn help_key(&mut self, key: Key) -> (o: KeyOutcome)
        ensures
            help_key_ok(*old(self), *final(self), key, o),
    {
        match key {
            Key::Esc | Key::Char('?') => {
                self.help_open = false;
            },
            Key::Up | Key::Char('k') => {
                if self.help_scroll > 0 {
                    self.help_scroll = self.help_scroll - 1;
                }
            },
            Key::Down | Key::Char('j') => {
                if self.help_scroll < u16::MAX {
                    self.help_scroll = self.help_scroll + 1;
                }
            },
            _ => {},
        }
        KeyOutcome { load: LoadRequest::Nothing, quit: QuitStep::Keep, live_search: false, copy: None }
    }

    fn drop_stale_anchor(&mut self)
        ensures
            *final(self) == sane_anchor(*old(self)),
            copy_ready(&*final(self)),
    {
        let n = self.verse_count();
        if self.view_mode == ViewMode::VersePerLine && n > 0 {
            match self.visual_anchor {
                Some(a) => {
                    if a >= n {
                        self.visual_anchor = None;
                    }
                },
                None => {},
            }
        }
    }

    /// Handles a key press: search mode, then the translation picker, then
    /// the help overlay, then the browser keys (panels, lists, view mode,
    /// copying, themes, quitting with q twice). Returns the outside work
    /// the key asks for; `theme` is the current theme and `quit_pending`
    /// whether the quit prompt shows.
    pub fn handle_key(&mut self, theme: &mut ThemeName, quit_pending: bool, key: Key) -> (o: KeyOutcome)
        requires
            browser_ok(&*old(self)),
        ensures
            if old(self).search is Active {
                search_key_ok(*old(self), *final(self), key, o) && *final(theme) == *old(theme)
            } else if old(self).translation_picker {
                picker_key_ok(*old(self), *final(self), key, o) && *final(theme) == *old(theme)
            } else if old(self).help_open {
                help_key_ok(*old(self), *final(self), key, o) && *final(theme) == *old(theme)
            } else {
                browse_key_ok(*old(self), *final(self), *old(theme), *final(theme), quit_pending, key, o)
            },
    {
        if let SearchMode::Active { .. } = &self.search {
            return self.search_key(key);
        }
        if self.translation_picker {
            return self.picker_key(key);
        }
        if self.help_open {
            return self.help_key(key);
        }
        if key == Key::Char('q') {
            return KeyOutcome {
                load: LoadRequest::Nothing,
                quit: if quit_pending {
                    QuitStep::Exit
                } else {
                    QuitStep::Arm
                },
                live_search: false,
                copy: None,
            };
        }
        let mut load = LoadRequest::Nothing;
        let mut copy: Option<(String, String)> = None;
        match key {
            Key::Char('/') => {
                self.search = SearchMode::Active { query: String::new(), results: Vec::new(), list_state: ListState::new() };
            },
            Key::Char('t') => {
                *theme = theme.next();
            },
            Key::Char('v') => {
                self.open_translation_picker();
            },
            Key::Char('p') => {
                self.toggle_view_mode();
            },
            Key::Char('?') => {
                self.help_open = true;
            },
            Key::Esc => {
                self.visual_anchor = None;
            },
            Key::Char('y') | Key::Char('c') => {
                self.drop_stale_anchor();
                copy = self.copy_payload();
            },
            Key::Char('Y') | Key::Char('C') => {
                if self.visual_anchor.is_none() {
                    self.visual_anchor = Some(self.selected_verse_idx());
                } else {
                    self.drop_stale_anchor();
                    copy = self.copy_payload();
                    self.visual_anchor = None;
                }
            },
            Key::Left | Key::Char('h') => {
                self.prev_panel();
            },
            Key::Right | Key::Char('l') | Key::Enter => {
                if self.next_panel_or_select() {
                    load = LoadRequest::Chapter;
                }
            },
            Key::Up | Key::Char('k') => {
                self.move_up();
            },
            Key::Down | Key::Char('j') => {
                self.move_down();
            },
            _ => {},
        }
        KeyOutcome { load, quit: QuitStep::Clear, live_search: false, copy }
    }

    /// Whether the live-search query is long enough to search (three bytes
    /// or more).
    pub fn search_query_ready(&self) -> (r: bool)
        ensures
            r == (self.search matches SearchMode::Active { query, .. } && (vstd::utf8::encode_utf8(query@).len() as usize) >= 3),
    {
        match &self.search {
            SearchMode::Active { query, .. } => query.as_str().len() >= 3,
            SearchMode::Off => false,
        }
    }

    /// Puts fresh live-search results in place, with the cursor on the
    /// first one (none when empty).
    pub fn set_search_results(&mut self, found: Vec<SearchResult>)
        ensures
            match old(self).search {
                SearchMode::Active { query, .. } => final(self).search matches SearchMode::Active { query: q2, results: r2, list_state: l2 }
                    && q2 == query && r2 == found && l2.selected == (if found@.len() > 0 { Some(0usize) } else { None }),
                SearchMode::Off => final(self).search is Off,
            },
            *final(self) == (BrowserState { search: final(self).search, ..*old(self) }),
    {
        let mut search = SearchMode::Off;
        std::mem::swap(&mut search, &mut self.search);
        if let SearchMode::Active { query, mut list_state, .. } = search {
            let empty = found.len() == 0;
            list_state.select(if empty {
                None
            } else {
                Some(0)
            });
            self.search = SearchMode::Active { query, results: found, list_state };
        }
    }
}

/// The state after committing the highlighted chapter, and whether it
/// must be loaded.
pub open spec fn commit_spec(s: BrowserState) -> (BrowserState, bool) {
    let ch = ((sel(s.chapter_list) as u32) + 1) as u32;
    let reload = match s.current_chapter {
        Some(c) => c.chapter != ch || c.book@ != spec_book(s.selected_book_idx as int).name@,
        None => true,
    };
    (
        BrowserState {
            selected_chapter: ch,
            active_panel: Panel::Scripture,
            scripture_scroll: if reload {
                0
            } else {
                s.scripture_scroll
            },
            verse_list: if reload {
                ListState { selected: Some(0), ..s.verse_list }
            } else {
                s.verse_list
            },
            highlight_verse: if reload {
                None
            } else {
                s.highlight_verse
            },
            visual_anchor: if reload {
                None
            } else {
                s.visual_anchor
            },
            ..s
        },
        reload,
    )
}

/// Right arrow or Enter: Books opens Chapters at chapter 1, Chapters
/// commits the highlighted chapter, Scripture stays.
pub open spec fn next_panel_spec(s: BrowserState) -> (BrowserState, bool) {
    match s.active_panel {
        Panel::Books => (
            BrowserState {
                chapter_list: ListState { selected: Some(0), ..s.chapter_list },
                active_panel: Panel::Chapters,
                ..s
            },
            false,
        ),
        Panel::Chapters => commit_spec(s),
        Panel::Scripture => (s, false),
    }
}

/// `t` is `target.0`, except that when `target.1` (the live preview is
/// armed) its preview timer is set to some time.
pub open spec fn moved(s: BrowserState, t: BrowserState, target: (BrowserState, bool)) -> bool {
    if target.1 {
        t.preview_pending is Some && t == (BrowserState {
            preview_pending: t.preview_pending,
            ..target.0
        })
    } else {
        t == target.0
    }
}

/// The effect of the up arrow, and whether it arms the live preview.
pub open spec fn move_up_spec(s: BrowserState) -> (BrowserState, bool) {
    match s.active_panel {
        Panel::Books => {
            let i = sel(s.book_list);
            if i > 0 {
                (
                    BrowserState {
                        book_list: ListState { selected: Some((i - 1) as usize), ..s.book_list },
                        selected_book_idx: (i - 1) as usize,
                        ..s
                    },
                    true,
                )
            } else {
                (s, false)
            }
        },
        Panel::Chapters => {
            let i = sel(s.chapter_list);
            if i > 0 {
                (
                    BrowserState {
                        chapter_list: ListState { selected: Some((i - 1) as usize), ..s.chapter_list },
                        ..s
                    },
                    true,
                )
            } else {
                (s, false)
            }
        },
        Panel::Scripture => {
            let s1 = BrowserState { highlight_verse: None, ..s };
            match s.view_mode {
                ViewMode::VersePerLine => {
                    let i = cursor_spec(&s);
                    if i > 0 {
                        (
                            BrowserState {
                                verse_list: ListState { selected: Some((i - 1) as usize), ..s.verse_list },
                                ..s1
                            },
                            false,
                        )
                    } else {
                        (s1, false)
                    }
                },
                ViewMode::Paragraph => {
                    if s.scripture_scroll > 0 {
                        (BrowserState { scripture_scroll: (s.scripture_scroll - 1) as u16, ..s1 }, false)
                    } else {
                        (s1, false)
                    }
                },
            }
        },
    }
}

/// The effect of the down arrow, and whether it arms the live preview.
pub open spec fn move_down_spec(s: BrowserState) -> (BrowserState, bool) {
    match s.active_panel {
        Panel::Books => {
            let i = sel(s.book_list);
            if i < BOOK_COUNT - 1 {
                (
                    BrowserState {
                        book_list: ListState { selected: Some((i + 1) as usize), ..s.book_list },
                        selected_book_idx: (i + 1) as usize,
                        ..s
                    },
                    true,
                )
            } else {
                (s, false)
            }
        },
        Panel::Chapters => {
            let i = sel(s.chapter_list);
            if i < spec_book(s.selected_book_idx as int).chapters - 1 {
                (
                    BrowserState {
                        chapter_list: ListState { selected: Some((i + 1) as usize), ..s.chapter_list },
                        ..s
                    },
                    true,
                )
            } else {
                (s, false)
            }
        },
        Panel::Scripture => {
            let s1 = BrowserState { highlight_verse: None, ..s };
            match s.view_mode {
                ViewMode::VersePerLine => {
                    let i = cursor_spec(&s);
                    if i + 1 < loaded_verses(&s).len() {
                        (
                            BrowserState {
                                verse_list: ListState { selected: Some((i + 1) as usize), ..s.verse_list },
                                ..s1
                            },
                            false,
                        )
                    } else {
                        (s1, false)
                    }
                },
                ViewMode::Paragraph => {
                    (BrowserState { scripture_scroll: (s.scripture_scroll + 1) as u16, ..s1 }, false)
                },
            }
        },
    }
}

/// The first index from `i` of a verse numbered `number`.
pub open spec fn first_verse(vs: Seq<Verse>, number: u32, i: int) -> Option<int>
    decreases vs.len() - i,
{
    if i >= vs.len() || i < 0 {
        None
    } else if vs[i].verse == number {
        Some(i)
    } else {
        first_verse(vs, number, i + 1)
    }
}

proof fn lemma_first_verse_range(vs: Seq<Verse>, number: u32, i: int)
    ensures
        first_verse(vs, number, i) matches Some(k) ==> 0 <= i <= k < vs.len(),
    decreases vs.len() - i,
{
    if 0 <= i < vs.len() {
        lemma_first_verse_range(vs, number, i + 1);
    }
}

/// The index of the verse numbered `number`, or `number - 1` when no verse
/// carries that number.
pub open spec fn verse_index_spec(vs: Seq<Verse>, number: u32) -> int {
    match first_verse(vs, number, 0) {
        Some(i) => i,
        None => if number > 0 {
            number - 1
        } else {
            0
        },
    }
}

/// The first picker position from `i` whose code equals `code` up to ASCII
/// case.
pub open spec fn first_translation(code: Seq<char>, i: int) -> Option<int>
    decreases TRANSLATION_COUNT - i,
{
    if i >= TRANSLATION_COUNT || i < 0 {
        None
    } else if eq_ignore_ascii_case_spec(spec_translation(i).code@, code) {
        Some(i)
    } else {
        first_translation(code, i + 1)
    }
}

proof fn lemma_first_translation_range(code: Seq<char>, i: int)
    ensures
        first_translation(code, i) matches Some(k) ==> 0 <= i <= k < TRANSLATION_COUNT,
    decreases TRANSLATION_COUNT - i,
{
    if 0 <= i < TRANSLATION_COUNT {
        lemma_first_translation_range(code, i + 1);
    }
}

/// The picker position of a translation code (the first one when the code
/// is unknown).
pub open spec fn picker_index_spec(code: Seq<char>) -> int {
    match first_translation(code, 0) {
        Some(i) => i,
        None => 0,
    }
}

/// The first book from `i` whose English name equals `name` up to ASCII
/// case.
pub open spec fn book_index_spec(name: Seq<char>, i: int) -> Option<int>
    decreases BOOK_COUNT - i,
{
    if i >= BOOK_COUNT || i < 0 {
        None
    } else if eq_ignore_ascii_case_spec(spec_book(i).name@, name) {
        Some(i)
    } else {
        book_index_spec(name, i + 1)
    }
}

proof fn lemma_book_index_range(name: Seq<char>, i: int)
    ensures
        book_index_spec(name, i) matches Some(k) ==> 0 <= i <= k < BOOK_COUNT,
    decreases BOOK_COUNT - i,
{
    if 0 <= i < BOOK_COUNT {
        lemma_book_index_range(name, i + 1);
    }
}

/// The index of the first verse numbered `number`.
pub fn find_verse(vs: &Vec<Verse>, number: u32) -> (r: Option<usize>)
    ensures
        match first_verse(vs@, number, 0) {
            Some(i) => r == Some(i as usize),
            None => r is None,
        },
        first_verse(vs@, number, 0) matches Some(i) ==> 0 <= i < vs@.len(),
{
    proof {
        lemma_first_verse_range(vs@, number, 0);
    }
    let mut i: usize = 0;
    while i < vs.len()
        invariant
            i <= vs@.len(),
            first_verse(vs@, number, 0) == first_verse(vs@, number, i as int),
        decreases vs@.len() - i,
    {
        if vs[i].verse == number {
            return Some(i);
        }
        i += 1;
    }
    None
}

/// The picker position of the translation whose code equals `code` up to
/// ASCII case.
pub fn find_translation(code: &str) -> (r: Option<usize>)
    ensures
        match first_translation(code@, 0) {
            Some(i) => r == Some(i as usize),
            None => r is None,
        },
        first_translation(code@, 0) matches Some(i) ==> 0 <= i < TRANSLATION_COUNT,
{
    proof {
        lemma_first_translation_range(code@, 0);
    }
    let mut i: usize = 0;
    while i < TRANSLATION_COUNT
        invariant
            i <= TRANSLATION_COUNT,
            first_translation(code@, 0) == first_translation(code@, i as int),
        decreases TRANSLATION_COUNT - i,
    {
        if eq_ignore_ascii_case(translation_at(i).code, code) {
            return Some(i);
        }
        i += 1;
    }
    None
}

/// The index of the book whose English name equals `name` up to ASCII case.
pub fn find_book(name: &str) -> (r: Option<usize>)
    ensures
        match book_index_spec(name@, 0) {
            Some(i) => r == Some(i as usize),
            None => r is None,
        },
        r matches Some(i) ==> i < BOOK_COUNT,
        book_index_spec(name@, 0) matches Some(i) ==> 0 <= i < BOOK_COUNT,
{
    proof {
        lemma_book_index_range(name@, 0);
    }
    let mut i: usize = 0;
    while i < BOOK_COUNT
        invariant
            i <= BOOK_COUNT,
            book_index_spec(name@, 0) == book_index_spec(name@, i as int),
        decreases BOOK_COUNT - i,
    {
        if eq_ignore_ascii_case(book(i).name, name) {
            return Some(i);
        }
        i += 1;
    }
    None
}


// ---------------------------------------------------------------------------
// Fitting the scripture panel to the screen
// ---------------------------------------------------------------------------

/// The verse the paragraph view shows at row `target` (see
/// `verse_at_row`, which holds of exactly one index).
pub open spec fn row_verse(vs: Seq<Verse>, width: int, target: int) -> int {
    choose|i: int| verse_at_row(vs, width, target, i)
}

/// At most one verse is the one shown at a row.
pub proof fn lemma_verse_at_row_unique(vs: Seq<Verse>, width: int, target: int, a: int, b: int)
    requires
        verse_at_row(vs, width, target, a),
        verse_at_row(vs, width, target, b),
    ensures
        a == b,
{
}

/// The verse cursor after the one-shot sync from the paragraph view: the
/// verse shown a third of the way down a panel `height` rows high (text
/// `width` columns wide), when a chapter is loaded.
pub open spec fn synced_selection(s: BrowserState, width: u16, height: u16) -> Option<usize> {
    match s.current_chapter {
        Some(c) => if s.pending_cursor_sync && labels_len(c.verses@) < usize::MAX {
            Some(
                row_verse(
                    c.verses@,
                    tracker_width(width as usize),
                    s.scripture_scroll + height / 3,
                ) as usize,
            )
        } else {
            s.verse_list.selected
        },
        None => s.verse_list.selected,
    }
}

/// The browser after `sync_verse_cursor`.
pub open spec fn sync_cursor_spec(s: BrowserState, width: u16, height: u16) -> BrowserState {
    let s1 = BrowserState {
        pending_cursor_sync: false,
        verse_list: ListState { selected: synced_selection(s, width, height), ..s.verse_list },
        ..s
    };
    BrowserState {
        verse_list: ListState { selected: Some(cursor_spec(&s1) as usize), ..s1.verse_list },
        ..s1
    }
}

/// Where the paragraph view scrolls to, with `visible` rows showing
/// `content` rows of text whose verses start on the rows of `vs`: to the
/// selected verse less a third of the panel when asked to carry the
/// reading position over, then clamped so the text fills the panel.
pub open spec fn paragraph_scroll_spec(s: BrowserState, vs: Seq<Verse>, width: int, visible: u16) -> u16 {
    let content = (flow(vs, width).0 + 1) as u16;
    let wanted: u16 = if s.pending_paragraph_scroll {
        let idx = cursor_spec(&s);
        let before: u16 = if idx < vs.len() {
            start_row(vs, idx, width) as u16
        } else {
            0
        };
        if before >= visible / 3 {
            (before - visible / 3) as u16
        } else {
            0
        }
    } else {
        s.scripture_scroll
    };
    if content > visible {
        if wanted > content - visible {
            (content - visible) as u16
        } else {
            wanted
        }
    } else {
        0
    }
}

impl BrowserState {
    /// Before the verse list is drawn in a panel `height` rows high with
    /// text `width` columns wide: a pending sync from the paragraph view
    /// puts the cursor on the verse that was a third of the way down, then
    /// the cursor is clamped to the loaded chapter (a restored session can
    /// point past a shorter one).
    pub fn sync_verse_cursor(&mut self, width: u16, height: u16)
        ensures
            *final(self) == sync_cursor_spec(*old(self), width, height),
    {
        if self.pending_cursor_sync {
            self.pending_cursor_sync = false;
            let target = self.scripture_scroll as usize + (height as usize) / 3;
            let found: Option<usize> = match &self.current_chapter {
                Some(c) => match verse_start_rows(&c.verses, width as usize) {
                    Some(p) => {
                        let ghost vs = c.verses@;
                        let ghost tw = tracker_width(width as usize);
                        proof {
                            assert(vs.take(0) =~= Seq::<Verse>::empty());
                            assert forall|i: int, j: int|
                                0 <= i <= j < p.0@.len() implies p.0@[i] <= p.0@[j] by {
                                lemma_start_rows_ordered(vs, i, j, tw);
                            }
                        }
                        let idx = verse_index_at_row(&p.0, target);
                        proof {
                            assert forall|j: int| idx < j < vs.len() implies start_row(vs, j, tw)
                                > target by {
                                assert(p.0@[j] == start_row(vs, j, tw));
                            }
                            if vs.len() > 0 {
                                assert(p.0@[idx as int] == start_row(vs, idx as int, tw));
                            }
                            assert(verse_at_row(vs, tw, target as int, idx as int));
                            lemma_verse_at_row_unique(
                                vs,
                                tw,
                                target as int,
                                idx as int,
                                row_verse(vs, tw, target as int),
                            );
                        }
                        Some(idx)
                    },
                    None => None,
                },
                None => None,
            };
            if let Some(idx) = found {
                self.verse_list.select(Some(idx));
            }
        }
        let selected = self.selected_verse_idx();
        self.verse_list.select(Some(selected));
    }

    /// Before the paragraph view is drawn in a panel `visible` rows high
    /// and `width` columns wide: lays the loaded verses out as one flowing
    /// text, carries the reading position over when asked (once), clamps
    /// the scroll, and returns the rows the text takes. `None`, with
    /// nothing changed, when no chapter is loaded or its text is too long
    /// to count in a `usize`.
    pub fn settle_paragraph_scroll(&mut self, width: u16, visible: u16) -> (r: Option<u16>)
        ensures
            match old(self).current_chapter {
                Some(c) => if labels_len(c.verses@) < usize::MAX {
                    r == Some((flow(c.verses@, tracker_width(width as usize)).0 + 1) as u16)
                        && *final(self) == (BrowserState {
                        scripture_scroll: paragraph_scroll_spec(
                            *old(self),
                            c.verses@,
                            tracker_width(width as usize),
                            visible,
                        ),
                        pending_paragraph_scroll: false,
                        ..*old(self)
                    })
                } else {
                    r is None && *final(self) == *old(self)
                },
                None => r is None && *final(self) == *old(self),
            },
    {
        let layout = match &self.current_chapter {
            Some(c) => verse_start_rows(&c.verses, width as usize),
            None => None,
        };
        let (rows, total) = match layout {
            Some(p) => p,
            None => {
                return None;
            },
        };
        let content = total as u16;
        if self.pending_paragraph_scroll {
            let idx = self.selected_verse_idx();
            let before: u16 = if idx < rows.len() {
                rows[idx] as u16
            } else {
                0
            };
            self.scripture_scroll = if before >= visible / 3 {
                before - visible / 3
            } else {
                0
            };
        }
        self.pending_paragraph_scroll = false;
        if content > visible {
            let max_scroll = content - visible;
            if self.scripture_scroll > max_scroll {
                self.scripture_scroll = max_scroll;
            }
        } else {
            self.scripture_scroll = 0;
        }
        Some(content)
    }

    /// Keeps the help overlay's scroll within its text: `content_rows` of
    /// text in a box `inner_height` rows high.
    pub fn clamp_help_scroll(&mut self, content_rows: u16, inner_height: u16)
        ensures
            *final(self) == (BrowserState {
                help_scroll: ({
                    let max_scroll: u16 = if content_rows >= inner_height {
                        (content_rows - inner_height) as u16
                    } else {
                        0
                    };
                    if old(self).help_scroll > max_scroll {
                        max_scroll
                    } else {
                        old(self).help_scroll
                    }
                }),
                ..*old(self)
            }),
    {
        let max_scroll = if content_rows >= inner_height {
            content_rows - inner_height
        } else {
            0
        };
        if self.help_scroll > max_scroll {
            self.help_scroll = max_scroll;
        }
    }
}

// ---------------------------------------------------------------------------
// The session around the browser
// ---------------------------------------------------------------------------

/// A saved session is resumed when it is past Genesis 1.
pub open spec fn has_saved_spec(saved: SessionState) -> bool {
    saved.book_index > 0 || saved.chapter > 1
}

/// Whether a saved session points past Genesis 1, and so is resumed.
pub fn has_saved_position(saved: &SessionState) -> (r: bool)
    ensures
        r == has_saved_spec(*saved),
{
    saved.book_index > 0 || saved.chapter > 1
}

/// The book and chapter to load at startup: the saved place when there is
/// one (Genesis for a book index past the canon, chapter at least 1), else
/// Genesis 1.
pub fn startup_chapter(saved: &SessionState) -> (r: (&'static str, u32))
    ensures
        r.0@ == if has_saved_spec(*saved) && saved.book_index < BOOK_COUNT {
            spec_book(saved.book_index as int).name@
        } else {
            "Genesis"@
        },
        r.1 == if has_saved_spec(*saved) && saved.chapter > 1 {
            saved.chapter
        } else {
            1
        },
{
    if has_saved_position(saved) {
        let name = if saved.book_index < BOOK_COUNT {
            book(saved.book_index).name
        } else {
            "Genesis"
        };
        let ch = if saved.chapter > 1 {
            saved.chapter
        } else {
            1
        };
        (name, ch)
    } else {
        ("Genesis", 1)
    }
}

/// The intro banner plays on the first launch only (unless turned off).
pub fn should_show_banner(no_banner: bool, banner_shown: bool) -> (r: bool)
    ensures
        r == (!no_banner && !banner_shown),
{
    !no_banner && !banner_shown
}

impl BrowserState {
    /// The session saved when the program ends: the browser's place, the
    /// theme in use, and the banner marked as shown.
    pub fn session_to_save(&self, theme: ThemeName) -> (r: SessionState)
        ensures
            r == (SessionState { theme, banner_shown: true, ..snapshot_spec(*self) }),
    {
        let mut s = self.snapshot();
        s.theme = theme;
        s.banner_shown = true;
        s
    }
}

/// How long a status-bar message stays up, in nanoseconds.
pub const FLASH_NANOS: u128 = 2_000_000_000;

impl BrowserState {
    /// Whether the browser is consistent enough for `handle_key` (see
    /// `browser_ok`).
    pub fn key_ready(&self) -> (r: bool)
        ensures
            r == browser_ok(self),
    {
        let ch = match self.chapter_list.selected() {
            Some(i) => i,
            None => 0,
        };
        let tr = match self.translation_list.selected() {
            Some(i) => i,
            None => 0,
        };
        self.selected_book_idx < BOOK_COUNT && (ch as u32) < u32::MAX && tr < TRANSLATION_COUNT
            && self.scripture_scroll < u16::MAX
    }

    /// Takes the armed live preview: the (book, chapter) to show, with the
    /// timer cleared. Nothing while no preview is armed.
    pub fn take_preview(&mut self) -> (r: Option<(usize, u32)>)
        requires
            old(self).active_panel == Panel::Chapters ==> (sel(old(self).chapter_list) as u32) < u32::MAX,
        ensures
            match old(self).preview_pending {
                None => r is None && *final(self) == *old(self),
                Some(_) => r == Some(
                    (
                        old(self).selected_book_idx,
                        if old(self).active_panel == Panel::Chapters {
                            ((sel(old(self).chapter_list) as u32) + 1) as u32
                        } else {
                            1
                        },
                    ),
                ) && *final(self) == (BrowserState { preview_pending: None, ..*old(self) }),
            },
    {
        if self.preview_pending.is_none() {
            return None;
        }
        let target = self.preview_target();
        self.preview_pending = None;
        Some(target)
    }

    /// Shows a previewed chapter from the top (a failed load shows
    /// nothing new).
    pub fn show_preview(&mut self, loaded: Option<Chapter>)
        ensures
            *final(self) == match loaded {
                Some(c) => BrowserState {
                    current_chapter: Some(c),
                    scripture_scroll: 0,
                    verse_list: ListState { selected: Some(0), ..old(self).verse_list },
                    highlight_verse: None,
                    visual_anchor: None,
                    ..*old(self)
                },
                None => *old(self),
            },
    {
        if let Some(c) = loaded {
            self.current_chapter = Some(c);
            self.scripture_scroll = 0;
            self.verse_list.select(Some(0));
            self.highlight_verse = None;
            self.visual_anchor = None;
        }
    }

    /// Clears the status-bar message once it has been up longer than
    /// `FLASH_NANOS` (`elapsed_nanos` is how long it has been up).
    pub fn expire_flash(&mut self, elapsed_nanos: u128)
        ensures
            *final(self) == if old(self).copy_flash is Some && elapsed_nanos > FLASH_NANOS {
                BrowserState { copy_flash: None, ..*old(self) }
            } else {
                *old(self)
            },
    {
        if self.copy_flash.is_some() && elapsed_nanos > FLASH_NANOS {
            self.copy_flash = None;
        }
    }
}

/// How long the "press q again" prompt stays up, in nanoseconds.
pub const QUIT_PROMPT_NANOS: u128 = 2_000_000_000;

/// Whether the quit prompt, shown `elapsed_nanos` ago, has expired.
pub fn quit_prompt_expired(elapsed_nanos: u128) -> (r: bool)
    ensures
        r == (elapsed_nanos > QUIT_PROMPT_NANOS),
{
    elapsed_nanos > QUIT_PROMPT_NANOS
}

impl BrowserState {
    /// Starts the browser on a loaded session: the saved place when there
    /// is one, then the first chapter and the book names loaded for it.
    pub fn start_session(&mut self, saved: &SessionState, chapter: Option<Chapter>, names: Vec<String>)
        ensures
            *final(self) == (BrowserState {
                current_chapter: chapter,
                localized_books: names,
                ..(if has_saved_spec(*saved) {
                    restore_spec(*old(self), *saved)
                } else {
                    *old(self)
                })
            }),
    {
        if has_saved_position(saved) {
            self.restore(saved);
        }
        self.current_chapter = chapter;
        self.localized_books = names;
    }

    /// Marks a chapter load as running.
    pub fn begin_load(&mut self)
        ensures
            *final(self) == (BrowserState { loading: true, ..*old(self) }),
    {
        self.loading = true;
    }

    /// Ends a chapter load: a loaded chapter replaces the one shown and
    /// the scroll goes back to the top; after a failed load the shown
    /// chapter stays.
    pub fn finish_load(&mut self, loaded: Option<Chapter>)
        ensures
            *final(self) == match loaded {
                Some(c) => BrowserState {
                    current_chapter: Some(c),
                    scripture_scroll: 0,
                    loading: false,
                    ..*old(self)
                },
                None => BrowserState { loading: false, ..*old(self) },
            },
    {
        match loaded {
            Some(c) => {
                self.current_chapter = Some(c);
                self.scripture_scroll = 0;
            },
            None => {},
        }
        self.loading = false;
    }

    /// Whether the current translation's book names must be fetched: the
    /// bundled KJV uses the English names.
    pub fn needs_book_names(&self) -> (r: bool)
        ensures
            r == !crate::cache::is_bundled_spec(self.translation@),
    {
        !crate::cache::is_bundled(self.translation.as_str())
    }

    /// Takes the fetched book names: none for the bundled KJV, and a failed
    /// fetch falls back to the English names.
    pub fn set_book_names(&mut self, fetched: Option<Vec<String>>)
        ensures
            *final(self) == (BrowserState { localized_books: final(self).localized_books, ..*old(self) }),
            final(self).localized_books@ == if crate::cache::is_bundled_spec(old(self).translation@) {
                Seq::<String>::empty()
            } else {
                match fetched {
                    Some(v) => v@,
                    None => Seq::<String>::empty(),
                }
            },
    {
        if crate::cache::is_bundled(self.translation.as_str()) {
            self.localized_books = Vec::new();
        } else {
            match fetched {
                Some(v) => {
                    self.localized_books = v;
                },
                None => {
                    self.localized_books = Vec::new();
                },
            }
        }
    }
}

// ---------------------------------------------------------------------------
// Laws
// ---------------------------------------------------------------------------

/// Toggling the reading view twice gives back the view the reader was in,
/// with the reading position (panels, cursors, scroll, loaded chapter)
/// untouched; both one-shot position requests are then set and any range
/// selection is gone.
pub proof fn lemma_toggle_twice(s: BrowserState)
    ensures
        toggle_spec(toggle_spec(s)).view_mode == s.view_mode,
        toggle_spec(toggle_spec(s)) == (BrowserState {
            visual_anchor: None,
            pending_paragraph_scroll: true,
            pending_cursor_sync: true,
            ..s
        }),
{
}

/// Hopping from Scripture to Chapters and back (right arrow or Enter)
/// while the loaded chapter is the one under the cursors changes nothing
/// and loads nothing: the scroll position and the verse cursor are kept.
pub proof fn lemma_panel_hop_keeps_place(s: BrowserState)
    requires
        s.active_panel == Panel::Scripture,
        1 <= s.selected_chapter,
        s.chapter_list.selected == Some((s.selected_chapter - 1) as usize),
        s.current_chapter matches Some(c) && c.chapter == s.selected_chapter
            && c.book@ == spec_book(s.selected_book_idx as int).name@,
    ensures
        next_panel_spec(prev_panel_spec(s)) == (s, false),
{
    let t = prev_panel_spec(s);
    assert(sel(t.chapter_list) == s.selected_chapter - 1);
    assert(((sel(t.chapter_list) as u32) + 1) as u32 == s.selected_chapter);
    assert(commit_spec(t).0 == s);
}

/// Committing a chapter other than the loaded one (another chapter or
/// another book) asks for a load and starts the reader at the top: scroll
/// 0, verse cursor on the first verse, no highlight, no range.
pub proof fn lemma_new_chapter_resets_place(s: BrowserState)
    requires
        s.active_panel == Panel::Chapters,
        sel(s.chapter_list) < u32::MAX,
        s.current_chapter matches Some(c) && (c.chapter != (sel(s.chapter_list) + 1)
            || c.book@ != spec_book(s.selected_book_idx as int).name@),
    ensures
        next_panel_spec(s).1,
        next_panel_spec(s).0.scripture_scroll == 0,
        next_panel_spec(s).0.verse_list.selected == Some(0usize),
        next_panel_spec(s).0.highlight_verse is None,
        next_panel_spec(s).0.visual_anchor is None,
        next_panel_spec(s).0.selected_chapter == sel(s.chapter_list) + 1,
        next_panel_spec(s).0.active_panel == Panel::Scripture,
{
}

/// Restoring a saved session, whatever it holds, puts the cursors on a
/// real place: one of the 66 books and one of its chapters.
pub proof fn lemma_restore_in_range(b: BrowserState, saved: SessionState)
    ensures
        restore_spec(b, saved).selected_book_idx < BOOK_COUNT,
        1 <= restore_spec(b, saved).selected_chapter <= spec_book(
            restore_spec(b, saved).selected_book_idx as int,
        ).chapters,
        restore_spec(b, saved).book_list.selected == Some(restore_spec(b, saved).selected_book_idx),
        restore_spec(b, saved).chapter_list.selected == Some(
            (restore_spec(b, saved).selected_chapter - 1) as usize,
        ),
{
    crate::books::lemma_books_have_chapters();
    let idx: usize = if saved.book_index < BOOK_COUNT - 1 {
        saved.book_index
    } else {
        (BOOK_COUNT - 1) as usize
    };
    assert(1 <= spec_book(idx as int).chapters);
}

/// The reading position survives a save and a restore: restoring the
/// snapshot of a browser whose cursors are on a real place (into any
/// browser) gives back its book, chapter, scroll, panel, translation, view
/// and verse cursor.
pub proof fn lemma_restore_snapshot(s: BrowserState, b: BrowserState)
    requires
        s.selected_book_idx < BOOK_COUNT,
        1 <= s.selected_chapter <= spec_book(s.selected_book_idx as int).chapters,
        s.translation@.len() > 0,
        sel(s.verse_list) <= u32::MAX,
    ensures
        restore_spec(b, snapshot_spec(s)).selected_book_idx == s.selected_book_idx,
        restore_spec(b, snapshot_spec(s)).book_list.selected == Some(s.selected_book_idx),
        restore_spec(b, snapshot_spec(s)).selected_chapter == s.selected_chapter,
        restore_spec(b, snapshot_spec(s)).chapter_list.selected == Some(
            (s.selected_chapter - 1) as usize,
        ),
        restore_spec(b, snapshot_spec(s)).scripture_scroll == s.scripture_scroll,
        restore_spec(b, snapshot_spec(s)).active_panel == s.active_panel,
        restore_spec(b, snapshot_spec(s)).translation == s.translation,
        restore_spec(b, snapshot_spec(s)).view_mode == s.view_mode,
        restore_spec(b, snapshot_spec(s)).verse_list.selected == Some(sel(s.verse_list)),
{
}

/// A verse range copies the same way whichever end the selection was
/// started from: swapping the anchor and the verse cursor gives the same
/// clipboard text and label.
pub proof fn lemma_range_copy_symmetric(s: BrowserState)
    requires
        s.visual_anchor matches Some(a) && a < loaded_verses(&s).len(),
    ensures
        payload_spec(
            &BrowserState {
                visual_anchor: Some(cursor_spec(&s) as usize),
                verse_list: ListState { selected: s.visual_anchor, ..s.verse_list },
                ..s
            },
        ) == payload_spec(&s),
{
    let s2 = BrowserState {
        visual_anchor: Some(cursor_spec(&s) as usize),
        verse_list: ListState { selected: s.visual_anchor, ..s.verse_list },
        ..s
    };
    assert(cursor_spec(&s2) == s.visual_anchor.unwrap());
    assert(bounds_spec(&s2) == bounds_spec(&s));
}

/// What gets copied depends on the loaded chapter, never on the Books or
/// Chapters cursors, the active panel or the live preview: browsing
/// without loading leaves the copied citation as it was.
pub proof fn lemma_copy_ignores_browsing(
    s: BrowserState,
    book_idx: usize,
    book_list: ListState,
    chapter: u32,
    chapter_list: ListState,
    panel: Panel,
    preview: Option<std::time::Instant>,
)
    ensures
        payload_spec(
            &BrowserState {
                selected_book_idx: book_idx,
                book_list,
                selected_chapter: chapter,
                chapter_list,
                active_panel: panel,
                preview_pending: preview,
                ..s
            },
        ) == payload_spec(&s),
{
}

/// Quitting takes q twice: a first q in the browser only shows the prompt
/// and changes nothing, and a q while the prompt shows ends the program.
pub proof fn lemma_quit_takes_two_presses(
    s: BrowserState,
    t: BrowserState,
    u: BrowserState,
    theme: ThemeName,
    theme2: ThemeName,
    theme3: ThemeName,
    o1: KeyOutcome,
    o2: KeyOutcome,
)
    requires
        browse_key_ok(s, t, theme, theme2, false, Key::Char('q'), o1),
        browse_key_ok(t, u, theme2, theme3, true, Key::Char('q'), o2),
    ensures
        o1.quit == QuitStep::Arm,
        t == s,
        theme2 == theme,
        o2.quit == QuitStep::Exit,
{
}

proof fn lemma_last_start_at_or_before(vs: Seq<Verse>, width: int, target: int, m: int)
    requires
        1 <= m <= vs.len(),
        target >= 0,
    ensures
        exists|i: int|
            0 <= i < m && start_row(vs, i, width) <= target && forall|j: int|
                i < j < m ==> start_row(vs, j, width) > target,
    decreases m,
{
    assert(vs.take(0) =~= Seq::<Verse>::empty());
    assert(start_row(vs, 0, width) == 0);
    if start_row(vs, m - 1, width) <= target {
        assert(forall|j: int| m - 1 < j < m ==> start_row(vs, j, width) > target);
    } else {
        lemma_last_start_at_or_before(vs, width, target, m - 1);
        let i = choose|i: int|
            0 <= i < m - 1 && start_row(vs, i, width) <= target && forall|j: int|
                i < j < m - 1 ==> start_row(vs, j, width) > target;
        assert(forall|j: int| i < j < m ==> start_row(vs, j, width) > target);
    }
}

/// Some verse is the one shown at any row of a chapter with verses.
pub proof fn lemma_row_verse_exists(vs: Seq<Verse>, width: int, target: int)
    requires
        vs.len() > 0,
        target >= 0,
    ensures
        verse_at_row(vs, width, target, row_verse(vs, width, target)),
{
    lemma_last_start_at_or_before(vs, width, target, vs.len() as int);
    let i = choose|i: int|
        0 <= i < vs.len() && start_row(vs, i, width) <= target && forall|j: int|
            i < j < vs.len() ==> start_row(vs, j, width) > target;
    assert(verse_at_row(vs, width, target, i));
}

/// The reading position carries over between the two views: switching
/// to the paragraph view (which scrolls the selected verse to a third of
/// the way down) and back (which puts the cursor on the verse a third of
/// the way down) lands on a verse that starts on the same row as the one
/// the reader was on, as long as the panel keeps its size and the scroll
/// did not have to be clamped at the top or the bottom of the text.
pub proof fn lemma_view_round_trip_keeps_row(s: BrowserState, width: u16, height: u16)
    requires
        s.view_mode == ViewMode::VersePerLine,
        s.current_chapter matches Some(c) && ({
            let vs = c.verses@;
            let tw = tracker_width(width as usize);
            let b = start_row(vs, cursor_spec(&s), tw);
            &&& vs.len() > 0
            &&& labels_len(vs) < usize::MAX
            &&& flow(vs, tw).0 + 1 <= u16::MAX
            &&& b >= height / 3
            &&& flow(vs, tw).0 + 1 > height
            &&& b - height / 3 <= flow(vs, tw).0 + 1 - height
        }),
    ensures
        ({
            let c = s.current_chapter.unwrap();
            let tw = tracker_width(width as usize);
            let p = toggle_spec(s);
            let p2 = BrowserState {
                scripture_scroll: paragraph_scroll_spec(p, c.verses@, tw, height),
                pending_paragraph_scroll: false,
                ..p
            };
            let r = sync_cursor_spec(toggle_spec(p2), width, height);
            start_row(c.verses@, cursor_spec(&r), tw) == start_row(c.verses@, cursor_spec(&s), tw)
        }),
{
    let c = s.current_chapter.unwrap();
    let vs = c.verses@;
    let tw = tracker_width(width as usize);
    let idx = cursor_spec(&s);
    let b = start_row(vs, idx, tw);
    let p = toggle_spec(s);
    assert(cursor_spec(&p) == idx);
    lemma_start_rows_ordered(vs, 0, idx, tw);
    lemma_start_rows_ordered(vs, idx, vs.len() as int, tw);
    assert((b as u16) == b);
    let scroll = paragraph_scroll_spec(p, vs, tw, height);
    assert(scroll == b - height / 3);
    let p2 = BrowserState { scripture_scroll: scroll, pending_paragraph_scroll: false, ..p };
    let q = toggle_spec(p2);
    let target = q.scripture_scroll + height / 3;
    assert(target == b);
    lemma_row_verse_exists(vs, tw, target);
    let j = row_verse(vs, tw, target);
    if j < idx {
        assert(start_row(vs, idx, tw) > target);
    }
    lemma_start_rows_ordered(vs, idx, j, tw);
    assert(synced_selection(q, width, height) == Some(j as usize));
    assert(start_row(vs, j, tw) == b);
    let s1 = BrowserState {
        pending_cursor_sync: false,
        verse_list: ListState { selected: synced_selection(q, width, height), ..q.verse_list },
        ..q
    };
    assert(loaded_verses(&s1) == vs);
    assert(vs.len() == c.verses.len());
    assert(j as usize == j);
    assert(cursor_spec(&s1) == j);
    let r = sync_cursor_spec(q, width, height);
    assert(r.verse_list.selected == Some(j as usize));
    assert(loaded_verses(&r) == vs);
    assert(cursor_spec(&r) == j);
}

// ---------------------------------------------------------------------------
// Laws of the cursors, the jump and the copied text
// ---------------------------------------------------------------------------

/// Up in the Books or Chapters panel moves that panel's cursor up by
/// exactly one row when it is not on the first row (the Books cursor
/// carrying the selected book along) and arms the live preview; on the
/// first row it changes nothing.
pub proof fn lemma_up_moves_list_cursor_by_one(s: BrowserState)
    ensures
        s.active_panel == Panel::Chapters && sel(s.chapter_list) > 0 ==> {
            let t = move_up_spec(s);
            &&& t.0.chapter_list.selected == Some((sel(s.chapter_list) - 1) as usize)
            &&& sel(t.0.chapter_list) + 1 == sel(s.chapter_list)
            &&& t.0.active_panel == Panel::Chapters
            &&& t.0.selected_book_idx == s.selected_book_idx
            &&& t.1
        },
        s.active_panel == Panel::Books && sel(s.book_list) > 0 ==> {
            let t = move_up_spec(s);
            &&& t.0.book_list.selected == Some((sel(s.book_list) - 1) as usize)
            &&& t.0.selected_book_idx + 1 == sel(s.book_list)
            &&& t.0.active_panel == Panel::Books
            &&& t.1
        },
        (s.active_panel == Panel::Chapters && sel(s.chapter_list) == 0) || (s.active_panel
            == Panel::Books && sel(s.book_list) == 0) ==> move_up_spec(s) == (s, false),
        s.active_panel == Panel::Scripture && s.view_mode == ViewMode::VersePerLine && cursor_spec(&s)
            > 0 ==> move_up_spec(s).0.verse_list.selected == Some((cursor_spec(&s) - 1) as usize)
            && !move_up_spec(s).1,
        s.active_panel == Panel::Scripture && s.view_mode == ViewMode::Paragraph
            && s.scripture_scroll > 0 ==> move_up_spec(s).0.scripture_scroll + 1 == s.scripture_scroll,
{
}

/// Down in the Books or Chapters panel moves that panel's cursor down by
/// exactly one row while a next book or chapter exists, and arms the live
/// preview; Up then brings it back to where it was.
pub proof fn lemma_down_moves_list_cursor_by_one(s: BrowserState)
    ensures
        s.active_panel == Panel::Chapters && sel(s.chapter_list) + 1 < spec_book(
            s.selected_book_idx as int,
        ).chapters ==> {
            let t = move_down_spec(s);
            &&& t.0.chapter_list.selected == Some((sel(s.chapter_list) + 1) as usize)
            &&& t.0.selected_book_idx == s.selected_book_idx
            &&& t.1
            &&& move_up_spec(t.0).0.chapter_list.selected == Some(sel(s.chapter_list))
        },
        s.active_panel == Panel::Books && sel(s.book_list) + 1 < BOOK_COUNT ==> {
            let t = move_down_spec(s);
            &&& t.0.book_list.selected == Some((sel(s.book_list) + 1) as usize)
            &&& t.0.selected_book_idx == sel(s.book_list) + 1
            &&& t.1
            &&& move_up_spec(t.0).0.book_list.selected == Some(sel(s.book_list))
        },
        s.active_panel == Panel::Scripture && s.view_mode == ViewMode::VersePerLine && cursor_spec(&s)
            + 1 < loaded_verses(&s).len() ==> move_down_spec(s).0.verse_list.selected == Some(
            (cursor_spec(&s) + 1) as usize,
        ) && !move_down_spec(s).1,
        s.active_panel == Panel::Scripture && s.view_mode == ViewMode::Paragraph
            && s.scripture_scroll < u16::MAX ==> move_down_spec(s).0.scripture_scroll
            == s.scripture_scroll + 1,
{
}

/// Opening a book from the Books panel (Right or Enter) shows the
/// Chapters panel with its cursor on the first chapter, of that same book,
/// and loads nothing yet; opening again then loads chapter 1 of that book.
pub proof fn lemma_open_book_starts_at_chapter_one(s: BrowserState)
    requires
        s.active_panel == Panel::Books,
    ensures
        next_panel_spec(s).0.active_panel == Panel::Chapters,
        next_panel_spec(s).0.chapter_list.selected == Some(0usize),
        next_panel_spec(s).0.selected_book_idx == s.selected_book_idx,
        !next_panel_spec(s).1,
        next_panel_spec(next_panel_spec(s).0).0.selected_chapter == 1,
        next_panel_spec(next_panel_spec(s).0).0.active_panel == Panel::Scripture,
        next_panel_spec(next_panel_spec(s).0).0.selected_book_idx == s.selected_book_idx,
{
}

/// Jumping to chapter `chapter` of a known book puts every panel on that
/// place: the Books cursor on a book whose name is `book` (ignoring ASCII
/// case), the Chapters cursor on row `chapter - 1`, which is the selected
/// chapter, the Scripture panel active with `verse` highlighted.
pub proof fn lemma_jump_selects_the_place(s: BrowserState, book: Seq<char>, chapter: u32, verse: u32)
    requires
        book_index_spec(book, 0) is Some,
        chapter >= 1,
    ensures
        ({
            let t = jump_spec(s, book, chapter, verse);
            &&& 0 <= t.selected_book_idx < BOOK_COUNT
            &&& eq_ignore_ascii_case_spec(spec_book(t.selected_book_idx as int).name@, book)
            &&& t.book_list.selected == Some(t.selected_book_idx)
            &&& t.selected_chapter == chapter
            &&& t.chapter_list.selected == Some((chapter - 1) as usize)
            &&& sel(t.chapter_list) + 1 == t.selected_chapter
            &&& t.active_panel == Panel::Scripture
            &&& t.highlight_verse == Some(verse)
        }),
{
    lemma_book_index_range(book, 0);
    lemma_book_index_found(book, 0);
}

proof fn lemma_book_index_found(name: Seq<char>, i: int)
    ensures
        book_index_spec(name, i) matches Some(k) ==> eq_ignore_ascii_case_spec(
            spec_book(k).name@,
            name,
        ),
    decreases BOOK_COUNT - i,
{
    if 0 <= i < BOOK_COUNT {
        lemma_book_index_found(name, i + 1);
    }
}

/// The line "<n> <text>" of a verse, ended by a newline.
pub open spec fn verse_line(v: Verse) -> Seq<char> {
    decimal(v.verse as nat) + seq![' '] + v.text@ + seq!['\n']
}

/// The line of `v` occurs in `text` somewhere past position `after`.
pub open spec fn holds_line_after(text: Seq<char>, after: int, v: Verse) -> bool {
    exists|i: int| after < i && occurs_at(text, verse_line(v), i)
}

/// The lines of two runs of verses are the lines of the one, then those of
/// the other.
pub proof fn lemma_verse_lines_append(a: Seq<Verse>, b: Seq<Verse>)
    ensures
        verse_lines(a + b) == verse_lines(a) + verse_lines(b),
    decreases b.len(),
{
    if b.len() == 0 {
        assert(a + b =~= a);
        assert(verse_lines(a) + verse_lines(b) =~= verse_lines(a));
    } else {
        lemma_verse_lines_append(a, b.drop_last());
        assert((a + b).drop_last() =~= a + b.drop_last());
        assert((a + b).last() == b.last());
        let v = b.last();
        assert(verse_lines(a + b) =~= verse_lines(a) + verse_lines(b));
    }
}

/// The line of each verse occurs in the lines of the verses, after the
/// lines of the verses before it.
proof fn lemma_verse_line_occurs(vs: Seq<Verse>, k: int)
    requires
        0 <= k < vs.len(),
    ensures
        occurs_at(verse_lines(vs), verse_line(vs[k]), verse_lines(vs.take(k)).len() as int),
{
    let one = seq![vs[k]];
    assert(vs =~= vs.take(k) + (one + vs.skip(k + 1)));
    lemma_verse_lines_append(vs.take(k), one + vs.skip(k + 1));
    lemma_verse_lines_append(one, vs.skip(k + 1));
    assert(one.drop_last() =~= Seq::<Verse>::empty());
    assert(verse_lines(one.drop_last()) =~= Seq::<char>::empty());
    assert(one.last() == vs[k]);
    assert(verse_lines(one) =~= verse_line(vs[k]));
    let a = verse_lines(vs.take(k));
    let q = verse_line(vs[k]);
    assert(verse_lines(vs) =~= a + q + verse_lines(vs.skip(k + 1)));
    assert(verse_lines(vs).subrange(a.len() as int, a.len() as int + q.len()) =~= q);
}

/// After a header, the line of the `k`-th verse occurs right after the
/// lines of the verses before it, and it ends before the line of any later
/// verse starts.
proof fn lemma_line_after_header(head: Seq<char>, vs: Seq<Verse>, k: int, m: int)
    requires
        0 <= k < vs.len(),
        k <= m <= vs.len(),
    ensures
        occurs_at(
            head + verse_lines(vs),
            verse_line(vs[k]),
            head.len() + verse_lines(vs.take(k)).len() as int,
        ),
        verse_line(vs[k]).len() > 0,
        k < m ==> verse_lines(vs.take(k)).len() + verse_line(vs[k]).len() <= verse_lines(
            vs.take(m),
        ).len(),
{
    lemma_verse_line_occurs(vs, k);
    let i0 = verse_lines(vs.take(k)).len() as int;
    let q = verse_line(vs[k]);
    let t = head + verse_lines(vs);
    assert(t.subrange(head.len() + i0, head.len() + i0 + q.len()) =~= verse_lines(vs).subrange(
        i0,
        i0 + q.len(),
    ));
    if k < m {
        let pre = vs.take(m);
        assert(pre =~= vs.take(k) + pre.skip(k));
        lemma_verse_lines_append(vs.take(k), pre.skip(k));
        lemma_verse_line_occurs(pre.skip(k), 0);
        assert(pre.skip(k)[0] == vs[k]);
    }
}

/// What copying a range gives: the label, then the translation, then the
/// lines of the verses from the lower bound to the upper bound.
proof fn lemma_range_payload(s: BrowserState)
    requires
        copy_ready(&s),
        s.view_mode == ViewMode::VersePerLine,
        loaded_verses(&s).len() > 0,
        bounds_spec(&s).0 < bounds_spec(&s).1,
    ensures
        ({
            let c = s.current_chapter.unwrap();
            let vs = c.verses@;
            let lo = bounds_spec(&s).0 as int;
            let hi = bounds_spec(&s).1 as int;
            let p = payload_spec(&s).unwrap();
            &&& payload_spec(&s) is Some
            &&& hi < vs.len()
            &&& p.1 == loaded_name_spec(s.localized_books@, c.book@) + seq![' '] + decimal(
                c.chapter as nat,
            ) + seq![':'] + decimal(vs[lo].verse as nat) + seq!['-'] + decimal(vs[hi].verse as nat)
            &&& p.0 == (p.1 + " ("@ + c.translation@ + seq![')', '\n']) + verse_lines(
                vs.subrange(lo, hi + 1),
            )
        }),
{
}

/// Copying a range of verses in verse-per-line view labels it "<book>
/// <chapter>:<first>-<last>" after the verses at the lower and the upper
/// bound, and the text starts with that label and holds, after it, the
/// line of every verse from the lower bound to the upper bound, both
/// included, in order, ending with the line of the last one.
pub proof fn lemma_range_copy_holds_every_verse(s: BrowserState)
    requires
        copy_ready(&s),
        s.view_mode == ViewMode::VersePerLine,
        loaded_verses(&s).len() > 0,
        bounds_spec(&s).0 < bounds_spec(&s).1,
    ensures
        ({
            let c = s.current_chapter.unwrap();
            let vs = c.verses@;
            let lo = bounds_spec(&s).0 as int;
            let hi = bounds_spec(&s).1 as int;
            let p = payload_spec(&s).unwrap();
            &&& payload_spec(&s) is Some
            &&& hi < vs.len()
            &&& p.1 == loaded_name_spec(s.localized_books@, c.book@) + seq![' '] + decimal(
                c.chapter as nat,
            ) + seq![':'] + decimal(vs[lo].verse as nat) + seq!['-'] + decimal(vs[hi].verse as nat)
            &&& p.0.take(p.1.len() as int) == p.1
            &&& forall|k: int| lo <= k <= hi ==> holds_line_after(p.0, p.1.len() as int, #[trigger] vs[k])
            &&& p.0.take(p.1.len() as int + c.translation@.len() + 4) == p.1 + " ("@ + c.translation@
                + seq![')', '\n']
            &&& occurs_at(p.0, verse_line(vs[lo]), p.1.len() as int + c.translation@.len() + 4)
            &&& occurs_at(p.0, verse_line(vs[hi]), p.0.len() - verse_line(vs[hi]).len())
        }),
{
    lemma_range_payload(s);
    let c = s.current_chapter.unwrap();
    let vs = c.verses@;
    let lo = bounds_spec(&s).0 as int;
    let hi = bounds_spec(&s).1 as int;
    let p = payload_spec(&s).unwrap();
    let sub = vs.subrange(lo, hi + 1);
    let head = p.1 + " ("@ + c.translation@ + seq![')', '\n'];
    assert(p.0 == head + verse_lines(sub));
    assert(head.len() > p.1.len());
    assert(p.0.take(p.1.len() as int) =~= p.1);
    assert forall|k: int| lo <= k <= hi implies holds_line_after(p.0, p.1.len() as int, #[trigger] vs[k]) by {
        lemma_line_after_header(head, sub, k - lo, k - lo);
        assert(sub[k - lo] == vs[k]);
        let i: int = head.len() as int + verse_lines(sub.take(k - lo)).len();
        assert(occurs_at(p.0, verse_line(vs[k]), i));
        assert(p.1.len() < i);
    }
    reveal_strlit(" (");
    assert(head.len() == p.1.len() + c.translation@.len() + 4);
    assert(p.0.take(head.len() as int) =~= head);
    lemma_line_after_header(head, sub, 0, 0);
    assert(sub[0] == vs[lo]);
    assert(sub.take(0) =~= Seq::<Verse>::empty());
    assert(verse_lines(sub.take(0)) =~= Seq::<char>::empty());
    let q = verse_line(vs[hi]);
    lemma_line_after_header(head, sub, hi - lo, hi - lo);
    assert(sub[hi - lo] == vs[hi]);
    assert(sub.take(hi - lo) =~= sub.drop_last());
    assert(verse_lines(sub) =~= verse_lines(sub.drop_last()) + q);
    assert(verse_lines(sub.take(hi - lo)) == verse_lines(sub.drop_last()));
    assert(p.0.len() - q.len() == head.len() + verse_lines(sub.take(hi - lo)).len());
    assert(occurs_at(p.0, q, p.0.len() - q.len()));
}

/// Copying in paragraph view takes the whole loaded chapter: the label is
/// "<book> <chapter>", and the text starts with it and holds, after it,
/// the line of every verse of the chapter.
pub proof fn lemma_paragraph_copy_holds_every_verse(s: BrowserState)
    requires
        s.view_mode == ViewMode::Paragraph,
        loaded_verses(&s).len() > 0,
    ensures
        ({
            let c = s.current_chapter.unwrap();
            let vs = c.verses@;
            let p = payload_spec(&s).unwrap();
            &&& payload_spec(&s) is Some
            &&& p.1 == loaded_name_spec(s.localized_books@, c.book@) + seq![' '] + decimal(
                c.chapter as nat,
            )
            &&& p.0.take(p.1.len() as int) == p.1
            &&& forall|k: int|
                0 <= k < vs.len() ==> holds_line_after(p.0, p.1.len() as int, #[trigger] vs[k])
        }),
{
    let c = s.current_chapter.unwrap();
    let vs = c.verses@;
    let p = payload_spec(&s).unwrap();
    let head = p.1 + " ("@ + c.translation@ + seq![')', '\n'];
    assert(p.0 == head + verse_lines(vs));
    assert(p.0.take(p.1.len() as int) =~= p.1);
    assert forall|k: int| 0 <= k < vs.len() implies holds_line_after(
        p.0,
        p.1.len() as int,
        #[trigger] vs[k],
    ) by {
        lemma_line_after_header(head, vs, k, k);
        let i: int = head.len() as int + verse_lines(vs.take(k)).len();
        assert(occurs_at(p.0, verse_line(vs[k]), i));
        assert(p.1.len() < i);
    }
}

} // verus!
