//! The reading session that is saved between runs.

use vstd::prelude::*;
use crate::text::{extend_str, string_from};
use crate::theme::ThemeName;

verus! {

/// Where the reader left off, and their settings.
#[derive(Debug, Clone)]
pub struct SessionState {
    pub book_index: usize,
    pub chapter: u32,
    pub scroll_position: u16,
    /// 0 = Books, 1 = Chapters, 2 = Scripture
    pub active_panel: u8,
    pub theme: ThemeName,
    pub translation: String,
    /// 0 = verse-per-line, 1 = paragraph
    pub view_mode: u8,
    /// 0-based verse index in the current chapter
    pub selected_verse: u32,
    /// The intro banner plays on the first launch only; this flips to true
    /// after any completed session.
    pub banner_shown: bool,
}

/// The translation of a fresh session: the bundled King James Version.
pub fn default_translation() -> (r: String)
    ensures
        r@ == "KJV"@,
{
    let mut v: Vec<char> = Vec::new();
    extend_str(&mut v, "KJV");
    assert(v@ =~= "KJV"@);
    string_from(v.as_slice())
}

/// The session of a fresh install: KJV, Genesis 1, top of the Books panel.
pub open spec fn is_default_session(s: SessionState) -> bool {
    &&& s.book_index == 0
    &&& s.chapter == 1
    &&& s.scroll_position == 0
    &&& s.active_panel == 0
    &&& s.theme == ThemeName::Slate
    &&& s.translation@ == "KJV"@
    &&& s.view_mode == 0
    &&& s.selected_verse == 0
    &&& !s.banner_shown
}

impl Default for SessionState {
    fn default() -> (r: Self)
        ensures
            is_default_session(r),
    {
        SessionState {
            book_index: 0,
            chapter: 1,
            scroll_position: 0,
            active_panel: 0,
            theme: ThemeName::Slate,
            translation: default_translation(),
            view_mode: 0,
            selected_verse: 0,
            banner_shown: false,
        }
    }
}

} // verus!
