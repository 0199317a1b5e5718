use christ_cli::download::DownloadHandle;
use std::sync::atomic::{AtomicBool, AtomicUsize};
use std::sync::Arc;
use christ_cli::browser::{should_show_banner, FLASH_NANOS};
use std::time::{Duration, Instant};
use christ_cli::browser::quit_prompt_expired;
use christ_cli::browser::{has_saved_position, startup_chapter};
use christ_cli::layout::verse_start_rows;
use christ_cli::books::book;
use christ_cli::browser::{
    find_book, find_translation, find_verse, translation_at, translations, BrowserState, Key,
    ListState, LoadRequest, Panel, QuitStep, SearchMode, ViewMode, TRANSLATION_COUNT,
};
use christ_cli::state::SessionState;
use christ_cli::theme::ThemeName;
use christ_cli::types::{Chapter, SearchResult, Verse};

fn state_at(book_idx: usize, chapter: u32, scroll: u16) -> BrowserState {
    let mut s = BrowserState::new();
    s.selected_book_idx = book_idx;
    s.book_list.select(Some(book_idx));
    s.selected_chapter = chapter;
    s.chapter_list.select(Some((chapter - 1) as usize));
    s.scripture_scroll = scroll;
    s.current_chapter = Some(Chapter {
        book: book(book_idx).name.to_string(),
        chapter,
        verses: (1..=3)
            .map(|n| Verse {
                book: book(book_idx).name.to_string(),
                chapter,
                verse: n,
                text: format!("stub {}", n),
                translation: "KJV".to_string(),
            })
            .collect(),
        translation: "KJV".to_string(),
    });
    s.active_panel = Panel::Scripture;
    s
}

#[test]
fn panel_hop_back_to_scripture_preserves_scroll() {
    let mut s = state_at(0, 1, 42);
    s.prev_panel(); // Scripture -> Chapters
    let needs_reload = s.next_panel_or_select(); // Chapters -> Scripture, same chapter
    assert!(!needs_reload, "no reload when chapter unchanged");
    assert_eq!(s.scripture_scroll, 42, "scroll preserved");
}

#[test]
fn select_same_chapter_via_enter_preserves_scroll() {
    let mut s = state_at(0, 1, 42);
    s.prev_panel();
    let needs_reload = s.select_current(); // Enter on same chapter
    assert!(!needs_reload);
    assert_eq!(s.scripture_scroll, 42);
}

#[test]
fn switching_to_different_chapter_resets_scroll() {
    let mut s = state_at(0, 1, 42);
    s.prev_panel();
    s.chapter_list.select(Some(2)); // pick chapter 3
    let needs_reload = s.next_panel_or_select();
    assert!(needs_reload, "must reload for new chapter");
    assert_eq!(s.scripture_scroll, 0, "scroll resets on chapter change");
    assert_eq!(s.selected_chapter, 3);
}

#[test]
fn switching_to_different_book_resets_scroll() {
    let mut s = state_at(0, 1, 42);
    // Go back to Books, change book, descend through Chapters to Scripture.
    s.prev_panel();
    s.prev_panel();
    s.selected_book_idx = 1;
    s.book_list.select(Some(1));
    s.next_panel_or_select(); // Books -> Chapters (selects ch 1)
    let needs_reload = s.next_panel_or_select(); // Chapters -> Scripture
    assert!(needs_reload, "must reload when book changed");
    assert_eq!(s.scripture_scroll, 0);
    assert_eq!(s.selected_book_name(), book(1).name);
}

#[test]
fn portuguese_translations_include_naa() {
    let codes: Vec<&str> = translations()
        .iter()
        .filter(|t| t.lang == "Português")
        .map(|t| t.code)
        .collect();
    assert!(codes.contains(&"NAA"), "NAA must be in the picker");
    assert!(codes.contains(&"ARA"), "ARA preserved");
    assert!(codes.contains(&"ACF11"));
}

#[test]
fn ara_display_name_includes_year() {
    let all = translations();
    let ara = all.iter().find(|t| t.code == "ARA").expect("ARA exists");
    assert!(
        ara.name.contains("1993"),
        "ARA must show its year so it's not confused with other Almeidas"
    );
}

#[test]
fn verse_cursor_moves_in_verse_per_line_mode() {
    let mut s = state_at(0, 1, 0);
    assert_eq!(s.selected_verse_idx(), 0);
    s.move_down();
    assert_eq!(s.selected_verse_idx(), 1);
    s.move_down();
    s.move_down(); // clamped at the last verse
    assert_eq!(s.selected_verse_idx(), 2);
    s.move_up();
    assert_eq!(s.selected_verse_idx(), 1);
    assert_eq!(s.scripture_scroll, 0, "cursor moves must not scroll");
}

#[test]
fn paragraph_mode_scrolls_lines_not_cursor() {
    let mut s = state_at(0, 1, 0);
    s.view_mode = ViewMode::Paragraph;
    s.move_down();
    assert_eq!(s.scripture_scroll, 1);
    assert_eq!(s.selected_verse_idx(), 0, "cursor untouched in paragraph mode");
}

#[test]
fn toggle_view_mode_round_trips() {
    let mut s = state_at(0, 1, 0);
    assert_eq!(s.view_mode, ViewMode::VersePerLine);
    s.toggle_view_mode();
    assert_eq!(s.view_mode, ViewMode::Paragraph);
    assert!(s.pending_paragraph_scroll, "carries reading position over");
    s.toggle_view_mode();
    assert_eq!(s.view_mode, ViewMode::VersePerLine);
}

#[test]
fn copy_payload_single_verse() {
    let s = state_at(0, 1, 0);
    let (text, label) = s.copy_payload().unwrap();
    assert_eq!(label, "Genesis 1:1");
    assert_eq!(text, "Genesis 1:1 - stub 1 (KJV)");
}

#[test]
fn copy_payload_visual_range() {
    let mut s = state_at(0, 1, 0);
    s.visual_anchor = Some(0);
    s.verse_list.select(Some(2));
    let (text, label) = s.copy_payload().unwrap();
    assert_eq!(label, "Genesis 1:1-3");
    assert!(text.starts_with("Genesis 1:1-3 (KJV)\n"));
    assert!(text.contains("\n2 stub 2\n"));
    assert!(text.contains("\n3 stub 3\n"));
}

#[test]
fn copy_payload_range_works_backwards() {
    let mut s = state_at(0, 1, 0);
    s.visual_anchor = Some(2);
    s.verse_list.select(Some(0));
    let (_, label) = s.copy_payload().unwrap();
    assert_eq!(label, "Genesis 1:1-3", "anchor below cursor still copies forward");
}

#[test]
fn copy_payload_paragraph_copies_whole_chapter() {
    let mut s = state_at(0, 1, 0);
    s.view_mode = ViewMode::Paragraph;
    let (text, label) = s.copy_payload().unwrap();
    assert_eq!(label, "Genesis 1");
    assert!(text.starts_with("Genesis 1 (KJV)\n"));
    assert!(text.contains("3 stub 3"));
}

#[test]
fn jump_to_result_selects_verse() {
    let mut s = state_at(0, 1, 0);
    s.jump_to_result("Exodus", 2, 3);
    assert_eq!(s.selected_book_name(), "Exodus");
    assert_eq!(s.selected_chapter, 2);
    assert_eq!(s.highlight_verse, Some(3));
    assert_eq!(s.verse_list.selected(), Some(2), "cursor lands on the verse");
}

#[test]
fn new_chapter_resets_verse_cursor_and_visual_range() {
    let mut s = state_at(0, 1, 0);
    s.verse_list.select(Some(2));
    s.visual_anchor = Some(0);
    s.prev_panel();
    s.chapter_list.select(Some(4)); // chapter 5
    assert!(s.next_panel_or_select());
    assert_eq!(s.verse_list.selected(), Some(0));
    assert!(s.visual_anchor.is_none());
    assert!(s.highlight_verse.is_none());
}

#[test]
fn copy_label_uses_loaded_chapter_not_books_cursor() {
    // Browsing the Books panel moves selected_book_idx without loading
    // anything; the copied citation must name the LOADED book.
    let mut s = state_at(0, 1, 0); // Genesis 1 loaded
    s.prev_panel();
    s.prev_panel(); // to Books panel
    s.move_down(); // cursor on Exodus, nothing loaded
    assert_eq!(s.selected_book_idx, 1);
    let (text, label) = s.copy_payload().unwrap();
    assert_eq!(label, "Genesis 1:1");
    assert!(text.starts_with("Genesis 1:1"));
}

#[test]
fn select_verse_by_number_handles_numbering_gaps() {
    // Some translations omit verses, so chapter.verses is not densely
    // numbered.
    let mut s = state_at(0, 1, 0);
    if let Some(ch) = s.current_chapter.as_mut() {
        ch.verses[0].verse = 1;
        ch.verses[1].verse = 2;
        ch.verses[2].verse = 5; // gap: 3 and 4 omitted
    }
    s.select_verse_by_number(5);
    assert_eq!(s.verse_list.selected(), Some(2), "found by number, not index");
    s.select_verse_by_number(2);
    assert_eq!(s.verse_list.selected(), Some(1));
}

#[test]
fn toggle_from_paragraph_requests_cursor_sync() {
    let mut s = state_at(0, 1, 0);
    s.view_mode = ViewMode::Paragraph;
    s.toggle_view_mode();
    assert_eq!(s.view_mode, ViewMode::VersePerLine);
    assert!(s.pending_cursor_sync, "cursor must be derived from paragraph scroll");
}

#[test]
fn browsing_books_or_chapters_arms_live_preview() {
    let mut s = state_at(0, 1, 0);

    // Moving the verse cursor in Scripture must NOT trigger a preview.
    s.move_down();
    assert!(s.preview_pending.is_none());

    // Browsing chapters previews the highlighted chapter.
    s.prev_panel();
    s.move_down();
    assert!(s.preview_pending.is_some());
    assert_eq!(s.preview_target(), (0, 2));

    // Browsing books previews chapter 1 of the highlighted book.
    s.preview_pending = None;
    s.prev_panel();
    s.move_down();
    assert!(s.preview_pending.is_some());
    assert_eq!(s.preview_target(), (1, 1));
}

#[test]
fn moving_against_a_list_edge_does_not_arm_preview() {
    let mut s = state_at(0, 1, 0);
    s.prev_panel();
    s.prev_panel(); // Books, cursor on Genesis (top)
    s.move_up(); // no-op at the edge
    assert!(s.preview_pending.is_none());
}

// ---------------------------------------------------------------------------
// Further cases
// ---------------------------------------------------------------------------

#[test]
fn new_browser_starts_at_genesis_in_books() {
    let s = BrowserState::new();
    assert_eq!(s.active_panel, Panel::Books);
    assert_eq!(s.selected_book_idx, 0);
    assert_eq!(s.selected_chapter, 1);
    assert_eq!(s.translation, "KJV");
    assert_eq!(s.book_list.selected(), Some(0));
    assert!(s.current_chapter.is_none());
    assert_eq!(s.verse_count(), 0);
    assert_eq!(s.selected_verse_idx(), 0);
    assert!(s.copy_payload().is_none());
}

#[test]
fn list_state_select_none_resets_offset() {
    let mut l = ListState::new();
    l.offset = 7;
    l.select(Some(3));
    assert_eq!(l.selected(), Some(3));
    assert_eq!(l.offset(), 7);
    l.select(None);
    assert_eq!(l.offset(), 0);
    assert_eq!(ListState::default(), ListState::new());
}

#[test]
fn translation_table_has_kjv_first() {
    assert_eq!(translations().len(), TRANSLATION_COUNT);
    assert_eq!(translation_at(0).code, "KJV");
    assert!(translation_at(0).offline);
    assert_eq!(find_translation("kjv"), Some(0));
    assert_eq!(find_translation("ara"), Some(16));
    assert_eq!(find_translation("XYZ"), None);
}

#[test]
fn find_book_ignores_ascii_case() {
    assert_eq!(find_book("exodus"), Some(1));
    assert_eq!(find_book("REVELATION"), Some(65));
    assert_eq!(find_book("Exod"), None);
}

#[test]
fn find_verse_by_number() {
    let s = state_at(0, 1, 0);
    let vs = &s.current_chapter.as_ref().unwrap().verses;
    assert_eq!(find_verse(vs, 3), Some(2));
    assert_eq!(find_verse(vs, 9), None);
}

#[test]
fn unknown_verse_number_falls_back_to_index() {
    let mut s = state_at(0, 1, 0);
    s.select_verse_by_number(9);
    assert_eq!(s.verse_list.selected(), Some(8));
    s.select_verse_by_number(0);
    assert_eq!(s.verse_list.selected(), Some(0));
}

#[test]
fn jump_to_unknown_book_changes_nothing() {
    let mut s = state_at(0, 1, 5);
    s.jump_to_result("Hezekiah", 2, 3);
    assert_eq!(s.selected_book_idx, 0);
    assert_eq!(s.scripture_scroll, 5);
    assert!(s.highlight_verse.is_none());
}

#[test]
fn localized_names_show_in_copy_label() {
    let mut s = state_at(0, 1, 0);
    s.localized_books = vec!["Gênesis".to_string(), "Êxodo".to_string()];
    assert_eq!(s.book_display_name(0), "Gênesis");
    assert_eq!(s.book_display_name(2), "Leviticus");
    let (_, label) = s.copy_payload().unwrap();
    assert_eq!(label, "Gênesis 1:1");
}

#[test]
fn in_visual_range_follows_the_selection() {
    let mut s = state_at(0, 1, 0);
    assert!(!s.in_visual_range(0));
    s.visual_anchor = Some(2);
    s.verse_list.select(Some(1));
    assert_eq!(s.selection_bounds(), (1, 2));
    assert!(s.in_visual_range(1));
    assert!(s.in_visual_range(2));
    assert!(!s.in_visual_range(0));
}

#[test]
fn picker_opens_on_current_translation_and_picks() {
    let mut s = state_at(0, 1, 0);
    s.translation = "ara".to_string();
    s.open_translation_picker();
    assert!(s.translation_picker);
    assert_eq!(s.translation_list.selected(), Some(16));
    assert!(!s.pick_translation(), "same translation up to case");
    assert_eq!(s.translation, "ARA");
    assert!(!s.translation_picker);
    s.translation_list.select(Some(1));
    assert!(s.pick_translation());
    assert_eq!(s.translation, "WEB");
}

#[test]
fn snapshot_and_restore_round_trip() {
    let mut s = state_at(42, 3, 17);
    s.view_mode = ViewMode::Paragraph;
    s.verse_list.select(Some(2));
    s.translation = "NAA".to_string();
    let saved = s.snapshot();
    assert_eq!(saved.book_index, 42);
    assert_eq!(saved.chapter, 3);
    assert_eq!(saved.scroll_position, 17);
    assert_eq!(saved.active_panel, 2);
    assert_eq!(saved.view_mode, 1);
    assert_eq!(saved.selected_verse, 2);
    let mut r = BrowserState::new();
    r.restore(&saved);
    assert_eq!(r.selected_book_idx, 42);
    assert_eq!(r.selected_chapter, 3);
    assert_eq!(r.scripture_scroll, 17);
    assert_eq!(r.active_panel, Panel::Scripture);
    assert_eq!(r.view_mode, ViewMode::Paragraph);
    assert_eq!(r.translation, "NAA");
    assert_eq!(r.verse_list.selected(), Some(2));
    assert_eq!(r.chapter_list.selected(), Some(2));
}

#[test]
fn restore_clamps_out_of_range_positions() {
    let mut saved = SessionState::default();
    saved.book_index = 500;
    saved.chapter = 99;
    saved.translation = String::new();
    let mut r = BrowserState::new();
    r.restore(&saved);
    assert_eq!(r.selected_book_idx, 65);
    assert_eq!(r.selected_chapter, 22, "Revelation has 22 chapters");
    assert_eq!(r.translation, "KJV", "an empty translation is ignored");
    saved.book_index = 0;
    saved.chapter = 0;
    r.restore(&saved);
    assert_eq!(r.selected_chapter, 1);
}

#[test]
fn is_offline_for_bundled_or_cached() {
    let mut s = BrowserState::new();
    assert!(s.is_offline(&Vec::new()));
    s.translation = "WEB".to_string();
    assert!(!s.is_offline(&vec!["books.json".to_string()]));
    assert!(s.is_offline(&vec!["books.json".to_string(), "43_3.json".to_string()]));
}

#[test]
fn flash_sets_message() {
    let mut s = BrowserState::new();
    s.flash("Copied Genesis 1:1".to_string());
    assert_eq!(s.copy_flash.as_ref().unwrap().0, "Copied Genesis 1:1");
}

fn press(s: &mut BrowserState, theme: &mut ThemeName, pending: bool, key: Key) -> christ_cli::browser::KeyOutcome {
    s.handle_key(theme, pending, key)
}

#[test]
fn q_twice_quits() {
    let mut s = state_at(0, 1, 0);
    let mut theme = ThemeName::Slate;
    let o = press(&mut s, &mut theme, false, Key::Char('q'));
    assert_eq!(o.quit, QuitStep::Arm);
    let o = press(&mut s, &mut theme, true, Key::Char('q'));
    assert_eq!(o.quit, QuitStep::Exit);
    let o = press(&mut s, &mut theme, true, Key::Char('j'));
    assert_eq!(o.quit, QuitStep::Clear);
}

#[test]
fn t_cycles_theme() {
    let mut s = state_at(0, 1, 0);
    let mut theme = ThemeName::Slate;
    press(&mut s, &mut theme, false, Key::Char('t'));
    assert_eq!(theme, ThemeName::Midnight);
}

#[test]
fn y_copies_and_big_y_selects_range() {
    let mut s = state_at(0, 1, 0);
    let mut theme = ThemeName::Slate;
    let o = press(&mut s, &mut theme, false, Key::Char('y'));
    let (text, label) = o.copy.unwrap();
    assert_eq!(label, "Genesis 1:1");
    assert_eq!(text, "Genesis 1:1 - stub 1 (KJV)");
    let o = press(&mut s, &mut theme, false, Key::Char('Y'));
    assert!(o.copy.is_none());
    assert_eq!(s.visual_anchor, Some(0));
    press(&mut s, &mut theme, false, Key::Char('j'));
    press(&mut s, &mut theme, false, Key::Down);
    let o = press(&mut s, &mut theme, false, Key::Char('C'));
    let (_, label) = o.copy.unwrap();
    assert_eq!(label, "Genesis 1:1-3");
    assert!(s.visual_anchor.is_none());
}

#[test]
fn esc_cancels_range() {
    let mut s = state_at(0, 1, 0);
    let mut theme = ThemeName::Slate;
    press(&mut s, &mut theme, false, Key::Char('Y'));
    assert!(s.visual_anchor.is_some());
    press(&mut s, &mut theme, false, Key::Esc);
    assert!(s.visual_anchor.is_none());
}

#[test]
fn enter_on_chapter_asks_for_load() {
    let mut s = state_at(0, 1, 0);
    let mut theme = ThemeName::Slate;
    press(&mut s, &mut theme, false, Key::Left);
    assert_eq!(s.active_panel, Panel::Chapters);
    press(&mut s, &mut theme, false, Key::Down);
    let o = press(&mut s, &mut theme, false, Key::Enter);
    assert_eq!(o.load, LoadRequest::Chapter);
    assert_eq!(s.selected_chapter, 2);
    assert_eq!(s.active_panel, Panel::Scripture);
}

#[test]
fn help_overlay_opens_scrolls_and_closes() {
    let mut s = state_at(0, 1, 0);
    let mut theme = ThemeName::Slate;
    press(&mut s, &mut theme, false, Key::Char('?'));
    assert!(s.help_open);
    press(&mut s, &mut theme, false, Key::Char('j'));
    assert_eq!(s.help_scroll, 1);
    let o = press(&mut s, &mut theme, false, Key::Char('q'));
    assert_eq!(o.quit, QuitStep::Keep, "q does not quit under the help overlay");
    press(&mut s, &mut theme, false, Key::Esc);
    assert!(!s.help_open);
}

#[test]
fn p_toggles_view() {
    let mut s = state_at(0, 1, 0);
    let mut theme = ThemeName::Slate;
    press(&mut s, &mut theme, false, Key::Char('p'));
    assert_eq!(s.view_mode, ViewMode::Paragraph);
    let o = press(&mut s, &mut theme, false, Key::Char('y'));
    assert_eq!(o.copy.unwrap().1, "Genesis 1");
}

#[test]
fn search_typing_and_jumping() {
    let mut s = state_at(0, 1, 0);
    let mut theme = ThemeName::Slate;
    press(&mut s, &mut theme, false, Key::Char('/'));
    assert!(matches!(s.search, SearchMode::Active { .. }));
    for c in "lov".chars() {
        let o = press(&mut s, &mut theme, false, Key::Char(c));
        assert!(o.live_search);
    }
    assert!(s.search_query_ready());
    let o = press(&mut s, &mut theme, false, Key::Backspace);
    assert!(o.live_search);
    assert!(!s.search_query_ready());
    s.set_search_results(vec![SearchResult {
        book: "John".to_string(),
        chapter: 3,
        verse: 16,
        text: "For God so loved the world".to_string(),
        translation: "KJV".to_string(),
    }]);
    assert_eq!(s.selected_search_result().unwrap().verse, 16);
    let o = press(&mut s, &mut theme, false, Key::Enter);
    assert_eq!(o.load, LoadRequest::Chapter);
    assert!(matches!(s.search, SearchMode::Off));
    assert_eq!(s.selected_book_name(), "John");
    assert_eq!(s.selected_chapter, 3);
    assert_eq!(s.highlight_verse, Some(16));
}

#[test]
fn picker_enter_asks_for_names_then_chapter() {
    let mut s = state_at(0, 1, 0);
    let mut theme = ThemeName::Slate;
    press(&mut s, &mut theme, false, Key::Char('v'));
    assert!(s.translation_picker);
    press(&mut s, &mut theme, false, Key::Char('j'));
    let o = press(&mut s, &mut theme, false, Key::Enter);
    assert_eq!(o.load, LoadRequest::BookNamesThenChapter);
    assert_eq!(s.translation, "WEB");
    press(&mut s, &mut theme, false, Key::Char('v'));
    let o = press(&mut s, &mut theme, false, Key::Enter);
    assert_eq!(o.load, LoadRequest::Nothing, "same translation loads nothing");
}

#[test]
fn cursor_sync_lands_on_the_verse_a_third_down() {
    let mut s = state_at(0, 1, 0);
    s.view_mode = ViewMode::Paragraph;
    s.toggle_view_mode();
    assert!(s.pending_cursor_sync);
    // Width 4: "1 stub" | "1 2" ... each verse label "n stub n" takes 2 rows.
    let (rows, _) = verse_start_rows(&s.current_chapter.as_ref().unwrap().verses, 4).unwrap();
    s.scripture_scroll = rows[2] as u16;
    s.sync_verse_cursor(4, 0);
    assert!(!s.pending_cursor_sync);
    assert_eq!(s.verse_list.selected(), Some(2));
}

#[test]
fn cursor_is_clamped_without_a_pending_sync() {
    let mut s = state_at(0, 1, 0);
    s.verse_list.select(Some(40));
    s.sync_verse_cursor(40, 10);
    assert_eq!(s.verse_list.selected(), Some(2));
}

#[test]
fn paragraph_scroll_settles_once() {
    let mut s = state_at(0, 1, 9);
    s.toggle_view_mode(); // to paragraph, asks to carry the cursor over
    assert!(s.pending_paragraph_scroll);
    let content = s.settle_paragraph_scroll(4, 2).unwrap();
    assert!(!s.pending_paragraph_scroll);
    assert!(content >= 3);
    assert!(s.scripture_scroll <= content - 2);
    // Everything fits: no scrolling.
    s.scripture_scroll = 5;
    s.settle_paragraph_scroll(200, 50);
    assert_eq!(s.scripture_scroll, 0);
    let mut empty = BrowserState::new();
    assert!(empty.settle_paragraph_scroll(40, 10).is_none());
}

#[test]
fn help_scroll_is_clamped() {
    let mut s = BrowserState::new();
    s.help_scroll = 30;
    s.clamp_help_scroll(36, 20);
    assert_eq!(s.help_scroll, 16);
    s.clamp_help_scroll(10, 20);
    assert_eq!(s.help_scroll, 0);
}

#[test]
fn startup_resumes_saved_place() {
    let mut saved = SessionState::default();
    assert!(!has_saved_position(&saved));
    assert_eq!(startup_chapter(&saved), ("Genesis", 1));
    saved.book_index = 42;
    saved.chapter = 3;
    assert!(has_saved_position(&saved));
    assert_eq!(startup_chapter(&saved), ("John", 3));
    saved.book_index = 99;
    saved.chapter = 0;
    assert_eq!(startup_chapter(&saved), ("Genesis", 1));
}

#[test]
fn session_start_and_loads() {
    let mut saved = SessionState::default();
    saved.book_index = 42;
    saved.chapter = 3;
    saved.active_panel = 2;
    let mut s = BrowserState::new();
    let ch = state_at(42, 3, 0).current_chapter;
    s.start_session(&saved, ch, vec!["Gênesis".to_string()]);
    assert_eq!(s.selected_book_idx, 42);
    assert_eq!(s.active_panel, Panel::Scripture);
    assert_eq!(s.localized_books.len(), 1);
    assert!(s.current_chapter.is_some());
    s.scripture_scroll = 4;
    s.begin_load();
    assert!(s.loading);
    s.finish_load(None);
    assert!(!s.loading);
    assert_eq!(s.scripture_scroll, 4, "a failed load keeps the place");
    s.finish_load(state_at(1, 2, 0).current_chapter);
    assert_eq!(s.scripture_scroll, 0);
    assert_eq!(s.current_chapter.as_ref().unwrap().chapter, 2);
}

#[test]
fn book_names_follow_the_translation() {
    let mut s = BrowserState::new();
    assert!(!s.needs_book_names());
    s.set_book_names(Some(vec!["x".to_string()]));
    assert!(s.localized_books.is_empty(), "KJV uses the English names");
    s.translation = "NAA".to_string();
    assert!(s.needs_book_names());
    s.set_book_names(Some(vec!["Gênesis".to_string()]));
    assert_eq!(s.localized_books, vec!["Gênesis".to_string()]);
    s.set_book_names(None);
    assert!(s.localized_books.is_empty());
}

#[test]
fn quit_prompt_expires_after_two_seconds() {
    assert!(!quit_prompt_expired(2_000_000_000));
    assert!(quit_prompt_expired(2_000_000_001));
}

#[test]
fn preview_is_due_after_the_debounce() {
    let mut s = state_at(0, 1, 0);
    s.prev_panel();
    s.move_down(); // arms the preview now
    assert!(!s.preview_due(), "not before the debounce has passed");
    s.preview_pending = Instant::now().checked_sub(Duration::from_millis(500));
    assert!(s.preview_due());
    assert_eq!(s.take_preview(), Some((0, 2)));
    assert!(s.preview_pending.is_none());
    assert_eq!(s.take_preview(), None);
    s.show_preview(state_at(0, 2, 0).current_chapter);
    assert_eq!(s.current_chapter.as_ref().unwrap().chapter, 2);
    assert_eq!(s.verse_list.selected(), Some(0));
}

#[test]
fn flash_expires_after_two_seconds() {
    let mut s = BrowserState::new();
    s.flash("Copied".to_string());
    s.expire_flash(FLASH_NANOS);
    assert!(s.copy_flash.is_some());
    s.expire_flash(FLASH_NANOS + 1);
    assert!(s.copy_flash.is_none());
}

#[test]
fn keys_wait_for_a_consistent_browser() {
    let mut s = state_at(0, 1, 0);
    assert!(s.key_ready());
    s.selected_book_idx = 66;
    assert!(!s.key_ready());
    s.selected_book_idx = 0;
    s.scripture_scroll = u16::MAX;
    assert!(!s.key_ready());
}

#[test]
fn saved_session_marks_banner_shown() {
    let mut s = state_at(42, 3, 7);
    s.view_mode = ViewMode::Paragraph;
    let saved = s.session_to_save(ThemeName::Gospel);
    assert_eq!(saved.theme, ThemeName::Gospel);
    assert!(saved.banner_shown);
    assert_eq!(saved.book_index, 42);
    assert_eq!(saved.view_mode, 1);
    assert!(should_show_banner(false, false));
    assert!(!should_show_banner(true, false));
    assert!(!should_show_banner(false, true));
}

#[test]
fn reading_position_survives_a_view_round_trip() {
    let mut s = state_at(0, 1, 0);
    let vs: Vec<Verse> = (1..=20)
        .map(|n| Verse {
            book: "Genesis".to_string(),
            chapter: 1,
            verse: n,
            text: "And God said, Let there be light: and there was light.".to_string(),
            translation: "KJV".to_string(),
        })
        .collect();
    s.current_chapter.as_mut().unwrap().verses = vs;
    s.verse_list.select(Some(9));
    let (rows, _) = christ_cli::layout::verse_start_rows(&s.current_chapter.as_ref().unwrap().verses, 30).unwrap();
    s.toggle_view_mode();
    s.settle_paragraph_scroll(30, 9).unwrap();
    s.toggle_view_mode();
    s.sync_verse_cursor(30, 9);
    let landed = s.verse_list.selected().unwrap();
    assert_eq!(rows[landed], rows[9]);
}

#[test]
fn preview_is_due_after_150_ms() {
    let mut s = state_at(0, 1, 0);
    assert!(!s.preview_due_after(1000), "nothing armed");
    s.prev_panel();
    s.move_down();
    assert!(!s.preview_due_after(149));
    assert!(s.preview_due_after(150));
}

#[test]
fn finished_download_is_dropped() {
    let mut s = BrowserState::new();
    s.drop_finished_download(true);
    assert!(s.download.is_none());
    let handle = |done: bool| DownloadHandle {
        translation: "WEB".to_string(),
        completed: Arc::new(AtomicUsize::new(0)),
        total: 1189,
        cancel: Arc::new(AtomicBool::new(false)),
        done: Arc::new(AtomicBool::new(done)),
    };
    s.download = Some(handle(false));
    s.drop_finished_download(false);
    assert!(s.download.is_some());
    s.check_download();
    assert!(s.download.is_some(), "a running task keeps its handle");
    s.download = Some(handle(true));
    s.check_download();
    assert!(s.download.is_none(), "a finished task's handle goes");
}
