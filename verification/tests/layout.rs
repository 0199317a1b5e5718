use christ_cli::layout::{
    availability_suffix, book_name_budget, download_percent, empty_search_message,
    highlight_parts, list_scrollbar, passage_text, picker_layout, picker_scroll, popup_height,
    preview_height, preview_text_width, result_text_budget, status_hints, truncate_display_name,
    truncate_result_text, verse_body_width, verse_index_at_row, verse_start_rows, PickerRow,
};
use christ_cli::theme::ThemeName;
use christ_cli::types::Verse;

fn verse(n: u32, text: &str) -> Verse {
    Verse {
        book: "Genesis".to_string(),
        chapter: 1,
        verse: n,
        text: text.to_string(),
        translation: "KJV".to_string(),
    }
}

#[test]
fn names_that_fit_are_kept() {
    assert_eq!(truncate_display_name("Genesis", 7), "Genesis");
    assert_eq!(truncate_display_name("Genesis", 20), "Genesis");
}

#[test]
fn long_names_get_an_ellipsis() {
    assert_eq!(truncate_display_name("Deuteronomy", 6), "Deute\u{2026}");
    assert_eq!(truncate_display_name("Song of Solomon", 1), "\u{2026}");
    assert_eq!(truncate_display_name("Genesis", 0), "\u{2026}");
    // CJK chars take two columns each.
    assert_eq!(truncate_display_name("約翰福音", 5), "約翰\u{2026}");
}

#[test]
fn result_text_is_cut_with_dots() {
    assert_eq!(truncate_result_text("short", 20), "short");
    assert_eq!(truncate_result_text("abcdefghij", 8), "abcde...");
    assert_eq!(truncate_result_text("ação e graça", 7), "ação...");
}

#[test]
fn highlight_splits_around_first_match() {
    let (a, b, c) = highlight_parts("For God so LOVED the world, loved", "loved").unwrap();
    assert_eq!(a, "For God so ");
    assert_eq!(b, "LOVED");
    assert_eq!(c, " the world, loved");
    assert!(highlight_parts("For God", "").is_none());
    assert!(highlight_parts("For God", "xyz").is_none());
}

#[test]
fn picker_groups_translations_by_language() {
    let (rows, sel) = picker_layout(Some(0));
    assert_eq!(rows[0], PickerRow::Header(0));
    assert_eq!(rows[1], PickerRow::Item(0));
    assert_eq!(sel, 1);
    // English has 11 translations, then a blank row and the next heading.
    assert_eq!(rows[12], PickerRow::Blank);
    assert_eq!(rows[13], PickerRow::Header(11));
    assert_eq!(rows[14], PickerRow::Item(11));
    let (_, sel) = picker_layout(Some(11));
    assert_eq!(sel, 14);
    let (_, sel) = picker_layout(None);
    assert_eq!(sel, 0);
    let items = rows.iter().filter(|r| matches!(r, PickerRow::Item(_))).count();
    assert_eq!(items, 32);
}

#[test]
fn picker_scrolls_half_a_screen() {
    assert_eq!(picker_scroll(5, 10), 0);
    assert_eq!(picker_scroll(12, 10), 7);
}

#[test]
fn popups_fit_the_area() {
    assert_eq!(popup_height(36, 60, 2), 40);
    assert_eq!(popup_height(36, 30, 2), 28);
    assert_eq!(popup_height(10, 1, 2), 0);
}

#[test]
fn panel_budgets() {
    assert_eq!(book_name_budget(20), 13);
    assert_eq!(book_name_budget(5), 0);
    assert_eq!(verse_body_width(40, 3), 35);
    assert_eq!(verse_body_width(12, 3), 10);
    assert_eq!(preview_text_width(50), 46);
    assert_eq!(preview_text_width(8), 10);
    assert_eq!(preview_height(3, 40), 5);
    assert_eq!(preview_height(30, 40), 20);
    assert_eq!(result_text_budget(80, 10), 64);
    assert_eq!(result_text_budget(30, 10), 20);
}

#[test]
fn empty_search_messages() {
    assert_eq!(empty_search_message("lo"), "Type at least 3 characters to search");
    assert_eq!(empty_search_message("love"), "No results found");
    // Bytes count, not chars: "çã" is four bytes.
    assert_eq!(empty_search_message("çã"), "No results found");
}

#[test]
fn availability_and_progress() {
    assert_eq!(availability_suffix(true, false, false), " (offline)");
    assert_eq!(availability_suffix(false, true, true), " (offline)");
    assert_eq!(availability_suffix(false, false, true), " (cached)");
    assert_eq!(availability_suffix(false, false, false), "");
    assert_eq!(download_percent(594, 1189), 49);
    assert_eq!(download_percent(5, 0), 0);
}

#[test]
fn status_hints_name_theme_and_translation() {
    let h = status_hints(ThemeName::Parchment, "NAA");
    assert_eq!(h.len(), 9);
    assert_eq!(h[0].0, "\u{2190}\u{2192}/hl");
    assert_eq!(h[5], ("t", "Parchment".to_string()));
    assert_eq!(h[6], ("v", "NAA".to_string()));
    assert_eq!(h[8], ("qq", "quit".to_string()));
}

#[test]
fn scrollbar_of_the_verse_list() {
    let heights = vec![3, 2, 4, 3];
    assert_eq!(list_scrollbar(&heights, 0, 20), None);
    assert_eq!(list_scrollbar(&heights, 0, 0), None);
    assert_eq!(list_scrollbar(&heights, 2, 5), Some((7, 5)));
    assert_eq!(list_scrollbar(&heights, 9, 5), Some((7, 7)));
}

#[test]
fn verses_flow_into_rows() {
    let vs = vec![
        verse(1, "In the beginning God created the heaven and the earth."),
        verse(2, "And the earth was without form, and void."),
        verse(3, "Let there be light."),
    ];
    let (rows, total) = verse_start_rows(&vs, 20).unwrap();
    assert_eq!(rows[0], 0);
    assert!(rows[0] <= rows[1] && rows[1] <= rows[2]);
    assert!(total > rows[2]);
    assert_eq!(verse_index_at_row(&rows, 0), 0);
    assert_eq!(verse_index_at_row(&rows, rows[2]), 2);
    assert_eq!(verse_index_at_row(&rows, 1000), 2);
    let (_, total) = verse_start_rows(&Vec::new(), 20).unwrap();
    assert_eq!(total, 1);
}

#[test]
fn flow_rows_by_hand() {
    // "1 aa bb" then "2 cc" at width 4: "1 aa" | "bb 2" | "cc".
    let vs = vec![verse(1, "aa bb"), verse(2, "cc")];
    let (rows, total) = verse_start_rows(&vs, 4).unwrap();
    assert_eq!(rows, vec![0, 1]);
    assert_eq!(total, 3);
}

#[test]
fn passage_text_lists_verses() {
    let vs = vec![verse(1, "a"), verse(2, "b")];
    assert_eq!(passage_text("Genesis 1:1-2", "KJV", &vs), "Genesis 1:1-2 (KJV)\n1 a\n2 b\n");
}
