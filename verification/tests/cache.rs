use christ_cli::cache::is_chapter_file_name;
use christ_cli::cache::hit_from_api;
use christ_cli::cache::chapter_from_fetched;
use christ_cli::cache::should_mark_complete;
use christ_cli::cache::{
    any_named, book_names_from_pairs, chapter_file_name, collect_matches, has_cached_data,
    is_bundled, is_fully_cached, total_chapters, MAX_SEARCH_RESULTS,
};
use christ_cli::download::DownloadHandle;
use christ_cli::types::{SearchResult, Verse};
use std::sync::atomic::{AtomicBool, AtomicUsize};
use std::sync::Arc;

fn verse(n: u32, text: &str) -> Verse {
    Verse {
        book: "John".to_string(),
        chapter: 3,
        verse: n,
        text: text.to_string(),
        translation: "WEB".to_string(),
    }
}

#[test]
fn kjv_is_bundled_in_any_case() {
    assert!(is_bundled("KJV"));
    assert!(is_bundled("kjv"));
    assert!(!is_bundled("WEB"));
    assert!(is_fully_cached("kJv", false));
    assert!(!is_fully_cached("WEB", false));
    assert!(is_fully_cached("WEB", true));
    assert!(has_cached_data("KJV", &Vec::new()));
    assert!(!has_cached_data("NIV", &Vec::new()));
    assert!(!has_cached_data("NIV", &vec!["books.json".to_string(), ".complete".to_string()]));
    assert!(has_cached_data("NIV", &vec!["books.json".to_string(), "1_50.json".to_string()]));
}

#[test]
fn the_bible_has_1189_chapters() {
    assert_eq!(total_chapters(), 1189);
}

#[test]
fn chapter_files_are_named_by_book_and_chapter() {
    assert_eq!(chapter_file_name(43, 3), "43_3.json");
    assert_eq!(chapter_file_name(1, 50), "1_50.json");
}

#[test]
fn matches_are_collected_in_order_lowercased() {
    let verses = vec![
        verse(16, "For God so LOVED the world"),
        verse(17, "For God sent not his Son"),
        verse(18, "He that believeth on him is not condemned"),
        verse(19, "men loved darkness rather than light"),
    ];
    let mut results: Vec<SearchResult> = Vec::new();
    let full = collect_matches(&mut results, "John", 3, &verses, "loved", "WEB");
    assert!(!full);
    assert_eq!(results.len(), 2);
    assert_eq!(results[0].verse, 16);
    assert_eq!(results[1].verse, 19);
    assert_eq!(results[1].book, "John");
    assert_eq!(results[1].translation, "WEB");
}

#[test]
fn collecting_stops_at_the_limit() {
    let verses: Vec<Verse> = (1..=60).map(|n| verse(n, "grace and truth")).collect();
    let mut results: Vec<SearchResult> = Vec::new();
    let full = collect_matches(&mut results, "John", 1, &verses, "grace", "WEB");
    assert!(full);
    assert_eq!(results.len(), MAX_SEARCH_RESULTS);
    assert_eq!(results[49].verse, 50);
}

#[test]
fn book_names_are_placed_by_number() {
    let pairs = vec![
        (1u64, "Gênesis".to_string()),
        (43, "João".to_string()),
        (0, "ignored".to_string()),
        (67, "ignored too".to_string()),
        (43, "São João".to_string()),
    ];
    let names = book_names_from_pairs(&pairs);
    assert_eq!(names.len(), 66);
    assert_eq!(names[0], "Gênesis");
    assert_eq!(names[42], "São João", "a later name wins");
    assert_eq!(names[1], "");
    assert!(any_named(&names));
    assert!(!any_named(&book_names_from_pairs(&Vec::new())));
}

#[test]
fn download_progress_reports_counters() {
    let dl = DownloadHandle {
        translation: "WEB".to_string(),
        completed: Arc::new(AtomicUsize::new(12)),
        total: 1189,
        cancel: Arc::new(AtomicBool::new(false)),
        done: Arc::new(AtomicBool::new(true)),
    };
    assert_eq!(dl.progress(), (12, 1189));
    assert!(dl.is_done());
}

#[test]
fn completion_needs_every_chapter() {
    assert!(should_mark_complete(false, 0));
    assert!(!should_mark_complete(true, 0));
    assert!(!should_mark_complete(false, 3));
}

#[test]
fn fetched_chapters_keep_the_sent_order() {
    let raw = vec![(1u64, "In the beginning".to_string()), (2, "And the earth".to_string())];
    let c = chapter_from_fetched("Genesis", 1, &raw, "WEB").unwrap();
    assert_eq!(c.book, "Genesis");
    assert_eq!(c.chapter, 1);
    assert_eq!(c.translation, "WEB");
    assert_eq!(c.verses.len(), 2);
    assert_eq!(c.verses[1].verse, 2);
    assert_eq!(c.verses[1].text, "And the earth");
    assert_eq!(c.verses[0].book, "Genesis");
    assert!(chapter_from_fetched("Genesis", 1, &Vec::new(), "WEB").is_none());
    let big = vec![((1u64 << 32) + 5, "x".to_string())];
    assert_eq!(chapter_from_fetched("Genesis", 1, &big, "WEB").unwrap().verses[0].verse, 5);
}

#[test]
fn api_hits_name_their_book() {
    let h = hit_from_api(43, 3, 16, "For God<S>2316</S> so loved", "WEB").unwrap();
    assert_eq!(h.book, "John");
    assert_eq!(h.chapter, 3);
    assert_eq!(h.verse, 16);
    assert_eq!(h.text, "For God so loved");
    assert_eq!(h.translation, "WEB");
    assert!(hit_from_api(0, 1, 1, "x", "WEB").is_none());
    assert!(hit_from_api(67, 1, 1, "x", "WEB").is_none());
}

#[test]
fn only_chapter_files_count_as_cached_chapters() {
    assert!(is_chapter_file_name("1_1.json"));
    assert!(is_chapter_file_name("66_22.json"));
    assert!(!is_chapter_file_name("66_23.json"), "Revelation has 22 chapters");
    assert!(!is_chapter_file_name("67_1.json"));
    assert!(!is_chapter_file_name("01_1.json"));
    assert!(!is_chapter_file_name("books.json"));
    assert!(!is_chapter_file_name("1_1.json.tmp"));
}
