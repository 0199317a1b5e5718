use christ_cli::reference::{daily_chapter, daily_verse_index};
use christ_cli::reference::ReadPlan;
use christ_cli::reference::parse;


#[test]
fn test_single_verse() {
    let r = parse("John 3:16").unwrap();
    assert_eq!(r.book.name, "John");
    assert_eq!(r.chapter, 3);
    assert_eq!(r.verse_start, Some(16));
    assert_eq!(r.verse_end, Some(16));
}

#[test]
fn test_verse_range() {
    let r = parse("Psalm 23:1-6").unwrap();
    assert_eq!(r.book.name, "Psalms");
    assert_eq!(r.chapter, 23);
    assert_eq!(r.verse_start, Some(1));
    assert_eq!(r.verse_end, Some(6));
}

#[test]
fn test_whole_chapter() {
    let r = parse("Genesis 1").unwrap();
    assert_eq!(r.book.name, "Genesis");
    assert_eq!(r.chapter, 1);
    assert_eq!(r.verse_start, None);
}

#[test]
fn test_numbered_book() {
    let r = parse("1 Cor 13").unwrap();
    assert_eq!(r.book.name, "1 Corinthians");
    assert_eq!(r.chapter, 13);
}

#[test]
fn reference_test_abbreviation() {
    let r = parse("Jn 3:16").unwrap();
    assert_eq!(r.book.name, "John");
    assert_eq!(r.chapter, 3);
    assert_eq!(r.verse_start, Some(16));
}

#[test]
fn test_abbreviated_numbered_book() {
    let r = parse("1jn 5:3").unwrap();
    assert_eq!(r.book.name, "1 John");
    assert_eq!(r.chapter, 5);
    assert_eq!(r.verse_start, Some(3));
}

#[test]
fn test_display() {
    let r = parse("John 3:16").unwrap();
    assert_eq!(r.display(), "John 3:16");

    let r = parse("Genesis 1").unwrap();
    assert_eq!(r.display(), "Genesis 1");

    let r = parse("Psalm 23:1-6").unwrap();
    assert_eq!(r.display(), "Psalms 23:1-6");
}

#[test]
fn test_invalid_chapter() {
    assert!(parse("Genesis 51").is_err());
}

#[test]
fn test_invalid_book() {
    assert!(parse("Notabook 1:1").is_err());
}

#[test]
fn test_dot_separator() {
    let r = parse("John 3.16").unwrap();
    assert_eq!(r.book.name, "John");
    assert_eq!(r.chapter, 3);
    assert_eq!(r.verse_start, Some(16));
}

#[test]
fn test_comma_separator() {
    let r = parse("John 3,16").unwrap();
    assert_eq!(r.book.name, "John");
    assert_eq!(r.chapter, 3);
    assert_eq!(r.verse_start, Some(16));
}

#[test]
fn test_dot_separator_range() {
    let r = parse("Ps 23.1-6").unwrap();
    assert_eq!(r.book.name, "Psalms");
    assert_eq!(r.chapter, 23);
    assert_eq!(r.verse_start, Some(1));
    assert_eq!(r.verse_end, Some(6));
}

#[test]
fn test_german_style_numbered_book() {
    // "1." prefix before the book name (e.g. "1. Mose", "1. Korinther")
    let r = parse("1. John 5:3").unwrap();
    assert_eq!(r.book.name, "1 John");
    assert_eq!(r.chapter, 5);
    assert_eq!(r.verse_start, Some(3));
}

#[test]
fn test_bare_numbers_are_not_a_book() {
    assert!(parse("1.16").is_err());
    assert!(parse("3:16").is_err());
}

#[test]
fn test_multibyte_book_name_splits_cleanly() {
    // Book/location splitting must be UTF-8 safe even for unknown names.
    let err = parse("Жоао 3:16").unwrap_err();
    assert!(err.contains("Жоао"), "book name preserved intact: {}", err);
}

#[test]
fn test_portuguese_reference() {
    // The exact example from the issue: "João 3.16"
    let r = parse("João 3.16").unwrap();
    assert_eq!(r.book.name, "John");
    assert_eq!(r.chapter, 3);
    assert_eq!(r.verse_start, Some(16));
}

#[test]
fn test_german_reference() {
    let r = parse("1. Mose 3,16").unwrap();
    assert_eq!(r.book.name, "Genesis");
    assert_eq!(r.chapter, 3);
    assert_eq!(r.verse_start, Some(16));
}

#[test]
fn test_cyrillic_reference() {
    let r = parse("Буття 1").unwrap();
    assert_eq!(r.book.name, "Genesis");
    let r = parse("Псалми 23").unwrap();
    assert_eq!(r.book.name, "Psalms");
}

#[test]
fn test_cjk_reference() {
    let r = parse("約翰福音 3:16").unwrap();
    assert_eq!(r.book.name, "John");
    let r = parse("요한복음 3.16").unwrap();
    assert_eq!(r.book.name, "John");
    assert_eq!(r.verse_start, Some(16));
}

#[test]
fn test_book_names_containing_digits() {
    // Korean epistles are written with an embedded digit ("요한1서" =
    // 1 John): the digit must not be mistaken for the chapter.
    let r = parse("요한1서 5:3").unwrap();
    assert_eq!(r.book.name, "1 John");
    assert_eq!(r.chapter, 5);
    assert_eq!(r.verse_start, Some(3));

    // Bare book name with an embedded digit, no chapter.
    let r = parse("요한1서").unwrap();
    assert_eq!(r.book.name, "1 John");
    assert_eq!(r.chapter, 1);
}

#[test]
fn read_plans() {
    assert_eq!(parse("John 3:16").unwrap().read_plan(), ReadPlan::Verse(16));
    assert_eq!(parse("Ps 23:1-6").unwrap().read_plan(), ReadPlan::Range(1, 6));
    assert_eq!(parse("Genesis 1").unwrap().read_plan(), ReadPlan::Chapter);
}

#[test]
fn verse_of_the_day_walks_the_books() {
    assert_eq!(daily_chapter(0), (0, 1));
    assert_eq!(daily_chapter(1), (1, 1));
    assert_eq!(daily_chapter(66), (0, 2));
    assert_eq!(daily_chapter(66 * 50), (0, 1), "Genesis has 50 chapters");
    assert_eq!(daily_verse_index(66 * 7, 5), 2);
}

#[test]
fn display_form_parses_back_to_the_same_reference() {
    for input in [
        "John 3:16",
        "jn 3:16-18",
        "1 Cor 13",
        "1. Mose 3,16",
        "Ps 23:1-6",
        "Song of Solomon 2:4",
        "3 John 1:14",
        "Jude",
        "John 3:18-16",
        "Psalms 119:176",
    ] {
        let r = parse(input).unwrap();
        let shown = r.display();
        let back = parse(&shown).unwrap();
        assert_eq!(back.book.bolls_id, r.book.bolls_id, "{}", shown);
        assert_eq!(back.chapter, r.chapter, "{}", shown);
        assert_eq!(back.verse_start, r.verse_start, "{}", shown);
        assert_eq!(back.verse_end, r.verse_end, "{}", shown);
    }
}
