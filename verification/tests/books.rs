use christ_cli::books::{book, canon, normalize_book};


#[test]
fn test_full_name() {
    assert_eq!(normalize_book("Genesis").unwrap().name, "Genesis");
    assert_eq!(normalize_book("revelation").unwrap().name, "Revelation");
}

#[test]
fn books_test_abbreviation() {
    assert_eq!(normalize_book("gen").unwrap().name, "Genesis");
    assert_eq!(normalize_book("jn").unwrap().name, "John");
    assert_eq!(normalize_book("rev").unwrap().name, "Revelation");
    assert_eq!(normalize_book("ps").unwrap().name, "Psalms");
}

#[test]
fn test_numbered_books() {
    assert_eq!(normalize_book("1cor").unwrap().name, "1 Corinthians");
    assert_eq!(normalize_book("2sam").unwrap().name, "2 Samuel");
    assert_eq!(normalize_book("1jn").unwrap().name, "1 John");
}

#[test]
fn test_prefix_match() {
    assert_eq!(normalize_book("gene").unwrap().name, "Genesis");
    assert_eq!(normalize_book("matt").unwrap().name, "Matthew");
}

#[test]
fn test_case_insensitive() {
    assert_eq!(normalize_book("JOHN").unwrap().name, "John");
    assert_eq!(normalize_book("GEN").unwrap().name, "Genesis");
}

#[test]
fn test_invalid() {
    assert!(normalize_book("notabook").is_none());
    assert!(normalize_book("xyz").is_none());
}

#[test]
fn test_canon_folds_diacritics_and_punctuation() {
    assert_eq!(canon("João"), "joao");
    assert_eq!(canon("Gênesis"), "genesis");
    assert_eq!(canon("1. Mose"), "1mose");
    assert_eq!(canon("1 Corinthians"), "1corinthians");
    assert_eq!(canon("Об'явлення"), "обявлення");
    assert_eq!(canon("Cantar de los Cantares"), "cantardeloscantares");
}

#[test]
fn test_localized_names() {
    // Portuguese (the issue's motivating example)
    assert_eq!(normalize_book("João").unwrap().name, "John");
    assert_eq!(normalize_book("joao").unwrap().name, "John");
    assert_eq!(normalize_book("Jó").unwrap().name, "Job");
    assert_eq!(normalize_book("Gênesis").unwrap().name, "Genesis");
    assert_eq!(normalize_book("Apocalipse").unwrap().name, "Revelation");
    // Spanish
    assert_eq!(normalize_book("Santiago").unwrap().name, "James");
    assert_eq!(normalize_book("Cantares").unwrap().name, "Song of Solomon");
    // German
    assert_eq!(normalize_book("1. Mose").unwrap().name, "Genesis");
    assert_eq!(normalize_book("Offenbarung").unwrap().name, "Revelation");
    // French
    assert_eq!(normalize_book("Genèse").unwrap().name, "Genesis");
    // Ukrainian
    assert_eq!(normalize_book("Буття").unwrap().name, "Genesis");
    assert_eq!(normalize_book("Об'явлення").unwrap().name, "Revelation");
    // Russian (Synodal numbering: 4 Царств is 2 Kings)
    assert_eq!(normalize_book("Бытие").unwrap().name, "Genesis");
    assert_eq!(normalize_book("4 Царств").unwrap().name, "2 Kings");
    // CJK
    assert_eq!(normalize_book("約翰福音").unwrap().name, "John");
    assert_eq!(normalize_book("约翰福音").unwrap().name, "John");
    assert_eq!(normalize_book("요한복음").unwrap().name, "John");
    assert_eq!(normalize_book("ヨハネによる福音書").unwrap().name, "John");
}

#[test]
fn test_english_still_wins_over_localized() {
    // "jo" could prefix-match localized names, but stays unmatched-or-
    // exact: English abbrevs must never be shadowed.
    assert_eq!(normalize_book("jn").unwrap().name, "John");
    assert_eq!(normalize_book("ez").unwrap().name, "Ezra");
    assert_eq!(normalize_book("mc").unwrap().name, "Micah");
}

#[test]
fn test_portuguese_jo_is_john_but_accented_jo_is_job() {
    // "Jo" is the standard Portuguese abbreviation for João (John);
    // only the accented "Jó" is the book of Job.
    assert_eq!(normalize_book("Jo").unwrap().name, "John");
    assert_eq!(normalize_book("jo").unwrap().name, "John");
    assert_eq!(normalize_book("Jó").unwrap().name, "Job");
    assert_eq!(normalize_book("jó").unwrap().name, "Job");
}

#[test]
fn test_ambiguous_cross_language_prefix_is_rejected() {
    // "1 Цар" is 1 Samuel to a Russian reader (1 Царств) but prefixes
    // Ukrainian 1 Kings (1 Царів): refusing beats silently guessing.
    assert!(normalize_book("1 Цар").is_none());
    // One more letter disambiguates.
    assert_eq!(normalize_book("1 Царс").unwrap().name, "1 Samuel");
    assert_eq!(normalize_book("1 Царі").unwrap().name, "1 Kings");
}

#[test]
fn test_cyrillic_ordinal_forms() {
    assert_eq!(normalize_book("1-а Царів").unwrap().name, "1 Kings");
    assert_eq!(normalize_book("1-ше Івана").unwrap().name, "1 John");
    assert_eq!(normalize_book("1-я Царств").unwrap().name, "1 Samuel");
    assert_eq!(normalize_book("2-е Петра").unwrap().name, "2 Peter");
}

#[test]
fn test_nfd_normalized_input() {
    // "João" with the tilde as a combining mark (macOS file paths,
    // some PDFs) must fold the same as the precomposed form.
    assert_eq!(normalize_book("Joa\u{0303}o").unwrap().name, "John");
    assert_eq!(normalize_book("Ge\u{0302}nesis").unwrap().name, "Genesis");
}

// ---------------------------------------------------------------------------
// Laws of the canonical forms, on examples
// ---------------------------------------------------------------------------

#[test]
fn canon_twice_is_canon_once_for_ascii() {
    for s in [" 1. John ", "Song of Solomon", "JOHN", "1-john", "Ps.", "a'b-c d.e"] {
        assert_eq!(canon(&canon(s)), canon(s), "{:?}", s);
    }
}

#[test]
fn strict_and_folded_agree_on_ascii() {
    for s in [" 1. John ", "Song of Solomon", "JOHN", "Ps."] {
        assert_eq!(christ_cli::books::canon_strict(s), canon(s), "{:?}", s);
    }
    assert_ne!(christ_cli::books::canon_strict("João"), canon("João"));
}

#[test]
fn normalize_depends_on_canonical_forms() {
    let a = normalize_book(" 1.JOHN ").unwrap().name;
    assert_eq!(a, "1 John");
    assert_eq!(normalize_book("1john").unwrap().name, a);
    assert_eq!(normalize_book("1-john").unwrap().name, a);
    assert!(normalize_book(". -").is_none());
    assert!(normalize_book("  ").is_none());
}

#[test]
fn every_full_name_finds_its_own_book() {
    for i in 0..66usize {
        let b = book(i);
        assert_eq!(normalize_book(b.name).map(|x| x.bolls_id), Some(b.bolls_id), "{}", b.name);
        let upper = b.name.to_uppercase();
        assert_eq!(normalize_book(&upper).map(|x| x.bolls_id), Some(b.bolls_id), "{}", upper);
        let squeezed: String = b.name.chars().filter(|c| *c != ' ').collect();
        assert_eq!(normalize_book(&squeezed).map(|x| x.bolls_id), Some(b.bolls_id), "{}", squeezed);
    }
    assert_eq!(normalize_book("SONG OF SOLOMON").map(|x| x.bolls_id), Some(22));
    assert_eq!(normalize_book("songofsolomon").map(|x| x.bolls_id), Some(22));
}
