use christ_cli::types::{verse_copy, verses_between, Verse};

fn verse(n: u32) -> Verse {
    Verse {
        book: "Psalms".to_string(),
        chapter: 23,
        verse: n,
        text: format!("line {}", n),
        translation: "KJV".to_string(),
    }
}

#[test]
fn verses_between_keeps_the_range_in_order() {
    let vs: Vec<Verse> = vec![verse(1), verse(2), verse(4), verse(5), verse(6)];
    let picked = verses_between(&vs, 2, 5);
    let numbers: Vec<u32> = picked.iter().map(|v| v.verse).collect();
    assert_eq!(numbers, vec![2, 4, 5]);
    assert!(verses_between(&vs, 7, 9).is_empty());
    assert_eq!(verses_between(&vs, 6, 6)[0].text, "line 6");
}

#[test]
fn verse_copy_is_equal() {
    let v = verse(3);
    assert_eq!(verse_copy(&v), v);
}
