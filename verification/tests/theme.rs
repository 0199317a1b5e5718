use christ_cli::theme::{get_theme, Color, Rgb, ThemeName};

#[test]
fn themes_cycle_through_all_five() {
    let mut t = ThemeName::default();
    assert_eq!(t, ThemeName::Slate);
    let mut seen = Vec::new();
    for _ in 0..5 {
        seen.push(t.label());
        t = t.next();
    }
    assert_eq!(t, ThemeName::Slate, "five presses come back around");
    assert_eq!(seen, vec!["Slate", "Midnight", "Parchment", "Gospel", "Terminal"]);
}

#[test]
fn palettes_match_their_names() {
    let slate = get_theme(ThemeName::Slate);
    assert_eq!(slate.bg, Color::Rgb(Rgb { r: 15, g: 23, b: 42 }));
    assert_eq!(slate.search_match, Color::Rgb(Rgb { r: 251, g: 191, b: 36 }));
    let midnight = get_theme(ThemeName::Midnight);
    assert_eq!(midnight.bg, Color::Rgb(Rgb { r: 0, g: 0, b: 0 }));
    let parchment = get_theme(ThemeName::Parchment);
    assert_eq!(parchment.text, Color::Rgb(Rgb { r: 55, g: 47, b: 35 }));
    let gospel = get_theme(ThemeName::Gospel);
    assert_eq!(gospel.bg, Color::Rgb(Rgb { r: 255, g: 255, b: 255 }));
    assert_eq!(gospel.accent, Color::Rgb(Rgb { r: 0, g: 0, b: 0 }));
}

#[test]
fn terminal_theme_is_transparent() {
    let term = get_theme(ThemeName::Terminal);
    assert_eq!(term.bg, Color::Default);
    assert_eq!(term.surface, Color::Default);
    assert_eq!(term.text, Color::Default);
    assert_eq!(term.search_match, Color::Indexed(3));
}
