use christ_cli::markup::strip_markup;

#[test]
fn strongs_numbers_go_with_their_content() {
    assert_eq!(
        strip_markup("In the beginning<S>7225</S> God<S>430</S> created"),
        "In the beginning God created"
    );
}

#[test]
fn other_tags_go() {
    assert_eq!(strip_markup("For <i>God</i> so<br/> loved"), "For God so loved");
    assert_eq!(strip_markup("plain text"), "plain text");
    assert_eq!(strip_markup("open <tag never closed"), "open ");
    assert_eq!(strip_markup("x<S>1 never closed"), "x");
}
