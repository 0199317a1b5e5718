use christ_cli::wrap::{wrap_text, wrapped_height};


#[test]
fn short_text_single_line() {
    assert_eq!(wrap_text("hello world", 20), vec!["hello world"]);
}

#[test]
fn wraps_at_word_boundary() {
    assert_eq!(
        wrap_text("For God so loved the world", 10),
        vec!["For God so", "loved the", "world"]
    );
}

#[test]
fn hard_breaks_long_word() {
    assert_eq!(wrap_text("abcdefghij", 4), vec!["abcd", "efgh", "ij"]);
}

#[test]
fn cjk_counts_double_width() {
    // Each CJK char is 2 columns; 4 columns fit 2 chars.
    assert_eq!(wrap_text("神愛世人", 4), vec!["神愛", "世人"]);
}

#[test]
fn empty_text_yields_one_empty_line() {
    assert_eq!(wrap_text("", 10), vec![""]);
    assert_eq!(wrapped_height("", 10), 1);
}

#[test]
fn zero_width_does_not_loop() {
    assert_eq!(wrap_text("abc", 0), vec!["abc"]);
}

// ---------------------------------------------------------------------------
// Row tracking
// ---------------------------------------------------------------------------

use christ_cli::wrap::RowTracker;

#[test]
fn tracker_counts_the_rows_wrap_text_gives() {
    for (text, width) in [
        ("For God so loved the world", 10),
        ("abcdefghij", 4),
        ("神愛世人", 4),
        ("In the beginning God created the heaven and the earth.", 7),
        ("", 5),
        ("a bb ccc dddd eeeee", 1),
    ] {
        let mut t = RowTracker::new(width);
        t.push_text(text);
        assert_eq!(t.total_rows(), wrapped_height(text, width), "{:?} at {}", text, width);
    }
}

#[test]
fn tracker_continues_across_pushes() {
    let mut t = RowTracker::new(10);
    assert_eq!(t.row(), 0);
    t.push_text("For God so");
    assert_eq!(t.row(), 0);
    t.push_text("loved the");
    assert_eq!(t.row(), 1);
    t.push_text("world");
    assert_eq!(t.row(), 2);
    assert_eq!(t.total_rows(), 3);
}

#[test]
fn tracker_width_zero_counts_as_one_column() {
    let mut t = RowTracker::new(0);
    t.push_text("ab");
    assert_eq!(t.total_rows(), 2);
}

#[test]
fn wrapped_height_counts_lines() {
    assert_eq!(wrapped_height("For God so loved the world", 10), 3);
    assert_eq!(wrapped_height("abc", 0), 1);
}

#[test]
fn pushing_two_texts_is_pushing_them_joined() {
    for (a, b, w) in [("For God so", "loved the world", 10), ("abcdefghij", "kl mn", 4), ("", "x y", 3)] {
        let mut t1 = RowTracker::new(w);
        t1.push_text(a);
        t1.push_text(b);
        let mut t2 = RowTracker::new(w);
        t2.push_text(&format!("{} {}", a, b));
        assert_eq!(t1.row(), t2.row());
        t1.push_text("and more words here");
        t2.push_text("and more words here");
        assert_eq!(t1.row(), t2.row());
    }
}

#[test]
fn rows_never_go_back_and_blanks_change_nothing() {
    let mut t = RowTracker::new(6);
    let mut last = t.row();
    for piece in ["In the", "beginning", "God created", "the heaven"] {
        t.push_text(piece);
        assert!(t.row() >= last);
        last = t.row();
    }
    t.push_text(" \t\n\u{3000} ");
    assert_eq!(t.row(), last);
    t.push_text("and");
    assert_eq!(t.row(), last + 1, "the blank push left the line as it was");
}

#[test]
fn tracker_matches_wrap_on_ascii_text_at_every_width() {
    let text = "In the beginning God created the heaven and the earth.\tAnd the earth was without form, and void;\nand darkness was upon the face of the deep.";
    for width in 1..40usize {
        let mut t = RowTracker::new(width);
        t.push_text(text);
        assert_eq!(t.total_rows(), wrapped_height(text, width), "at {}", width);
        assert_eq!(t.row() + 1, wrap_text(text, width).len(), "at {}", width);
    }
}
