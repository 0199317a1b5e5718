use christ_cli::clipboard::{base64_encode, copy_outcome, osc52_sequence};


#[test]
fn base64_matches_known_vectors() {
    assert_eq!(base64_encode(b""), "");
    assert_eq!(base64_encode(b"f"), "Zg==");
    assert_eq!(base64_encode(b"fo"), "Zm8=");
    assert_eq!(base64_encode(b"foo"), "Zm9v");
    assert_eq!(base64_encode(b"foob"), "Zm9vYg==");
    assert_eq!(base64_encode(b"fooba"), "Zm9vYmE=");
    assert_eq!(base64_encode(b"foobar"), "Zm9vYmFy");
    assert_eq!(
        base64_encode("João 3:16".as_bytes()),
        "Sm/Do28gMzoxNg=="
    );
}

#[test]
fn base64_takes_four_chars_per_three_bytes() {
    for n in 0..12usize {
        let data = vec![0xabu8; n];
        assert_eq!(base64_encode(&data).len(), 4 * ((n + 2) / 3));
    }
    assert_eq!(base64_encode(&[0xff, 0xfe, 0xfd]), "//79");
}

#[test]
fn osc52_wraps_the_base64() {
    assert_eq!(osc52_sequence("foo"), "\u{1b}]52;c;Zm9v\u{07}");
}

#[test]
fn copying_fails_only_when_both_ways_fail() {
    assert!(copy_outcome(true, false).is_ok());
    assert!(copy_outcome(false, true).is_ok());
    assert_eq!(copy_outcome(false, false), Err("clipboard unavailable".to_string()));
}
