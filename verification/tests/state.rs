use christ_cli::state::SessionState;


#[test]
fn default_session_is_kjv_genesis_1() {
    // Default::default() must match serde defaults — derive(Default)
    // left translation as "" and chapter as 0, so a fresh install
    // skipped the bundled KJV path and showed an empty scripture panel.
    let state = SessionState::default();
    assert_eq!(state.translation, "KJV");
    assert_eq!(state.chapter, 1);
    assert_eq!(state.book_index, 0);
}
