use pane_windows::focus_state::PaneInputSourceState;
use pane_windows::pane::PaneId;

fn dummy_pane_id() -> PaneId {
    PaneId::Other(0)
}

#[test]
fn initial_input_source_is_recorded() {
    let pane_id = dummy_pane_id();
    let state = PaneInputSourceState::with_initial_source(
        pane_id,
        Some("com.apple.keylayout.ABC".to_string()),
    );

    assert_eq!(state.get(pane_id), Some("com.apple.keylayout.ABC"));
}

#[test]
fn missing_initial_input_source_is_a_noop() {
    let pane_id = dummy_pane_id();
    let state = PaneInputSourceState::with_initial_source(pane_id, None);

    assert_eq!(state.get(pane_id), None);
}

#[test]
fn saved_input_source_can_be_restored() {
    let pane_id = dummy_pane_id();
    let mut state = PaneInputSourceState::default();

    state.set(pane_id, "com.apple.inputmethod.SCIM.ITABC".to_string());

    assert_eq!(state.get(pane_id), Some("com.apple.inputmethod.SCIM.ITABC"));
}

#[test]
fn removing_a_pane_clears_its_input_source() {
    let pane_id = dummy_pane_id();
    let mut state = PaneInputSourceState::with_initial_source(
        pane_id,
        Some("com.apple.keylayout.ABC".to_string()),
    );

    assert!(state.remove(pane_id));
    assert_eq!(state.get(pane_id), None);
    assert!(!state.remove(pane_id));
}
