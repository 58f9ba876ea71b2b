use pane_windows::focus_state::{PaneFocusHandle, PaneGroupFocusEvent, PaneGroupFocusState};
use pane_windows::pane::{PaneId, PaneState, SplitPaneState, TerminalPaneId};

const SHELL: TerminalPaneId = TerminalPaneId(1);
const LOGS: TerminalPaneId = TerminalPaneId(2);
const A: PaneId = PaneId::Terminal(SHELL);
const B: PaneId = PaneId::Terminal(LOGS);
const NOTES: PaneId = PaneId::Other(1);

fn group(source: Option<&str>) -> PaneGroupFocusState {
    PaneGroupFocusState::new(A, Some(SHELL), true, source.map(str::to_string))
}

fn src(source: &str) -> Option<String> {
    Some(source.to_string())
}

#[test]
fn new_group_reports_what_it_was_made_with() {
    let state = group(Some("abc"));
    assert_eq!(state.focused_pane_id(), A);
    assert_eq!(state.active_session_id(), Some(SHELL));
    assert!(state.is_in_split_pane());
    assert!(!state.is_focused_pane_maximized());
    assert!(state.is_pane_focused(A));
    assert!(!state.is_pane_focused(B));
    assert_eq!(state.restore_input_source_for_pane(A), Some("abc"));
    assert_eq!(state.restore_input_source_for_pane(B), None);
}

#[test]
fn split_states_follow_the_focus() {
    let mut state = group(None);
    assert_eq!(state.split_pane_state_for(A), SplitPaneState::InSplitPane(PaneState::Focused));
    assert_eq!(state.split_pane_state_for(B), SplitPaneState::InSplitPane(PaneState::Unfocused));
    state.toggle_focused_pane_maximized();
    assert_eq!(state.split_pane_state_for(A), SplitPaneState::InSplitPane(PaneState::Maximized));
    assert_eq!(state.split_pane_state_for(B), SplitPaneState::InSplitPane(PaneState::Unfocused));
    state.set_in_split_pane_for_test(false);
    assert_eq!(state.split_pane_state_for(A), SplitPaneState::NotInSplitPane);
    assert_eq!(state.split_pane_state_for(B), SplitPaneState::NotInSplitPane);
}

#[test]
fn same_number_of_another_kind_is_another_pane() {
    let mut state = group(Some("abc"));
    assert!(!state.is_pane_focused(NOTES));
    assert_eq!(state.restore_input_source_for_pane(NOTES), None);
    let change = state.set_focused_pane(NOTES, src("def")).unwrap();
    assert_eq!(change.input_source, None);
    assert_eq!(state.restore_input_source_for_pane(A), Some("def"));
    assert_eq!(state.restore_input_source_for_pane(NOTES), None);
}

#[test]
fn moving_the_focus_clears_maximized_and_tells() {
    let mut state = group(None);
    state.set_focused_pane_maximized(true);
    let change = state.set_focused_pane(B, None).unwrap();
    assert_eq!(
        change.event,
        PaneGroupFocusEvent::FocusChanged { old_focused: A, new_focused: B }
    );
    assert_eq!(change.input_source, None);
    assert!(!state.is_focused_pane_maximized());
    assert_eq!(state.focused_pane_id(), B);
}

#[test]
fn focusing_the_focused_pane_is_silent() {
    let mut state = group(Some("abc"));
    state.set_focused_pane_maximized(true);
    assert!(state.set_focused_pane(A, src("def")).is_none());
    assert!(state.is_focused_pane_maximized());
    assert_eq!(state.restore_input_source_for_pane(A), Some("abc"));
}

#[test]
fn returning_to_a_pane_restores_its_source() {
    let mut state = group(None);
    assert_eq!(state.set_focused_pane(B, src("pinyin")).unwrap().input_source, None);
    assert_eq!(state.set_focused_pane(NOTES, src("abc")).unwrap().input_source, None);
    assert_eq!(state.set_focused_pane(A, src("emoji")).unwrap().input_source, src("pinyin"));
    assert_eq!(state.set_focused_pane(B, None).unwrap().input_source, src("abc"));
}

#[test]
fn removed_pane_has_no_source_to_return_to() {
    let mut state = group(None);
    state.set_focused_pane(B, src("pinyin"));
    state.remove_pane_input_source(A);
    assert_eq!(state.set_focused_pane(A, src("abc")).unwrap().input_source, None);
}

#[test]
fn unknown_sources_are_not_recorded() {
    let mut state = group(None);
    for pane_id in [B, A, NOTES, B, A] {
        assert_eq!(state.set_focused_pane(pane_id, None).unwrap().input_source, None);
    }
}

#[test]
fn setters_tell_only_of_changes() {
    let mut state = group(None);
    assert_eq!(state.set_active_session(Some(SHELL)), None);
    assert_eq!(
        state.set_active_session(Some(LOGS)),
        Some(PaneGroupFocusEvent::ActiveSessionChanged {
            old_active: Some(SHELL),
            new_active: Some(LOGS),
        })
    );
    assert_eq!(
        state.set_active_session(None),
        Some(PaneGroupFocusEvent::ActiveSessionChanged {
            old_active: Some(LOGS),
            new_active: None,
        })
    );
    assert_eq!(state.set_active_session(None), None);
    assert_eq!(state.set_in_split_pane(true), None);
    assert_eq!(state.set_in_split_pane(false), Some(PaneGroupFocusEvent::InSplitPaneChanged));
    assert_eq!(state.set_focused_pane_maximized(false), None);
    assert_eq!(
        state.set_focused_pane_maximized(true),
        Some(PaneGroupFocusEvent::FocusedPaneMaximizedChanged)
    );
}

#[test]
fn toggling_twice_restores_the_state() {
    let mut state = group(None);
    assert_eq!(
        state.toggle_focused_pane_maximized(),
        PaneGroupFocusEvent::FocusedPaneMaximizedChanged
    );
    assert!(state.is_focused_pane_maximized());
    state.toggle_focused_pane_maximized();
    assert!(!state.is_focused_pane_maximized());
}

#[test]
fn handle_answers_for_its_pane() {
    let mut state = group(None);
    let a = PaneFocusHandle::new(A, "shared");
    let b = a.clone();
    assert_eq!(b.pane_id(), A);
    let b = PaneFocusHandle::new(B, *b.focus_state_handle());
    let notes = PaneFocusHandle::new(NOTES, "shared");
    assert_eq!(*b.focus_state_handle(), "shared");

    assert!(a.is_focused(&state) && !b.is_focused(&state) && !notes.is_focused(&state));
    assert!(a.is_active_session(&state));
    assert!(!b.is_active_session(&state));
    assert!(!notes.is_active_session(&state));
    assert!(a.is_in_split_pane(&state));
    assert!(!a.is_maximized(&state));
    state.set_focused_pane_maximized(true);
    assert!(a.is_maximized(&state) && !b.is_maximized(&state));
    state.set_in_split_pane(false);
    assert!(!a.is_in_split_pane(&state) && !a.is_maximized(&state) && b.is_focused(&state));
    assert_eq!(a.split_pane_state(&state), SplitPaneState::NotInSplitPane);
    state.set_active_session(None);
    assert!(!a.is_active_session(&state) && !notes.is_active_session(&state));
}

#[test]
fn events_affect_the_panes_they_concern() {
    let a = PaneFocusHandle::new(A, ());
    let b = PaneFocusHandle::new(B, ());
    let notes = PaneFocusHandle::new(NOTES, ());

    let moved = PaneGroupFocusEvent::FocusChanged { old_focused: A, new_focused: NOTES };
    assert!(a.is_affected(&moved) && notes.is_affected(&moved) && !b.is_affected(&moved));

    let session = PaneGroupFocusEvent::ActiveSessionChanged {
        old_active: Some(SHELL),
        new_active: None,
    };
    assert!(a.is_affected(&session) && !b.is_affected(&session) && !notes.is_affected(&session));
    let session = PaneGroupFocusEvent::ActiveSessionChanged {
        old_active: None,
        new_active: Some(LOGS),
    };
    assert!(!a.is_affected(&session) && b.is_affected(&session) && !notes.is_affected(&session));

    for event in [
        PaneGroupFocusEvent::InSplitPaneChanged,
        PaneGroupFocusEvent::FocusedPaneMaximizedChanged,
    ] {
        assert!(a.is_affected(&event) && b.is_affected(&event) && notes.is_affected(&event));
    }
}

#[test]
fn panes_whose_state_changes_are_affected() {
    let mut state = group(None);
    let panes = [A, B, NOTES, PaneId::Other(9)];
    let before: Vec<SplitPaneState> =
        panes.iter().map(|p| state.split_pane_state_for(*p)).collect();
    let event = state.set_focused_pane(NOTES, None).unwrap().event;
    for (pane_id, old) in panes.iter().zip(before) {
        if state.split_pane_state_for(*pane_id) != old {
            assert!(PaneFocusHandle::new(*pane_id, ()).is_affected(&event));
        }
    }
    assert_eq!(state.split_pane_state_for(NOTES), SplitPaneState::InSplitPane(PaneState::Focused));
}

#[test]
fn terminal_panes_know_their_session() {
    assert_eq!(A.as_terminal_pane_id(), Some(SHELL));
    assert_eq!(NOTES.as_terminal_pane_id(), None);
}
