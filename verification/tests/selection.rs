use silex_mcp::selection::{Notification, SelectionState};

#[test]
fn selection_state_follows_notifications() {
    let mut state = SelectionState::new();
    assert_eq!(state.current_project_id(), None);
    assert_eq!(state.current_project_name(), None);
    assert!(!state.dirty());
    assert!(!state.has_project());

    state.notify(Notification::Opened { id: "abc".to_string(), name: "My Site".to_string() });
    assert_eq!(state.current_project_id(), Some("abc".to_string()));
    assert_eq!(state.current_project_name(), Some("My Site".to_string()));
    assert!(!state.dirty());

    state.notify(Notification::Mutated);
    assert!(state.dirty());
    assert_eq!(state.current_project_id(), Some("abc".to_string()));

    state.notify(Notification::Closed);
    assert_eq!(state.current_project_id(), None);
    assert_eq!(state.current_project_name(), None);
    assert!(!state.dirty());
}

#[test]
fn opening_another_project_clears_the_dirty_flag() {
    let mut state = SelectionState::new();
    state.set_current_project("a".to_string(), "A".to_string());
    state.mark_unsaved();
    assert!(state.dirty());
    state.set_current_project("b".to_string(), "B".to_string());
    assert!(!state.dirty());
    assert_eq!(state.current_project_id(), Some("b".to_string()));
    state.clear_current_project();
    assert!(!state.has_project());
}

#[test]
fn window_title_shows_project_and_changes() {
    let mut state = SelectionState::new();
    assert_eq!(state.window_title(), "Silex");
    state.set_current_project("abc".to_string(), "Blog".to_string());
    assert_eq!(state.window_title(), "Blog \u{2014} Silex");
    state.mark_unsaved();
    assert_eq!(state.window_title(), "\u{2022} Blog \u{2014} Silex");
    state.clear_current_project();
    assert_eq!(state.window_title(), "Silex");
    state.mark_unsaved();
    assert!(state.dirty());
    assert_eq!(state.window_title(), "Silex");
}
