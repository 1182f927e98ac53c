use muffin::events::{Action, AppEvent, Key};
use muffin::menus::dispatch_event;
use muffin::state::{AppState, Mode, Preset, Session};

fn session(name: &str, window_count: u64, active: bool) -> Session {
    Session { name: name.to_string(), window_count, active }
}

fn preset(name: &str, window_count: u64) -> Preset {
    Preset { name: name.to_string(), window_count, active: false }
}

fn two_sessions() -> AppState {
    let mut state = AppState::new(
        vec![session("work", 2, true), session("chat", 1, false)],
        vec![preset("work", 2), preset("chat", 1)],
    );
    state.selected_session = Some(0);
    state
}

fn key(state: &mut AppState, k: Key) -> Action {
    dispatch_event(state, AppEvent::Key(k))
}

#[test]
fn session_navigation_scenario() {
    let mut state = two_sessions();
    assert_eq!(state.mode, Mode::Sessions);
    key(&mut state, Key::Char('j'));
    assert_eq!(state.selected_session, Some(1));
    key(&mut state, Key::Char('j'));
    assert_eq!(state.selected_session, Some(0));
    key(&mut state, Key::Char('G'));
    assert_eq!(state.selected_session, Some(1));
    key(&mut state, Key::Char('g'));
    assert_eq!(state.selected_session, Some(0));
}

#[test]
fn delete_confirmation_scenario() {
    let mut state = two_sessions();
    state.selected_session = Some(1);
    state.mode = Mode::Delete;
    let declined = key(&mut state, Key::Char('n'));
    assert_eq!(declined, Action::Idle);
    assert_eq!(state.mode, Mode::Sessions);

    state.mode = Mode::Delete;
    let confirmed = key(&mut state, Key::Char('y'));
    assert_eq!(confirmed, Action::DeleteSession("chat".to_string()));
    assert_eq!(state.mode, Mode::Sessions);
}

#[test]
fn delete_enter_confirms_and_esc_declines() {
    let mut state = two_sessions();
    state.mode = Mode::Delete;
    let confirmed = key(&mut state, Key::Enter);
    assert_eq!(confirmed, Action::DeleteSession("work".to_string()));
    assert_eq!(state.mode, Mode::Sessions);

    state.mode = Mode::Delete;
    let declined = key(&mut state, Key::Esc);
    assert_eq!(declined, Action::Idle);
    assert_eq!(state.mode, Mode::Sessions);
}

#[test]
fn enter_switches_to_selected_session() {
    let mut state = two_sessions();
    let action = key(&mut state, Key::Enter);
    assert_eq!(action, Action::SwitchSession("work".to_string()));
}

#[test]
fn create_flow_submits_typed_name() {
    let mut state = two_sessions();
    key(&mut state, Key::Char('a'));
    assert_eq!(state.mode, Mode::Create);
    key(&mut state, Key::Char('l'));
    key(&mut state, Key::Char('o'));
    key(&mut state, Key::Char('g'));
    key(&mut state, Key::Char('x'));
    key(&mut state, Key::Backspace);
    let action = key(&mut state, Key::Enter);
    assert_eq!(action, Action::CreateSession("log".to_string()));
    assert_eq!(state.mode, Mode::Sessions);
    assert_eq!(state.input_buffer, "");
}

#[test]
fn create_with_empty_name_only_notifies() {
    let mut state = two_sessions();
    key(&mut state, Key::Char('a'));
    let action = key(&mut state, Key::Enter);
    assert_eq!(
        action,
        Action::Notify("Session name cannot be empty".to_string())
    );
    assert_eq!(state.mode, Mode::Create);
}

#[test]
fn escape_discards_pending_input() {
    let mut state = two_sessions();
    key(&mut state, Key::Char('a'));
    key(&mut state, Key::Char('z'));
    let action = key(&mut state, Key::Esc);
    assert_eq!(action, Action::Idle);
    assert_eq!(state.mode, Mode::Sessions);
    assert_eq!(state.input_buffer, "");
}

#[test]
fn rename_uses_selection_and_typed_name() {
    let mut state = two_sessions();
    state.selected_session = Some(1);
    key(&mut state, Key::Char('r'));
    assert_eq!(state.mode, Mode::Rename);
    key(&mut state, Key::Char('i'));
    key(&mut state, Key::Char('m'));
    let action = key(&mut state, Key::Enter);
    assert_eq!(
        action,
        Action::RenameSession { from: "chat".to_string(), to: "im".to_string() }
    );
    assert_eq!(state.mode, Mode::Sessions);
    assert_eq!(state.input_buffer, "");
}

#[test]
fn tab_toggles_between_top_level_modes() {
    let mut state = two_sessions();
    key(&mut state, Key::Tab);
    assert_eq!(state.mode, Mode::Presets);
    key(&mut state, Key::Tab);
    assert_eq!(state.mode, Mode::Sessions);
}

#[test]
fn preset_navigation_and_placeholder_enter() {
    let mut state = two_sessions();
    key(&mut state, Key::Tab);
    key(&mut state, Key::Char('j'));
    assert_eq!(state.selected_preset, Some(0));
    key(&mut state, Key::Char('j'));
    assert_eq!(state.selected_preset, Some(1));
    // Launching from the preset list is a disabled placeholder.
    let action = key(&mut state, Key::Enter);
    assert_eq!(action, Action::Idle);
    assert_eq!(state.mode, Mode::Presets);
}

#[test]
fn arrow_keys_and_middle_key_navigate() {
    let mut state = two_sessions();
    key(&mut state, Key::Down);
    assert_eq!(state.selected_session, Some(1));
    key(&mut state, Key::Up);
    assert_eq!(state.selected_session, Some(0));
    key(&mut state, Key::Char('M'));
    assert_eq!(state.selected_session, Some(1));
}

#[test]
fn unmapped_keys_change_nothing() {
    let mut state = two_sessions();
    let before_selected = state.selected_session;
    let action = key(&mut state, Key::Other);
    assert_eq!(action, Action::Idle);
    assert_eq!(state.selected_session, before_selected);
    assert_eq!(state.mode, Mode::Sessions);
    let action = key(&mut state, Key::Char('x'));
    assert_eq!(action, Action::Idle);
    assert_eq!(state.mode, Mode::Sessions);
}

#[test]
fn quit_and_ctrl_c_set_exit() {
    let mut state = two_sessions();
    key(&mut state, Key::Char('q'));
    assert!(state.exit);

    let mut other = two_sessions();
    other.mode = Mode::Delete;
    key(&mut other, Key::CtrlC);
    assert!(other.exit);
}

#[test]
fn notification_clears_only_for_live_generation() {
    let mut state = two_sessions();
    let shown = dispatch_event(&mut state, AppEvent::ShowNotification("A".to_string()));
    let generation_a = match shown {
        Action::StartClearTimer(g) => g,
        other => panic!("expected a clear timer, got {:?}", other),
    };
    assert_eq!(state.notification, Some("A".to_string()));
    dispatch_event(&mut state, AppEvent::ClearNotification(generation_a));
    assert_eq!(state.notification, None);
    // A stale clear after the screen emptied stays a no-op.
    dispatch_event(&mut state, AppEvent::ClearNotification(generation_a + 1));
    assert_eq!(state.notification, None);
}

#[test]
fn rapid_fire_notification_never_reverts() {
    let mut state = two_sessions();
    let first = dispatch_event(&mut state, AppEvent::ShowNotification("A".to_string()));
    let generation_a = match first {
        Action::StartClearTimer(g) => g,
        other => panic!("expected a clear timer, got {:?}", other),
    };
    let second = dispatch_event(&mut state, AppEvent::ShowNotification("B".to_string()));
    let generation_b = match second {
        Action::StartClearTimer(g) => g,
        other => panic!("expected a clear timer, got {:?}", other),
    };
    assert_ne!(generation_a, generation_b);
    // A's timer fires after B was shown: it must not clip B.
    dispatch_event(&mut state, AppEvent::ClearNotification(generation_a));
    assert_eq!(state.notification, Some("B".to_string()));
    // B's own timer clears; A's late clear finds and leaves an empty screen.
    dispatch_event(&mut state, AppEvent::ClearNotification(generation_b));
    assert_eq!(state.notification, None);
    dispatch_event(&mut state, AppEvent::ClearNotification(generation_a));
    assert_eq!(state.notification, None);
}

#[test]
fn notification_survives_key_presses_until_cleared() {
    let mut state = two_sessions();
    let shown = dispatch_event(&mut state, AppEvent::ShowNotification("A".to_string()));
    let generation = match shown {
        Action::StartClearTimer(g) => g,
        other => panic!("expected a clear timer, got {:?}", other),
    };
    key(&mut state, Key::Char('j'));
    key(&mut state, Key::Tab);
    assert_eq!(state.notification, Some("A".to_string()));
    dispatch_event(&mut state, AppEvent::ClearNotification(generation));
    assert_eq!(state.notification, None);
    key(&mut state, Key::Tab);
    assert_eq!(state.notification, None);
}

#[test]
fn initial_selection_is_first_active_session() {
    let state = AppState::new(
        vec![session("a", 1, false), session("b", 3, true), session("c", 2, true)],
        vec![],
    );
    assert_eq!(state.selected_session, Some(1));
    assert_eq!(state.mode, Mode::Sessions);
    assert_eq!(state.notification, None);
    assert!(!state.exit);

    let none_active = AppState::new(vec![session("a", 1, false)], vec![]);
    assert_eq!(none_active.selected_session, None);
}

#[test]
fn refresh_reclamps_selection_to_shrunk_list() {
    let mut state = two_sessions();
    state.selected_session = Some(1);
    state.set_sessions(vec![session("work", 2, true)]);
    assert_eq!(state.selected_session, Some(0));
    state.set_sessions(vec![]);
    assert_eq!(state.selected_session, None);
}
