use muffin::events::{Action, AppEvent, Key};
use muffin::menus::{dispatch_event, SetDefaultPresetMenu};
use muffin::state::{AppState, Config, Mode, Preset};

fn preset_state() -> AppState {
    let mut state = AppState::new(
        vec![],
        vec![Preset { name: "work".to_string(), window_count: 2, active: false }],
    );
    state.mode = Mode::Presets;
    state
}

fn key(state: &mut AppState, k: Key) -> Action {
    dispatch_event(state, AppEvent::Key(k))
}

#[test]
fn empty_default_preset_submission_never_saves() {
    let mut state = preset_state();
    key(&mut state, Key::Char('s'));
    assert_eq!(state.mode, Mode::SetDefaultPreset);
    let action = key(&mut state, Key::Enter);
    assert_eq!(
        action,
        Action::Notify("Preset name cannot be empty".to_string())
    );
    assert_eq!(state.mode, Mode::SetDefaultPreset);
}

#[test]
fn non_empty_submission_asks_for_the_config() {
    let mut state = preset_state();
    key(&mut state, Key::Char('s'));
    key(&mut state, Key::Char('w'));
    let action = key(&mut state, Key::Enter);
    assert_eq!(action, Action::LoadConfig);
    assert_eq!(state.input_buffer, "w");
}

#[test]
fn loaded_config_is_saved_with_submitted_default() {
    let mut state = preset_state();
    key(&mut state, Key::Char('s'));
    key(&mut state, Key::Char('w'));
    key(&mut state, Key::Enter);
    let action = SetDefaultPresetMenu::on_config_loaded(
        &mut state,
        Ok(Config { default_preset: None }),
    );
    assert_eq!(
        action,
        Action::SaveConfig(Config { default_preset: Some("w".to_string()) })
    );
}

#[test]
fn failed_config_load_only_notifies() {
    let mut state = preset_state();
    key(&mut state, Key::Char('s'));
    key(&mut state, Key::Char('w'));
    key(&mut state, Key::Enter);
    let action =
        SetDefaultPresetMenu::on_config_loaded(&mut state, Err("no permission".to_string()));
    assert_eq!(
        action,
        Action::Notify("Failed to load config: no permission".to_string())
    );
    assert_eq!(state.mode, Mode::SetDefaultPreset);
}

#[test]
fn successful_save_confirms_and_returns_to_sessions() {
    let mut state = preset_state();
    key(&mut state, Key::Char('s'));
    key(&mut state, Key::Char('w'));
    key(&mut state, Key::Enter);
    let action = SetDefaultPresetMenu::on_config_saved(&mut state, Ok(()));
    assert_eq!(action, Action::Notify("Default preset saved!".to_string()));
    assert_eq!(state.mode, Mode::Sessions);
    assert_eq!(state.input_buffer, "");
}

#[test]
fn failed_save_only_notifies() {
    let mut state = preset_state();
    key(&mut state, Key::Char('s'));
    key(&mut state, Key::Char('w'));
    key(&mut state, Key::Enter);
    let action = SetDefaultPresetMenu::on_config_saved(&mut state, Err("disk full".to_string()));
    assert_eq!(
        action,
        Action::Notify("Failed to save config: disk full".to_string())
    );
    assert_eq!(state.mode, Mode::SetDefaultPreset);
    assert_eq!(state.input_buffer, "w");
}

#[test]
fn escape_leaves_the_prompt_without_persisting() {
    let mut state = preset_state();
    key(&mut state, Key::Char('s'));
    key(&mut state, Key::Char('w'));
    let action = key(&mut state, Key::Esc);
    assert_eq!(action, Action::Idle);
    assert_eq!(state.mode, Mode::Sessions);
    assert_eq!(state.input_buffer, "");
}
