//! The executable menus, one per mode, and the dispatcher that selects the
//! active one. Each handler is proved to perform exactly the transition the
//! `step` model prescribes.

use vstd::prelude::*;

use crate::events::{Action, AppEvent, Key};
use crate::selection::{
    select_first, select_last, select_middle, select_next, select_previous,
};
use crate::state::{AppState, Config, Mode};
use crate::step::{
    clear_notification_step, config_loaded_step, config_saved_step, lemma_continuations_preserve_inv,
    lemma_step_preserves_inv, show_notification_step, step,
};
use vstd::string::StringExecFns;

verus! {

/// Relies on std's `String::push`: appends exactly the one character.
#[verifier::external_body]
fn push_char(s: &mut String, c: char)
    ensures
        final(s)@ == old(s)@.push(c),
{
    s.push(c);
}

/// Relies on std's `String::pop`: removes the last character, if any.
#[verifier::external_body]
fn pop_char(s: &mut String)
    ensures
        old(s)@.len() == 0 ==> final(s)@ == old(s)@,
        old(s)@.len() > 0 ==> final(s)@ == old(s)@.drop_last(),
{
    let _ = s.pop();
}

/// Show `message` and hand back the timer-start the driver owes it.
pub fn show_notification(state: &mut AppState, message: String) -> (action: Action)
    requires
        old(state).notification_generation < u64::MAX,
    ensures
        (final(state)@, action@) == show_notification_step(old(state)@, message@),
{
    state.notification_generation = state.notification_generation + 1;
    state.notification = Some(message);
    Action::StartClearTimer(state.notification_generation)
}

/// Apply a delayed clear if and only if its captured generation is still
/// the live one.
pub fn clear_notification(state: &mut AppState, generation: u64) -> (action: Action)
    ensures
        (final(state)@, action@) == clear_notification_step(old(state)@, generation as nat),
{
    if generation == state.notification_generation {
        state.notification = None;
    }
    Action::Idle
}

/// Edit the pending text input with one key: printable characters extend
/// it, Backspace shortens it; anything else leaves it alone.
fn edit_buffer(state: &mut AppState, key: Key)
    ensures
        final(state)@ == (buffer_edited(old(state)@, key)),
{
    match key {
        Key::Char(c) => push_char(&mut state.input_buffer, c),
        Key::Backspace => pop_char(&mut state.input_buffer),
        _ => {},
    }
}

/// The state after `edit_buffer`.
spec fn buffer_edited(s: crate::state::AppStateView, key: Key)
    -> crate::state::AppStateView {
    match key {
        Key::Char(c) => crate::state::AppStateView { input_buffer: s.input_buffer.push(c), ..s },
        Key::Backspace => crate::state::AppStateView {
            input_buffer: if s.input_buffer.len() == 0 {
                s.input_buffer
            } else {
                s.input_buffer.drop_last()
            },
            ..s
        },
        _ => s,
    }
}

/// Discard the pending text input and resume session-list mode.
fn cancel_to_sessions(state: &mut AppState)
    ensures
        final(state)@ == (crate::state::AppStateView {
            input_buffer: Seq::empty(),
            mode: Mode::Sessions,
            ..old(state)@
        }),
{
    state.input_buffer = String::new();
    state.mode = Mode::Sessions;
}

/// A menu consumes events while its mode is active, mutates the shared
/// state, and hands back the outside action the driver must perform. Each
/// implementation performs exactly the transition the `step` model
/// prescribes for its mode.
pub trait Menu: Sized {
    /// The mode whose input this menu owns.
    spec fn owns(&self) -> Mode;

    fn handle_event(&mut self, event: AppEvent, state: &mut AppState) -> (action: Action)
        requires
            old(state)@.inv(),
            old(state).notification_generation < u64::MAX,
            old(state).mode == old(self).owns(),
        ensures
            (final(state)@, action@) == step(old(state)@, event@),
            final(state)@.inv(),
    ;
}

pub struct SessionsMenu;

pub struct CreateMenu;

pub struct RenameMenu;

pub struct DeleteMenu;

pub struct PresetsMenu;

pub struct SetDefaultPresetMenu;

impl Menu for SessionsMenu {
    open spec fn owns(&self) -> Mode {
        Mode::Sessions
    }

    fn handle_event(&mut self, event: AppEvent, state: &mut AppState) -> (action: Action) {
        let ghost pre = old(state)@;
        let ghost ev = event@;
        let action = match event {
            AppEvent::Key(k) => match k {
                Key::CtrlC => {
                    state.exit = true;
                    Action::Idle
                },
                Key::Down => {
                    state.selected_session = select_next(state.selected_session, state.sessions.len());
                    Action::Idle
                },
                Key::Up => {
                    state.selected_session = select_previous(state.selected_session, state.sessions.len());
                    Action::Idle
                },
                Key::Tab => {
                    state.mode = Mode::Presets;
                    Action::Idle
                },
                Key::Enter => match state.selected_session {
                    Some(i) => Action::SwitchSession(state.sessions[i].name.clone()),
                    None => Action::Idle,
                },
                Key::Char(c) => {
                    if c == 'q' {
                        state.exit = true;
                        Action::Idle
                    } else if c == 'j' {
                        state.selected_session = select_next(state.selected_session, state.sessions.len());
                        Action::Idle
                    } else if c == 'k' {
                        state.selected_session = select_previous(state.selected_session, state.sessions.len());
                        Action::Idle
                    } else if c == 'g' {
                        state.selected_session = select_first(state.sessions.len());
                        Action::Idle
                    } else if c == 'G' {
                        state.selected_session = select_last(state.sessions.len());
                        Action::Idle
                    } else if c == 'M' {
                        state.selected_session = select_middle(state.sessions.len());
                        Action::Idle
                    } else if c == 'a' {
                        state.mode = Mode::Create;
                        Action::Idle
                    } else if c == 'r' {
                        state.mode = Mode::Rename;
                        Action::Idle
                    } else if c == 'd' {
                        state.mode = Mode::Delete;
                        Action::Idle
                    } else {
                        Action::Idle
                    }
                },
                _ => Action::Idle,
            },
            AppEvent::ShowNotification(m) => show_notification(state, m),
            AppEvent::ClearNotification(g) => clear_notification(state, g),
        };
        proof {
            lemma_step_preserves_inv(pre, ev);
        }
        action
    }
}

impl Menu for CreateMenu {
    open spec fn owns(&self) -> Mode {
        Mode::Create
    }

    fn handle_event(&mut self, event: AppEvent, state: &mut AppState) -> (action: Action) {
        let ghost pre = old(state)@;
        let ghost ev = event@;
        let action = match event {
            AppEvent::Key(k) => match k {
                Key::CtrlC => {
                    state.exit = true;
                    Action::Idle
                },
                Key::Esc => {
                    cancel_to_sessions(state);
                    Action::Idle
                },
                Key::Enter => {
                    if state.input_buffer.as_str().is_empty() {
                        Action::Notify("Session name cannot be empty".to_owned())
                    } else {
                        let name = state.input_buffer.clone();
                        cancel_to_sessions(state);
                        Action::CreateSession(name)
                    }
                },
                _ => {
                    edit_buffer(state, k);
                    Action::Idle
                },
            },
            AppEvent::ShowNotification(m) => show_notification(state, m),
            AppEvent::ClearNotification(g) => clear_notification(state, g),
        };
        proof {
            lemma_step_preserves_inv(pre, ev);
        }
        action
    }
}

impl Menu for RenameMenu {
    open spec fn owns(&self) -> Mode {
        Mode::Rename
    }

    fn handle_event(&mut self, event: AppEvent, state: &mut AppState) -> (action: Action) {
        let ghost pre = old(state)@;
        let ghost ev = event@;
        let action = match event {
            AppEvent::Key(k) => match k {
                Key::CtrlC => {
                    state.exit = true;
                    Action::Idle
                },
                Key::Esc => {
                    cancel_to_sessions(state);
                    Action::Idle
                },
                Key::Enter => {
                    let act = match state.selected_session {
                        Some(i) => Action::RenameSession {
                            from: state.sessions[i].name.clone(),
                            to: state.input_buffer.clone(),
                        },
                        None => Action::Idle,
                    };
                    cancel_to_sessions(state);
                    act
                },
                _ => {
                    edit_buffer(state, k);
                    Action::Idle
                },
            },
            AppEvent::ShowNotification(m) => show_notification(state, m),
            AppEvent::ClearNotification(g) => clear_notification(state, g),
        };
        proof {
            lemma_step_preserves_inv(pre, ev);
        }
        action
    }
}

impl Menu for DeleteMenu {
    open spec fn owns(&self) -> Mode {
        Mode::Delete
    }

    fn handle_event(&mut self, event: AppEvent, state: &mut AppState) -> (action: Action) {
        let ghost pre = old(state)@;
        let ghost ev = event@;
        let action = match event {
            AppEvent::Key(k) => match k {
                Key::CtrlC => {
                    state.exit = true;
                    Action::Idle
                },
                Key::Enter => {
                    let act = confirmed_delete(state);
                    state.mode = Mode::Sessions;
                    act
                },
                Key::Esc => {
                    state.mode = Mode::Sessions;
                    Action::Idle
                },
                Key::Char(c) => {
                    if c == 'y' {
                        let act = confirmed_delete(state);
                        state.mode = Mode::Sessions;
                        act
                    } else if c == 'n' {
                        state.mode = Mode::Sessions;
                        Action::Idle
                    } else {
                        Action::Idle
                    }
                },
                _ => Action::Idle,
            },
            AppEvent::ShowNotification(m) => show_notification(state, m),
            AppEvent::ClearNotification(g) => clear_notification(state, g),
        };
        proof {
            lemma_step_preserves_inv(pre, ev);
        }
        action
    }
}

/// The delete a confirmation asks for: the selected session, if the
/// selection is valid.
fn confirmed_delete(state: &AppState) -> (action: Action)
    requires
        state@.inv(),
    ensures
        action@ == (match state@.selected_session {
            Some(i) => if 0 <= i < state@.sessions.len() {
                crate::events::ActionView::DeleteSession(state@.sessions[i].name)
            } else {
                crate::events::ActionView::Idle
            },
            None => crate::events::ActionView::Idle,
        }),
{
    match state.selected_session {
        Some(i) => Action::DeleteSession(state.sessions[i].name.clone()),
        None => Action::Idle,
    }
}

impl Menu for PresetsMenu {
    open spec fn owns(&self) -> Mode {
        Mode::Presets
    }

    fn handle_event(&mut self, event: AppEvent, state: &mut AppState) -> (action: Action) {
        let ghost pre = old(state)@;
        let ghost ev = event@;
        let action = match event {
            AppEvent::Key(k) => match k {
                Key::CtrlC => {
                    state.exit = true;
                    Action::Idle
                },
                Key::Down => {
                    state.selected_preset = select_next(state.selected_preset, state.presets.len());
                    Action::Idle
                },
                Key::Up => {
                    state.selected_preset = select_previous(state.selected_preset, state.presets.len());
                    Action::Idle
                },
                Key::Tab => {
                    state.mode = Mode::Sessions;
                    Action::Idle
                },
                // Launching the selected preset from here is an open
                // question, so Enter is a disabled placeholder.
                Key::Enter => Action::Idle,
                Key::Char(c) => {
                    if c == 'q' {
                        state.exit = true;
                        Action::Idle
                    } else if c == 'j' {
                        state.selected_preset = select_next(state.selected_preset, state.presets.len());
                        Action::Idle
                    } else if c == 'k' {
                        state.selected_preset = select_previous(state.selected_preset, state.presets.len());
                        Action::Idle
                    } else if c == 'g' {
                        state.selected_preset = select_first(state.presets.len());
                        Action::Idle
                    } else if c == 'G' {
                        state.selected_preset = select_last(state.presets.len());
                        Action::Idle
                    } else if c == 'M' {
                        state.selected_preset = select_middle(state.presets.len());
                        Action::Idle
                    } else if c == 's' {
                        state.mode = Mode::SetDefaultPreset;
                        Action::Idle
                    } else {
                        Action::Idle
                    }
                },
                _ => Action::Idle,
            },
            AppEvent::ShowNotification(m) => show_notification(state, m),
            AppEvent::ClearNotification(g) => clear_notification(state, g),
        };
        proof {
            lemma_step_preserves_inv(pre, ev);
        }
        action
    }
}

impl Menu for SetDefaultPresetMenu {
    open spec fn owns(&self) -> Mode {
        Mode::SetDefaultPreset
    }

    fn handle_event(&mut self, event: AppEvent, state: &mut AppState) -> (action: Action) {
        let ghost pre = old(state)@;
        let ghost ev = event@;
        let action = match event {
            AppEvent::Key(k) => match k {
                Key::CtrlC => {
                    state.exit = true;
                    Action::Idle
                },
                Key::Esc => {
                    cancel_to_sessions(state);
                    Action::Idle
                },
                Key::Enter => {
                    if state.input_buffer.as_str().is_empty() {
                        Action::Notify("Preset name cannot be empty".to_owned())
                    } else {
                        Action::LoadConfig
                    }
                },
                _ => {
                    edit_buffer(state, k);
                    Action::Idle
                },
            },
            AppEvent::ShowNotification(m) => show_notification(state, m),
            AppEvent::ClearNotification(g) => clear_notification(state, g),
        };
        proof {
            lemma_step_preserves_inv(pre, ev);
        }
        action
    }
}

impl SetDefaultPresetMenu {
    /// Continuation after the driver loaded the configuration for a
    /// submitted default-preset name.
    pub fn on_config_loaded(state: &mut AppState, result: Result<Config, String>) -> (action:
        Action)
        requires
            old(state)@.inv(),
        ensures
            (final(state)@, action@) == config_loaded_step(
                old(state)@,
                crate::events::config_result_view(result),
            ),
            final(state)@.inv(),
    {
        let ghost pre = old(state)@;
        let ghost rv = crate::events::config_result_view(result);
        let action = match result {
            Ok(_) => Action::SaveConfig(
                Config { default_preset: Some(state.input_buffer.clone()) },
            ),
            Err(e) => {
                let mut message = "Failed to load config: ".to_owned();
                message.append(e.as_str());
                Action::Notify(message)
            },
        };
        proof {
            lemma_continuations_preserve_inv(pre, rv, Ok(()));
        }
        action
    }

    /// Continuation after the driver saved the configuration.
    pub fn on_config_saved(state: &mut AppState, result: Result<(), String>) -> (action: Action)
        requires
            old(state)@.inv(),
        ensures
            (final(state)@, action@) == config_saved_step(
                old(state)@,
                crate::events::save_result_view(result),
            ),
            final(state)@.inv(),
    {
        let ghost pre = old(state)@;
        let ghost rv = crate::events::save_result_view(result);
        let action = match result {
            Ok(_) => {
                cancel_to_sessions(state);
                Action::Notify("Default preset saved!".to_owned())
            },
            Err(e) => {
                let mut message = "Failed to save config: ".to_owned();
                message.append(e.as_str());
                Action::Notify(message)
            },
        };
        proof {
            lemma_continuations_preserve_inv(
                pre,
                Ok(crate::state::ConfigView { default_preset: None }),
                rv,
            );
        }
        action
    }
}

/// Dispatch one event to the menu owning the current mode. Exactly one
/// menu is active at a time, selected by `mode`.
pub fn dispatch_event(state: &mut AppState, event: AppEvent) -> (action: Action)
    requires
        old(state)@.inv(),
        old(state).notification_generation < u64::MAX,
    ensures
        (final(state)@, action@) == step(old(state)@, event@),
        final(state)@.inv(),
{
    match state.mode {
        Mode::Sessions => {
            let mut menu = SessionsMenu;
            menu.handle_event(event, state)
        },
        Mode::Create => {
            let mut menu = CreateMenu;
            menu.handle_event(event, state)
        },
        Mode::Rename => {
            let mut menu = RenameMenu;
            menu.handle_event(event, state)
        },
        Mode::Delete => {
            let mut menu = DeleteMenu;
            menu.handle_event(event, state)
        },
        Mode::Presets => {
            let mut menu = PresetsMenu;
            menu.handle_event(event, state)
        },
        Mode::SetDefaultPreset => {
            let mut menu = SetDefaultPresetMenu;
            menu.handle_event(event, state)
        },
    }
}

} // verus!
