//! The mathematical model of one dispatch step: what each menu does to the
//! shared state for each event, and which outside action it asks for. The
//! executable dispatch in `menus` is proved equal to this model.

use vstd::prelude::*;

use crate::events::{ActionView, AppEventView, Key};
use crate::selection::{
    lemma_navigation_in_range, sel_first, sel_last, sel_middle, sel_next, sel_previous,
};
use crate::state::{AppStateView, ConfigView, Mode};

verus! {

/// Showing a notification replaces the visible message and bumps the
/// generation; the driver is asked to start the delayed clear for exactly
/// that generation.
pub open spec fn show_notification_step(s: AppStateView, m: Seq<char>) -> (AppStateView,
    ActionView) {
    (
        AppStateView {
            notification: Some(m),
            notification_generation: s.notification_generation + 1,
            ..s
        },
        ActionView::StartClearTimer(s.notification_generation + 1),
    )
}

/// A delayed clear applies only if the generation it captured is still the
/// live one; otherwise a newer notification superseded it and it must not
/// touch the screen.
pub open spec fn clear_notification_step(s: AppStateView, g: nat) -> (AppStateView, ActionView) {
    if g == s.notification_generation {
        (AppStateView { notification: None, ..s }, ActionView::Idle)
    } else {
        (s, ActionView::Idle)
    }
}

/// Session-list mode: navigation, entering the sub-modes, switching to the
/// selected session, toggling to the preset list, quitting.
pub open spec fn sessions_key_step(s: AppStateView, k: Key) -> (AppStateView, ActionView) {
    let n = s.sessions.len() as int;
    match k {
        Key::Down => (AppStateView { selected_session: sel_next(s.selected_session, n), ..s },
            ActionView::Idle),
        Key::Up => (AppStateView { selected_session: sel_previous(s.selected_session, n), ..s },
            ActionView::Idle),
        Key::Tab => (AppStateView { mode: Mode::Presets, ..s }, ActionView::Idle),
        Key::Enter => (s, match s.selected_session {
            Some(i) => if 0 <= i < n {
                ActionView::SwitchSession(s.sessions[i].name)
            } else {
                ActionView::Idle
            },
            None => ActionView::Idle,
        }),
        Key::Char(c) => if c == 'q' {
            (AppStateView { exit: true, ..s }, ActionView::Idle)
        } else if c == 'j' {
            (AppStateView { selected_session: sel_next(s.selected_session, n), ..s },
                ActionView::Idle)
        } else if c == 'k' {
            (AppStateView { selected_session: sel_previous(s.selected_session, n), ..s },
                ActionView::Idle)
        } else if c == 'g' {
            (AppStateView { selected_session: sel_first(n), ..s }, ActionView::Idle)
        } else if c == 'G' {
            (AppStateView { selected_session: sel_last(n), ..s }, ActionView::Idle)
        } else if c == 'M' {
            (AppStateView { selected_session: sel_middle(n), ..s }, ActionView::Idle)
        } else if c == 'a' {
            (AppStateView { mode: Mode::Create, ..s }, ActionView::Idle)
        } else if c == 'r' {
            (AppStateView { mode: Mode::Rename, ..s }, ActionView::Idle)
        } else if c == 'd' {
            (AppStateView { mode: Mode::Delete, ..s }, ActionView::Idle)
        } else {
            (s, ActionView::Idle)
        },
        _ => (s, ActionView::Idle),
    }
}

/// Create mode: collect a name; Enter submits it to the backend when it is
/// non-empty, an empty submission only produces an error notification;
/// Esc discards the pending input.
pub open spec fn create_key_step(s: AppStateView, k: Key) -> (AppStateView, ActionView) {
    match k {
        Key::Esc => (AppStateView { input_buffer: Seq::empty(), mode: Mode::Sessions, ..s },
            ActionView::Idle),
        Key::Enter => if s.input_buffer.len() == 0 {
            (s, ActionView::Notify("Session name cannot be empty"@))
        } else {
            (AppStateView { input_buffer: Seq::empty(), mode: Mode::Sessions, ..s },
                ActionView::CreateSession(s.input_buffer))
        },
        Key::Char(c) => (AppStateView { input_buffer: s.input_buffer.push(c), ..s },
            ActionView::Idle),
        Key::Backspace => (AppStateView {
            input_buffer: if s.input_buffer.len() == 0 {
                s.input_buffer
            } else {
                s.input_buffer.drop_last()
            },
            ..s
        }, ActionView::Idle),
        _ => (s, ActionView::Idle),
    }
}

/// Rename mode: collect a name; Enter renames the selected session if the
/// selection is valid and is a no-op otherwise; either way the pending
/// input is discarded and session-list mode resumes.
pub open spec fn rename_key_step(s: AppStateView, k: Key) -> (AppStateView, ActionView) {
    let n = s.sessions.len() as int;
    match k {
        Key::Esc => (AppStateView { input_buffer: Seq::empty(), mode: Mode::Sessions, ..s },
            ActionView::Idle),
        Key::Enter => (
            AppStateView { input_buffer: Seq::empty(), mode: Mode::Sessions, ..s },
            match s.selected_session {
                Some(i) => if 0 <= i < n {
                    ActionView::RenameSession { from: s.sessions[i].name, to: s.input_buffer }
                } else {
                    ActionView::Idle
                },
                None => ActionView::Idle,
            },
        ),
        Key::Char(c) => (AppStateView { input_buffer: s.input_buffer.push(c), ..s },
            ActionView::Idle),
        Key::Backspace => (AppStateView {
            input_buffer: if s.input_buffer.len() == 0 {
                s.input_buffer
            } else {
                s.input_buffer.drop_last()
            },
            ..s
        }, ActionView::Idle),
        _ => (s, ActionView::Idle),
    }
}

/// Delete mode: a binary confirmation. 'y' or Enter deletes the selected
/// session (if the selection is valid); 'n' or Esc declines; both resume
/// session-list mode.
pub open spec fn delete_key_step(s: AppStateView, k: Key) -> (AppStateView, ActionView) {
    let n = s.sessions.len() as int;
    let confirmed_action = match s.selected_session {
        Some(i) => if 0 <= i < n {
            ActionView::DeleteSession(s.sessions[i].name)
        } else {
            ActionView::Idle
        },
        None => ActionView::Idle,
    };
    match k {
        Key::Enter => (AppStateView { mode: Mode::Sessions, ..s }, confirmed_action),
        Key::Esc => (AppStateView { mode: Mode::Sessions, ..s }, ActionView::Idle),
        Key::Char(c) => if c == 'y' {
            (AppStateView { mode: Mode::Sessions, ..s }, confirmed_action)
        } else if c == 'n' {
            (AppStateView { mode: Mode::Sessions, ..s }, ActionView::Idle)
        } else {
            (s, ActionView::Idle)
        },
        _ => (s, ActionView::Idle),
    }
}

/// Preset-list mode: navigation over the presets, toggling back to the
/// session list, entering the default-preset prompt, quitting. Enter is an
/// intentionally disabled placeholder: launching from here is an open
/// question, so it asks for nothing.
pub open spec fn presets_key_step(s: AppStateView, k: Key) -> (AppStateView, ActionView) {
    let n = s.presets.len() as int;
    match k {
        Key::Down => (AppStateView { selected_preset: sel_next(s.selected_preset, n), ..s },
            ActionView::Idle),
        Key::Up => (AppStateView { selected_preset: sel_previous(s.selected_preset, n), ..s },
            ActionView::Idle),
        Key::Tab => (AppStateView { mode: Mode::Sessions, ..s }, ActionView::Idle),
        Key::Enter => (s, ActionView::Idle),
        Key::Char(c) => if c == 'q' {
            (AppStateView { exit: true, ..s }, ActionView::Idle)
        } else if c == 'j' {
            (AppStateView { selected_preset: sel_next(s.selected_preset, n), ..s },
                ActionView::Idle)
        } else if c == 'k' {
            (AppStateView { selected_preset: sel_previous(s.selected_preset, n), ..s },
                ActionView::Idle)
        } else if c == 'g' {
            (AppStateView { selected_preset: sel_first(n), ..s }, ActionView::Idle)
        } else if c == 'G' {
            (AppStateView { selected_preset: sel_last(n), ..s }, ActionView::Idle)
        } else if c == 'M' {
            (AppStateView { selected_preset: sel_middle(n), ..s }, ActionView::Idle)
        } else if c == 's' {
            (AppStateView { mode: Mode::SetDefaultPreset, ..s }, ActionView::Idle)
        } else {
            (s, ActionView::Idle)
        },
        _ => (s, ActionView::Idle),
    }
}

/// Default-preset prompt: collect a preset name; Enter validates it and
/// asks the driver to load the configuration (an empty submission only
/// produces an error notification and never reaches the store); Esc
/// discards the pending input without persisting anything.
pub open spec fn set_default_key_step(s: AppStateView, k: Key) -> (AppStateView, ActionView) {
    match k {
        Key::Esc => (AppStateView { input_buffer: Seq::empty(), mode: Mode::Sessions, ..s },
            ActionView::Idle),
        Key::Enter => if s.input_buffer.len() == 0 {
            (s, ActionView::Notify("Preset name cannot be empty"@))
        } else {
            (s, ActionView::LoadConfig)
        },
        Key::Char(c) => (AppStateView { input_buffer: s.input_buffer.push(c), ..s },
            ActionView::Idle),
        Key::Backspace => (AppStateView {
            input_buffer: if s.input_buffer.len() == 0 {
                s.input_buffer
            } else {
                s.input_buffer.drop_last()
            },
            ..s
        }, ActionView::Idle),
        _ => (s, ActionView::Idle),
    }
}

/// A key press: Ctrl-C is intercepted before mode dispatch and
/// unconditionally exits; every other key goes to the menu owning the
/// current mode.
pub open spec fn key_step(s: AppStateView, k: Key) -> (AppStateView, ActionView) {
    if k is CtrlC {
        (AppStateView { exit: true, ..s }, ActionView::Idle)
    } else {
        match s.mode {
            Mode::Sessions => sessions_key_step(s, k),
            Mode::Create => create_key_step(s, k),
            Mode::Rename => rename_key_step(s, k),
            Mode::Delete => delete_key_step(s, k),
            Mode::Presets => presets_key_step(s, k),
            Mode::SetDefaultPreset => set_default_key_step(s, k),
        }
    }
}

/// One full dispatch step of the driver loop.
pub open spec fn step(s: AppStateView, e: AppEventView) -> (AppStateView, ActionView) {
    match e {
        AppEventView::Key(k) => key_step(s, k),
        AppEventView::ShowNotification(m) => show_notification_step(s, m),
        AppEventView::ClearNotification(g) => clear_notification_step(s, g),
    }
}

/// Continuation of a default-preset submission after the driver loaded the
/// configuration: on success, ask it to save the configuration with the
/// submitted name as default; on failure, only notify.
pub open spec fn config_loaded_step(s: AppStateView, r: Result<ConfigView, Seq<char>>) -> (
    AppStateView, ActionView) {
    match r {
        Ok(c) => (s, ActionView::SaveConfig(ConfigView { default_preset: Some(s.input_buffer) })),
        Err(e) => (s, ActionView::Notify("Failed to load config: "@ + e)),
    }
}

/// Continuation after the driver saved the configuration: on success the
/// pending input is discarded, session-list mode resumes and a confirmation
/// is shown; on failure, only an error notification.
pub open spec fn config_saved_step(s: AppStateView, r: Result<(), Seq<char>>) -> (AppStateView,
    ActionView) {
    match r {
        Ok(_) => (AppStateView { input_buffer: Seq::empty(), mode: Mode::Sessions, ..s },
            ActionView::Notify("Default preset saved!"@)),
        Err(e) => (s, ActionView::Notify("Failed to save config: "@ + e)),
    }
}

/// Every dispatch step preserves well-formedness of the state.
pub proof fn lemma_step_preserves_inv(s: AppStateView, e: AppEventView)
    requires
        s.inv(),
    ensures
        step(s, e).0.inv(),
{
    lemma_navigation_in_range(s.selected_session, s.sessions.len() as int);
    lemma_navigation_in_range(s.selected_preset, s.presets.len() as int);
}

/// The continuations preserve well-formedness too.
pub proof fn lemma_continuations_preserve_inv(
    s: AppStateView,
    rl: Result<ConfigView, Seq<char>>,
    rs: Result<(), Seq<char>>,
)
    requires
        s.inv(),
    ensures
        config_loaded_step(s, rl).0.inv(),
        config_saved_step(s, rs).0.inv(),
{
}

/// Submitting an empty default-preset name never reaches the
/// configuration store: the state is untouched and the only action is the
/// error notification.
pub proof fn lemma_empty_submit_never_saves(s: AppStateView)
    requires
        s.mode is SetDefaultPreset,
        s.input_buffer.len() == 0,
    ensures
        step(s, AppEventView::Key(Key::Enter)).0 == s,
        step(s, AppEventView::Key(Key::Enter)).1 == ActionView::Notify(
            "Preset name cannot be empty"@,
        ),
{
}

/// Key presses never touch the notification: whatever is on screen stays
/// on screen, under the same generation, until a timer event arrives.
pub proof fn lemma_key_preserves_notification(s: AppStateView, k: Key)
    ensures
        key_step(s, k).0.notification == s.notification,
        key_step(s, k).0.notification_generation == s.notification_generation,
{
}

/// Supersede safety: after showing `a` and then `b`, the clear that `a`'s
/// timer captured is a no-op — `b` stays on screen; and once `b`'s own
/// clear has run, `a`'s late clear still finds (and leaves) an empty
/// screen. The display never reverts to `a`.
pub proof fn lemma_notification_supersede(s: AppStateView, a: Seq<char>, b: Seq<char>)
    ensures
        ({
            let (s1, t1) = step(s, AppEventView::ShowNotification(a));
            let (s2, t2) = step(s1, AppEventView::ShowNotification(b));
            let ga = s1.notification_generation;
            let gb = s2.notification_generation;
            &&& t1 == ActionView::StartClearTimer(ga)
            &&& t2 == ActionView::StartClearTimer(gb)
            &&& ga != gb
            &&& s2.notification == Some(b)
            &&& step(s2, AppEventView::ClearNotification(ga)).0 == s2
            &&& step(
                step(s2, AppEventView::ClearNotification(gb)).0,
                AppEventView::ClearNotification(ga),
            ).0.notification is None
        }),
{
}

/// Lifecycle of a single notification with no follow-up: `a` is on screen
/// through any key presses, its own timer's clear takes it down, and it
/// stays down through further key presses and stale clears until the next
/// notification is shown.
pub proof fn lemma_notification_lifecycle(s: AppStateView, a: Seq<char>, k: Key, g: nat)
    ensures
        ({
            let (s1, t1) = step(s, AppEventView::ShowNotification(a));
            let ga = s1.notification_generation;
            &&& s1.notification == Some(a)
            &&& t1 == ActionView::StartClearTimer(ga)
            &&& step(s1, AppEventView::Key(k)).0.notification == Some(a)
            &&& step(s1, AppEventView::Key(k)).0.notification_generation == ga
            &&& step(s1, AppEventView::ClearNotification(ga)).0.notification is None
            &&& ({
                let s2 = step(s1, AppEventView::ClearNotification(ga)).0;
                &&& step(s2, AppEventView::Key(k)).0.notification is None
                &&& step(s2, AppEventView::ClearNotification(g)).0.notification is None
            })
        }),
{
    let (s1, t1) = step(s, AppEventView::ShowNotification(a));
    lemma_key_preserves_notification(s1, k);
    let s2 = step(s1, AppEventView::ClearNotification(s1.notification_generation)).0;
    lemma_key_preserves_notification(s2, k);
}

/// The exit flag is terminal: no dispatch step ever clears it.
pub proof fn lemma_exit_terminal(s: AppStateView, e: AppEventView)
    requires
        s.exit,
    ensures
        step(s, e).0.exit,
{
}

} // verus!
