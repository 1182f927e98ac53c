//! Shared application state: the session and preset lists, the active mode,
//! the selections, the transient notification and its generation counter.

use vstd::prelude::*;

use crate::selection::{index_view, sel_clamp, select_clamp};

verus! {

/// The modal screen that currently owns input.
#[derive(Clone, Copy, Debug, PartialEq, Eq, Structural)]
pub enum Mode {
    Sessions,
    Create,
    Rename,
    Delete,
    Presets,
    SetDefaultPreset,
}

/// A running named workspace, as reported by the session backend.
#[derive(Clone, Debug, PartialEq)]
pub struct Session {
    pub name: String,
    pub window_count: u64,
    pub active: bool,
}

/// A named, file-defined template for the windows of a new session.
#[derive(Clone, Debug, PartialEq)]
pub struct Preset {
    pub name: String,
    pub window_count: u64,
    pub active: bool,
}

/// The persisted "default preset" setting.
#[derive(Clone, Debug, PartialEq)]
pub struct Config {
    pub default_preset: Option<String>,
}

#[verifier::ext_equal]
pub struct SessionView {
    pub name: Seq<char>,
    pub window_count: u64,
    pub active: bool,
}

#[verifier::ext_equal]
pub struct PresetView {
    pub name: Seq<char>,
    pub window_count: u64,
    pub active: bool,
}

#[verifier::ext_equal]
pub struct ConfigView {
    pub default_preset: Option<Seq<char>>,
}

impl View for Session {
    type V = SessionView;

    open spec fn view(&self) -> SessionView {
        SessionView { name: self.name@, window_count: self.window_count, active: self.active }
    }
}

impl View for Preset {
    type V = PresetView;

    open spec fn view(&self) -> PresetView {
        PresetView { name: self.name@, window_count: self.window_count, active: self.active }
    }
}

impl View for Config {
    type V = ConfigView;

    open spec fn view(&self) -> ConfigView {
        ConfigView {
            default_preset: match self.default_preset {
                None => None,
                Some(s) => Some(s@),
            },
        }
    }
}

/// The shared record every menu reads and writes. Exactly one logical owner
/// mutates it, inside the driver's single dispatch loop.
pub struct AppState {
    pub mode: Mode,
    pub sessions: Vec<Session>,
    pub presets: Vec<Preset>,
    pub selected_session: Option<usize>,
    pub selected_preset: Option<usize>,
    /// The pending text input of the mode that owns one (Create, Rename,
    /// SetDefaultPreset); discarded whenever such a mode is left.
    pub input_buffer: String,
    /// The transient notification currently on screen, if any.
    pub notification: Option<String>,
    /// Bumped on every shown notification; a delayed clear applies only if
    /// the generation it captured is still the live one.
    pub notification_generation: u64,
    /// Terminal: once set, no further event is dispatched.
    pub exit: bool,
}

#[verifier::ext_equal]
pub struct AppStateView {
    pub mode: Mode,
    pub sessions: Seq<SessionView>,
    pub presets: Seq<PresetView>,
    pub selected_session: Option<int>,
    pub selected_preset: Option<int>,
    pub input_buffer: Seq<char>,
    pub notification: Option<Seq<char>>,
    pub notification_generation: nat,
    pub exit: bool,
}

impl View for AppState {
    type V = AppStateView;

    open spec fn view(&self) -> AppStateView {
        AppStateView {
            mode: self.mode,
            sessions: self.sessions@.map_values(|s: Session| s@),
            presets: self.presets@.map_values(|p: Preset| p@),
            selected_session: index_view(self.selected_session),
            selected_preset: index_view(self.selected_preset),
            input_buffer: self.input_buffer@,
            notification: match self.notification {
                None => None,
                Some(s) => Some(s@),
            },
            notification_generation: self.notification_generation as nat,
            exit: self.exit,
        }
    }
}

impl AppStateView {
    /// Whether the mode's menu owns a text-input buffer.
    pub open spec fn mode_has_buffer(self) -> bool {
        self.mode is Create || self.mode is Rename || self.mode is SetDefaultPreset
    }

    /// Well-formedness: a present selection is inside its list, and the
    /// text-input buffer is empty outside the modes that own one (leaving
    /// such a mode always discards the pending input).
    pub open spec fn inv(self) -> bool {
        &&& (self.selected_session matches Some(i) ==> 0 <= i < self.sessions.len())
        &&& (self.selected_preset matches Some(i) ==> 0 <= i < self.presets.len())
        &&& (!self.mode_has_buffer() ==> self.input_buffer.len() == 0)
    }
}

/// The state a freshly started application is in: session-list mode, the
/// selection on `selected`, nothing pending and nothing shown.
pub open spec fn initial_state(
    sessions: Seq<SessionView>,
    presets: Seq<PresetView>,
    selected: Option<int>,
) -> AppStateView {
    AppStateView {
        mode: Mode::Sessions,
        sessions: sessions,
        presets: presets,
        selected_session: selected,
        selected_preset: None,
        input_buffer: Seq::empty(),
        notification: None,
        notification_generation: 0,
        exit: false,
    }
}

/// A refreshed session list replaces the old one; the selection is clamped
/// so it never references a removed element.
pub open spec fn refreshed(s: AppStateView, sessions: Seq<SessionView>) -> AppStateView {
    AppStateView {
        sessions: sessions,
        selected_session: sel_clamp(s.selected_session, sessions.len() as int),
        ..s
    }
}

impl AppState {
    /// Seed the state from the backend's session list and the parsed
    /// presets. The initial selection is the first active session, so the
    /// cursor starts on the workspace the user is in.
    pub fn new(sessions: Vec<Session>, presets: Vec<Preset>) -> (r: AppState)
        ensures
            r@ == initial_state(
                sessions@.map_values(|s: Session| s@),
                presets@.map_values(|p: Preset| p@),
                spec_first_active(sessions@.map_values(|s: Session| s@)),
            ),
            r@.inv(),
    {
        let selected = first_active(&sessions);
        let r = AppState {
            mode: Mode::Sessions,
            sessions,
            presets,
            selected_session: selected,
            selected_preset: None,
            input_buffer: String::new(),
            notification: None,
            notification_generation: 0,
            exit: false,
        };
        proof {
            lemma_first_active_in_range(r.sessions@.map_values(|s: Session| s@), 0);
            assert(r@ =~= initial_state(
                r.sessions@.map_values(|s: Session| s@),
                r.presets@.map_values(|p: Preset| p@),
                index_view(r.selected_session),
            ));
        }
        r
    }

    /// Replace the session list with a fresh one from the backend,
    /// reclamping the selection (other clients may have removed sessions).
    pub fn set_sessions(&mut self, sessions: Vec<Session>)
        ensures
            final(self)@ == refreshed(old(self)@, sessions@.map_values(|s: Session| s@)),
            old(self)@.inv() ==> final(self)@.inv(),
    {
        self.selected_session = select_clamp(self.selected_session, sessions.len());
        self.sessions = sessions;
        proof {
            assert(final(self)@ =~= refreshed(
                old(self)@,
                final(self).sessions@.map_values(|s: Session| s@),
            ));
        }
    }
}

/// The first index at or after `k` whose session is marked active.
pub open spec fn first_active_from(ss: Seq<SessionView>, k: int) -> Option<int>
    decreases ss.len() - k when 0 <= k <= ss.len()
{
    if k >= ss.len() {
        None
    } else if ss[k].active {
        Some(k)
    } else {
        first_active_from(ss, k + 1)
    }
}

/// The index of the first session marked active, if any.
pub open spec fn spec_first_active(ss: Seq<SessionView>) -> Option<int> {
    first_active_from(ss, 0)
}

/// A found first-active index is inside the list.
pub proof fn lemma_first_active_in_range(ss: Seq<SessionView>, k: int)
    requires
        0 <= k <= ss.len(),
    ensures
        first_active_from(ss, k) matches Some(i) ==> k <= i < ss.len(),
    decreases ss.len() - k,
{
    if k < ss.len() && !ss[k].active {
        lemma_first_active_in_range(ss, k + 1);
    }
}

/// The index of the first session marked active, if any.
pub fn first_active(sessions: &Vec<Session>) -> (r: Option<usize>)
    ensures
        index_view(r) == spec_first_active(sessions@.map_values(|s: Session| s@)),
{
    let ghost ss = sessions@.map_values(|s: Session| s@);
    let mut i: usize = 0;
    while i < sessions.len()
        invariant
            i <= sessions.len(),
            ss == sessions@.map_values(|s: Session| s@),
            first_active_from(ss, 0) == first_active_from(ss, i as int),
        decreases sessions.len() - i,
    {
        if sessions[i].active {
            return Some(i);
        }
        i = i + 1;
    }
    None
}

} // verus!
