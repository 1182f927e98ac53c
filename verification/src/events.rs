//! Events that flow through the driver's single merged mailbox, and the
//! outside actions a dispatch step asks the driver to perform.

use vstd::prelude::*;

use crate::state::{Config, ConfigView};

verus! {

/// A key press, already reduced to what the menus care about.
#[derive(Clone, Copy, Debug, PartialEq, Eq)]
pub enum Key {
    Char(char),
    Enter,
    Esc,
    Tab,
    Up,
    Down,
    Backspace,
    CtrlC,
    Other,
}

/// One event from the merged stream: a key press from the terminal reader,
/// or a notification message and its delayed clear from a timer. A clear
/// carries the generation its timer captured when the notification was
/// shown, so a clear superseded by a newer notification is a no-op.
#[derive(Clone, Debug, PartialEq)]
pub enum AppEvent {
    Key(Key),
    ShowNotification(String),
    ClearNotification(u64),
}

#[verifier::ext_equal]
pub enum AppEventView {
    Key(Key),
    ShowNotification(Seq<char>),
    ClearNotification(nat),
}

impl View for AppEvent {
    type V = AppEventView;

    open spec fn view(&self) -> AppEventView {
        match self {
            AppEvent::Key(k) => AppEventView::Key(*k),
            AppEvent::ShowNotification(m) => AppEventView::ShowNotification(m@),
            AppEvent::ClearNotification(g) => AppEventView::ClearNotification(*g as nat),
        }
    }
}

/// What the driver must do after a dispatch step: call the session backend,
/// touch the configuration store, enqueue a notification, or start the
/// delayed clear for the generation just shown. `Idle` asks for nothing.
#[derive(Clone, Debug, PartialEq)]
pub enum Action {
    Idle,
    SwitchSession(String),
    CreateSession(String),
    RenameSession { from: String, to: String },
    DeleteSession(String),
    LoadConfig,
    SaveConfig(Config),
    Notify(String),
    StartClearTimer(u64),
}

#[verifier::ext_equal]
pub enum ActionView {
    Idle,
    SwitchSession(Seq<char>),
    CreateSession(Seq<char>),
    RenameSession { from: Seq<char>, to: Seq<char> },
    DeleteSession(Seq<char>),
    LoadConfig,
    SaveConfig(ConfigView),
    Notify(Seq<char>),
    StartClearTimer(nat),
}

impl View for Action {
    type V = ActionView;

    open spec fn view(&self) -> ActionView {
        match self {
            Action::Idle => ActionView::Idle,
            Action::SwitchSession(n) => ActionView::SwitchSession(n@),
            Action::CreateSession(n) => ActionView::CreateSession(n@),
            Action::RenameSession { from, to } => ActionView::RenameSession {
                from: from@,
                to: to@,
            },
            Action::DeleteSession(n) => ActionView::DeleteSession(n@),
            Action::LoadConfig => ActionView::LoadConfig,
            Action::SaveConfig(c) => ActionView::SaveConfig(c@),
            Action::Notify(m) => ActionView::Notify(m@),
            Action::StartClearTimer(g) => ActionView::StartClearTimer(*g as nat),
        }
    }
}

/// The view of a configuration-load outcome handed back by the driver.
pub open spec fn config_result_view(r: Result<Config, String>) -> Result<ConfigView, Seq<char>> {
    match r {
        Ok(c) => Ok(c@),
        Err(e) => Err(e@),
    }
}

/// The view of a configuration-save outcome handed back by the driver.
pub open spec fn save_result_view(r: Result<(), String>) -> Result<(), Seq<char>> {
    match r {
        Ok(u) => Ok(u),
        Err(e) => Err(e@),
    }
}

} // verus!
