//! Core of a terminal session manager: modal event dispatch over shared
//! application state, cyclic list-selection navigation, and a
//! generation-counted notification timer that is safe against superseded
//! clears. Terminal rendering, the session backend, the preset parser and
//! the on-disk configuration store are external collaborators; this crate
//! holds the coordination logic they are driven by.

pub mod cli;
pub mod events;
pub mod menus;
pub mod selection;
pub mod state;
pub mod step;
