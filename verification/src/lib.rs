//! Core of a terminal list-picker: an incremental fuzzy-filter list engine
//! and the action-dispatch state machine that routes input through an
//! optional modal dialog, a set of global actions, and the active view.
//!
//! Everything here is pure state and decision logic. The surrounding
//! process (terminal surface, input polling, session/VCS/editor calls)
//! lives outside the library and talks to it through plain values.

pub mod action;
pub mod app;
pub mod buffer_picker;
pub mod command_palette;
pub mod dialog;
pub mod entries;
pub mod file_picker;
pub mod fuzzy;
pub mod keymap;
pub mod list;
pub mod session_picker;
pub mod text;
pub mod worktree_picker;
