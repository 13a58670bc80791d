//! The closed set of semantic events the router dispatches, and the
//! callback tags a dialog carries to say which domain action its
//! resolution synthesises.
//!
//! Actions are values: each carries all the data needed to execute it.
//! Paths travel as plain strings.

use vstd::prelude::*;

use crate::entries::PaletteCommand;

verus! {

/// A semantic event: produced by key mapping or by a component, consumed
/// by exactly one dispatch pass.
#[derive(Clone, Debug)]
#[allow(inconsistent_fields)]
pub enum Action {
    Quit,
    GoBack,
    Render,
    // Navigation
    MoveUp,
    MoveDown,
    PageUp,
    PageDown,
    // Input
    Character(char),
    Backspace,
    Enter,
    Escape,
    // Session actions
    SwitchSession(String),
    CreateSession(String, Option<String>),
    KillSession(String),
    // File actions
    OpenFile(String),
    OpenBuffer { socket: String, bufnr: i64 },
    // Worktree actions
    SwitchWorktree(String),
    CreateWorktree(String),
    DeleteWorktree(String),
    MergeWorktree(String),
    // Command palette
    ExecuteCommand(PaletteCommand),
    // Dialog actions
    ShowInput { title: String, callback: InputCallback },
    ShowConfirm { title: String, message: String, callback: ConfirmCallback },
    CloseDialog,
    // View switching
    ShowSessionPicker,
    ShowCommandPalette,
    ShowFilePicker,
    ShowWorktreePicker,
    ShowBufferPicker,
    // Git
    ShowGitDiff,
}

/// What an input dialog's text resolves into on confirm.
#[derive(Clone, Debug)]
pub enum InputCallback {
    CreateSession,
    CreateWorktree,
}

/// What a confirm dialog resolves into when answered yes.
#[derive(Clone, Debug)]
pub enum ConfirmCallback {
    DeleteWorktree(String),
    MergeWorktree(String),
    KillSession(String),
}

} // verus!
