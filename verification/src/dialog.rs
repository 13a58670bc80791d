//! The modal overlays: a free-text input box and a yes/no confirmation.
//! While one is present it intercepts every action before the active view
//! sees it; its resolution hands the router a domain action to dispatch
//! in the next pass.

use vstd::prelude::*;
use vstd::string::StrSliceExecFns;

use crate::action::Action;
use crate::action::ConfirmCallback;
use crate::action::InputCallback;

verus! {

/// What a dialog did with an action: kept it (the dialog stays as the
/// sole consumer of input), closed with nothing to do, or resolved into
/// a domain action for the router.
pub enum DialogResult {
    Kept,
    Closed,
    Resolved(Action),
}

/// A free-text input box: accumulates a buffer one character at a time;
/// `Enter` resolves the callback with the text, `Escape` first clears an
/// in-progress buffer and closes only when the buffer is already empty.
pub struct InputDialog {
    pub title: String,
    pub callback: InputCallback,
    pub buffer: String,
}

impl InputDialog {
    /// An input dialog with an empty buffer.
    pub fn new(title: String, callback: InputCallback) -> (r: Self)
        ensures
            r.title == title,
            r.callback == callback,
            r.buffer@.len() == 0,
    {
        InputDialog { title, callback, buffer: String::new() }
    }

    /// The domain action this dialog resolves into with its current text.
    fn resolve(&self) -> (r: Action)
        ensures
            self.callback is CreateSession ==> (r matches Action::CreateSession(n, p) && n@
                == self.buffer@ && p is None),
            self.callback is CreateWorktree ==> (r matches Action::CreateWorktree(b) && b@
                == self.buffer@),
    {
        match &self.callback {
            InputCallback::CreateSession => Action::CreateSession(self.buffer.clone(), Option::None),
            InputCallback::CreateWorktree => Action::CreateWorktree(self.buffer.clone()),
        }
    }

    /// Consume one action. Characters and backspace edit the buffer;
    /// `Enter` with text resolves; `Escape` clears the buffer, or closes
    /// when it is already empty; everything else is swallowed.
    pub fn handle_action(&mut self, action: &Action) -> (r: DialogResult)
        ensures
            final(self).title == old(self).title,
            final(self).callback == old(self).callback,
            (match action {
                Action::Character(c) => final(self).buffer@ == old(self).buffer@.push(*c) && r is Kept,
                Action::Backspace => final(self).buffer@ == (if old(self).buffer@.len() == 0 {
                    old(self).buffer@
                } else {
                    old(self).buffer@.drop_last()
                }) && r is Kept,
                Action::Enter => final(self).buffer == old(self).buffer && (
                if old(self).buffer@.len() == 0 {
                    r is Kept
                } else {
                    r matches DialogResult::Resolved(a) && (old(self).callback is CreateSession
                        ==> (a matches Action::CreateSession(n, p) && n@ == old(self).buffer@
                        && p is None)) && (old(self).callback is CreateWorktree
                        ==> (a matches Action::CreateWorktree(b) && b@ == old(self).buffer@))
                }),
                Action::Escape => (if old(self).buffer@.len() == 0 {
                    final(self).buffer == old(self).buffer && r is Closed
                } else {
                    final(self).buffer@.len() == 0 && r is Kept
                }),
                _ => final(self).buffer == old(self).buffer && r is Kept,
            }),
    {
        match action {
            Action::Character(c) => {
                crate::text::str_push(&mut self.buffer, *c);
                DialogResult::Kept
            },
            Action::Backspace => {
                let _ = crate::text::str_pop(&mut self.buffer);
                DialogResult::Kept
            },
            Action::Enter => {
                if self.buffer.as_str().unicode_len() == 0 {
                    DialogResult::Kept
                } else {
                    DialogResult::Resolved(self.resolve())
                }
            },
            Action::Escape => {
                if self.buffer.as_str().unicode_len() == 0 {
                    DialogResult::Closed
                } else {
                    self.buffer = String::new();
                    DialogResult::Kept
                }
            },
            _ => DialogResult::Kept,
        }
    }
}

/// A yes/no confirmation: holds a binary selection, default yes, toggled
/// by up/down navigation or set by `y`/`n`; `Enter` resolves the callback
/// only when the selection is yes.
pub struct ConfirmDialog {
    pub title: String,
    pub message: String,
    pub callback: ConfirmCallback,
    pub selected: bool,
}

impl ConfirmDialog {
    /// A confirm dialog with yes selected.
    pub fn new(title: String, message: String, callback: ConfirmCallback) -> (r: Self)
        ensures
            r.title == title,
            r.message == message,
            r.callback == callback,
            r.selected,
    {
        ConfirmDialog { title, message, callback, selected: true }
    }

    /// The domain action this dialog resolves into when answered yes.
    fn resolve(&self) -> (r: Action)
        ensures
            confirm_resolves(self.callback, r),
    {
        match &self.callback {
            ConfirmCallback::DeleteWorktree(p) => Action::DeleteWorktree(p.clone()),
            ConfirmCallback::MergeWorktree(p) => Action::MergeWorktree(p.clone()),
            ConfirmCallback::KillSession(n) => Action::KillSession(n.clone()),
        }
    }

    /// Consume one action. Navigation toggles the selection, `y`/`n` set
    /// it, `Enter` resolves on yes and closes on no, `Escape` closes;
    /// everything else is swallowed.
    pub fn handle_action(&mut self, action: &Action) -> (r: DialogResult)
        ensures
            final(self).title == old(self).title,
            final(self).message == old(self).message,
            final(self).callback == old(self).callback,
            (match action {
                Action::MoveUp => final(self).selected == !old(self).selected && r is Kept,
                Action::MoveDown => final(self).selected == !old(self).selected && r is Kept,
                Action::Character(c) => (if *c == 'y' || *c == 'Y' {
                    final(self).selected && r is Kept
                } else if *c == 'n' || *c == 'N' {
                    !final(self).selected && r is Kept
                } else {
                    final(self).selected == old(self).selected && r is Kept
                }),
                Action::Enter => final(self).selected == old(self).selected && (
                if old(self).selected {
                    r matches DialogResult::Resolved(a) && confirm_resolves(old(self).callback, a)
                } else {
                    r is Closed
                }),
                Action::Escape => final(self).selected == old(self).selected && r is Closed,
                _ => final(self).selected == old(self).selected && r is Kept,
            }),
    {
        match action {
            Action::MoveUp => {
                self.selected = !self.selected;
                DialogResult::Kept
            },
            Action::MoveDown => {
                self.selected = !self.selected;
                DialogResult::Kept
            },
            Action::Character(c) => {
                if *c == 'y' || *c == 'Y' {
                    self.selected = true;
                } else if *c == 'n' || *c == 'N' {
                    self.selected = false;
                }
                DialogResult::Kept
            },
            Action::Enter => {
                if self.selected {
                    DialogResult::Resolved(self.resolve())
                } else {
                    DialogResult::Closed
                }
            },
            Action::Escape => DialogResult::Closed,
            _ => DialogResult::Kept,
        }
    }
}

/// The domain action a confirm callback stands for.
pub open spec fn confirm_resolves(cb: ConfirmCallback, a: Action) -> bool {
    match cb {
        ConfirmCallback::DeleteWorktree(p) => a matches Action::DeleteWorktree(q) && q@ == p@,
        ConfirmCallback::MergeWorktree(p) => a matches Action::MergeWorktree(q) && q@ == p@,
        ConfirmCallback::KillSession(n) => a matches Action::KillSession(m) && m@ == n@,
    }
}

} // verus!
