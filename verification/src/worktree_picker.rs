//! The worktree picker: a fuzzy list over the repository's worktrees.
//! Committing an entry switches to its session; with an empty query, `d`
//! asks to delete the selected worktree (never the main one, and with a
//! warning when it has uncommitted changes), `m` asks to merge it to
//! main, and `n` asks for a new worktree's branch.

use vstd::prelude::*;
use vstd::string::StringExecFns;

use crate::action::Action;
use crate::action::ConfirmCallback;
use crate::action::InputCallback;
use crate::entries::WorktreeEntry;
use crate::list::FuzzyList;

verus! {

/// The follow-up that pressing `d` on a selected worktree produces:
/// nothing for the main worktree, otherwise a confirmation whose message
/// warns when the worktree still has changes.
pub open spec fn delete_request(wt: WorktreeEntry, r: Option<Action>) -> bool {
    if wt.is_main {
        r is None
    } else {
        r matches Some(Action::ShowConfirm { title, message, callback }) && title@
            == "Delete Worktree"@ && message@ == (if wt.has_changes {
            "Worktree '"@ + wt.branch@ + "' has uncommitted changes. Delete anyway?"@
        } else {
            "Delete worktree '"@ + wt.branch@ + "'?"@
        }) && (callback matches ConfirmCallback::DeleteWorktree(p) && p@ == wt.path@)
    }
}

/// The follow-up that pressing `m` on a selected worktree produces:
/// nothing for the main worktree, otherwise a merge confirmation.
pub open spec fn merge_request(wt: WorktreeEntry, r: Option<Action>) -> bool {
    if wt.is_main {
        r is None
    } else {
        r matches Some(Action::ShowConfirm { title, message, callback }) && title@
            == "Merge to Main"@ && message@ == "Merge '"@ + wt.branch@
            + "' to main and delete worktree?"@ && (callback matches
        ConfirmCallback::MergeWorktree(p) && p@ == wt.path@)
    }
}

pub struct WorktreePicker {
    pub list: FuzzyList<WorktreeEntry>,
}

impl WorktreePicker {
    /// An empty worktree picker.
    pub fn new() -> (r: Self)
        ensures
            r.list.items@.len() == 0,
            r.list.query@.len() == 0,
            r.list.cursor == 0,
            r.list.wf(),
    {
        WorktreePicker { list: FuzzyList::new("Worktrees") }
    }

    /// Replace the listed worktrees with a fresh listing.
    pub fn refresh(&mut self, worktrees: Vec<WorktreeEntry>)
        ensures
            final(self).list.items@ == worktrees@,
            final(self).list.query == old(self).list.query,
            final(self).list.cursor == 0,
            final(self).list.wf(),
    {
        self.list.set_items(worktrees);
    }

    /// Consume one action, possibly emitting a follow-up for the router.
    pub fn handle_action(&mut self, action: &Action) -> (r: Option<Action>)
        requires
            old(self).list.wf(),
        ensures
            final(self).list.wf(),
            (match action {
                Action::MoveUp => FuzzyList::stepped_up(old(self).list, final(self).list) && (
                r matches Some(Action::Render)),
                Action::MoveDown => FuzzyList::stepped_down(old(self).list, final(self).list) && (
                r matches Some(Action::Render)),
                Action::PageUp => FuzzyList::paged_up(old(self).list, final(self).list, 10) && (
                r matches Some(Action::Render)),
                Action::PageDown => FuzzyList::paged_down(old(self).list, final(self).list, 10) && (
                r matches Some(Action::Render)),
                Action::Character(c) => (if *c == 'd' && old(self).list.query@.len() == 0 {
                    final(self).list == old(self).list && (
                    match old(self).list.spec_selected() {
                        Some(wt) => delete_request(wt, r),
                        None => r is None,
                    })
                } else if *c == 'm' && old(self).list.query@.len() == 0 {
                    final(self).list == old(self).list && (
                    match old(self).list.spec_selected() {
                        Some(wt) => merge_request(wt, r),
                        None => r is None,
                    })
                } else if *c == 'n' && old(self).list.query@.len() == 0 {
                    final(self).list == old(self).list && (r matches Some(Action::ShowInput {
                        title,
                        callback,
                    }) && title@ == "New Worktree Branch"@ && callback is CreateWorktree)
                } else {
                    FuzzyList::refiltered(
                        old(self).list,
                        final(self).list,
                        old(self).list.query@.push(*c),
                    ) && (r matches Some(Action::Render))
                }),
                Action::Backspace => FuzzyList::refiltered(
                    old(self).list,
                    final(self).list,
                    if old(self).list.query@.len() == 0 {
                        old(self).list.query@
                    } else {
                        old(self).list.query@.drop_last()
                    },
                ) && (r matches Some(Action::Render)),
                Action::Enter => final(self).list == old(self).list && (
                match old(self).list.spec_selected() {
                    Some(wt) => r matches Some(Action::SwitchWorktree(p)) && p@ == wt.path@,
                    None => r is None,
                }),
                Action::Escape => (if old(self).list.query@.len() > 0 {
                    FuzzyList::refiltered(old(self).list, final(self).list, Seq::<char>::empty())
                        && (r matches Some(Action::Render))
                } else {
                    final(self).list == old(self).list && (r matches Some(Action::GoBack))
                }),
                _ => final(self).list == old(self).list && r is None,
            }),
    {
        match action {
            Action::MoveUp => {
                self.list.move_up();
                Some(Action::Render)
            },
            Action::MoveDown => {
                self.list.move_down();
                Some(Action::Render)
            },
            Action::PageUp => {
                self.list.page_up(10);
                Some(Action::Render)
            },
            Action::PageDown => {
                self.list.page_down(10);
                Some(Action::Render)
            },
            Action::Character(c) => {
                if *c == 'd' && self.list.query_is_empty() {
                    match self.list.selected() {
                        Some(wt) => {
                            if wt.is_main {
                                Option::None
                            } else {
                                let branch = wt.branch.clone();
                                let path = wt.path.clone();
                                let message = if wt.has_changes {
                                    String::from_str("Worktree '").concat(branch.as_str()).concat(
                                        "' has uncommitted changes. Delete anyway?",
                                    )
                                } else {
                                    String::from_str("Delete worktree '").concat(
                                        branch.as_str(),
                                    ).concat("'?")
                                };
                                Some(
                                    Action::ShowConfirm {
                                        title: String::from_str("Delete Worktree"),
                                        message,
                                        callback: ConfirmCallback::DeleteWorktree(path),
                                    },
                                )
                            }
                        },
                        None => Option::None,
                    }
                } else if *c == 'm' && self.list.query_is_empty() {
                    match self.list.selected() {
                        Some(wt) => {
                            if wt.is_main {
                                Option::None
                            } else {
                                let branch = wt.branch.clone();
                                let path = wt.path.clone();
                                let message = String::from_str("Merge '").concat(
                                    branch.as_str(),
                                ).concat("' to main and delete worktree?");
                                Some(
                                    Action::ShowConfirm {
                                        title: String::from_str("Merge to Main"),
                                        message,
                                        callback: ConfirmCallback::MergeWorktree(path),
                                    },
                                )
                            }
                        },
                        None => Option::None,
                    }
                } else if *c == 'n' && self.list.query_is_empty() {
                    Some(
                        Action::ShowInput {
                            title: String::from_str("New Worktree Branch"),
                            callback: InputCallback::CreateWorktree,
                        },
                    )
                } else {
                    self.list.push_char(*c);
                    Some(Action::Render)
                }
            },
            Action::Backspace => {
                self.list.pop_char();
                Some(Action::Render)
            },
            Action::Enter => {
                match self.list.selected() {
                    Some(wt) => Some(Action::SwitchWorktree(wt.path.clone())),
                    None => Option::None,
                }
            },
            Action::Escape => {
                if !self.list.query_is_empty() {
                    self.list.clear_query();
                    Some(Action::Render)
                } else {
                    Some(Action::GoBack)
                }
            },
            _ => Option::None,
        }
    }

    /// The hint line for this view.
    pub fn help_text(&self) -> (r: &'static str)
        ensures
            r@ == "Enter:switch  n:new  d:delete  m:merge  Esc:back"@,
    {
        "Enter:switch  n:new  d:delete  m:merge  Esc:back"
    }
}

} // verus!
