//! The session picker: a fuzzy list over the session manager's sessions.
//! Committing an entry switches to it; with an empty query, `d` asks to
//! kill the selected session and `n` asks for a new session's name.

use vstd::prelude::*;
use vstd::string::StringExecFns;

use crate::action::Action;
use crate::action::ConfirmCallback;
use crate::action::InputCallback;
use crate::entries::SessionEntry;
use crate::list::FuzzyList;

verus! {

pub struct SessionPicker {
    pub list: FuzzyList<SessionEntry>,
}

impl SessionPicker {
    /// An empty session picker.
    pub fn new() -> (r: Self)
        ensures
            r.list.items@.len() == 0,
            r.list.query@.len() == 0,
            r.list.cursor == 0,
            r.list.wf(),
    {
        SessionPicker { list: FuzzyList::new("Sessions") }
    }

    /// Replace the listed sessions with a fresh listing.
    pub fn refresh(&mut self, sessions: Vec<SessionEntry>)
        ensures
            final(self).list.items@ == sessions@,
            final(self).list.query == old(self).list.query,
            final(self).list.cursor == 0,
            final(self).list.wf(),
    {
        self.list.set_items(sessions);
    }

    /// Consume one action, possibly emitting a follow-up for the router.
    pub fn handle_action(&mut self, action: &Action) -> (r: Option<Action>)
        requires
            old(self).list.wf(),
        ensures
            final(self).list.wf(),
            (match action {
                Action::MoveUp => FuzzyList::stepped_up(old(self).list, final(self).list) && (
                r matches Some(Action::Render)),
                Action::MoveDown => FuzzyList::stepped_down(old(self).list, final(self).list) && (
                r matches Some(Action::Render)),
                Action::PageUp => FuzzyList::paged_up(old(self).list, final(self).list, 10) && (
                r matches Some(Action::Render)),
                Action::PageDown => FuzzyList::paged_down(old(self).list, final(self).list, 10) && (
                r matches Some(Action::Render)),
                Action::Character(c) => (if *c == 'd' && old(self).list.query@.len() == 0 {
                    final(self).list == old(self).list && (
                    match old(self).list.spec_selected() {
                        Some(s) => r matches Some(Action::ShowConfirm { title, message, callback })
                            && title@ == "Delete Session"@ && message@ == "Delete session '"@
                            + s.name@ + "'?"@ && (callback matches ConfirmCallback::KillSession(n)
                            && n@ == s.name@),
                        None => r is None,
                    })
                } else if *c == 'n' && old(self).list.query@.len() == 0 {
                    final(self).list == old(self).list && (r matches Some(Action::ShowInput {
                        title,
                        callback,
                    }) && title@ == "New Session"@ && callback is CreateSession)
                } else {
                    FuzzyList::refiltered(
                        old(self).list,
                        final(self).list,
                        old(self).list.query@.push(*c),
                    ) && (r matches Some(Action::Render))
                }),
                Action::Backspace => FuzzyList::refiltered(
                    old(self).list,
                    final(self).list,
                    if old(self).list.query@.len() == 0 {
                        old(self).list.query@
                    } else {
                        old(self).list.query@.drop_last()
                    },
                ) && (r matches Some(Action::Render)),
                Action::Enter => final(self).list == old(self).list && (
                match old(self).list.spec_selected() {
                    Some(s) => r matches Some(Action::SwitchSession(n)) && n@ == s.name@,
                    None => r is None,
                }),
                Action::Escape => (if old(self).list.query@.len() > 0 {
                    FuzzyList::refiltered(old(self).list, final(self).list, Seq::<char>::empty())
                        && (r matches Some(Action::Render))
                } else {
                    final(self).list == old(self).list && (r matches Some(Action::GoBack))
                }),
                _ => final(self).list == old(self).list && r is None,
            }),
    {
        match action {
            Action::MoveUp => {
                self.list.move_up();
                Some(Action::Render)
            },
            Action::MoveDown => {
                self.list.move_down();
                Some(Action::Render)
            },
            Action::PageUp => {
                self.list.page_up(10);
                Some(Action::Render)
            },
            Action::PageDown => {
                self.list.page_down(10);
                Some(Action::Render)
            },
            Action::Character(c) => {
                if *c == 'd' && self.list.query_is_empty() {
                    match self.list.selected() {
                        Some(session) => {
                            let name = session.name.clone();
                            let message = String::from_str("Delete session '").concat(
                                name.as_str(),
                            ).concat("'?");
                            Some(
                                Action::ShowConfirm {
                                    title: String::from_str("Delete Session"),
                                    message,
                                    callback: ConfirmCallback::KillSession(name),
                                },
                            )
                        },
                        None => Option::None,
                    }
                } else if *c == 'n' && self.list.query_is_empty() {
                    Some(
                        Action::ShowInput {
                            title: String::from_str("New Session"),
                            callback: InputCallback::CreateSession,
                        },
                    )
                } else {
                    self.list.push_char(*c);
                    Some(Action::Render)
                }
            },
            Action::Backspace => {
                self.list.pop_char();
                Some(Action::Render)
            },
            Action::Enter => {
                match self.list.selected() {
                    Some(session) => Some(Action::SwitchSession(session.name.clone())),
                    None => Option::None,
                }
            },
            Action::Escape => {
                if !self.list.query_is_empty() {
                    self.list.clear_query();
                    Some(Action::Render)
                } else {
                    Some(Action::GoBack)
                }
            },
            _ => Option::None,
        }
    }

    /// The hint line for this view.
    pub fn help_text(&self) -> (r: &'static str)
        ensures
            r@ == "Enter:switch  n:new  d:delete  Esc:back"@,
    {
        "Enter:switch  n:new  d:delete  Esc:back"
    }
}

impl Default for SessionPicker {
    /// An empty session picker.
    fn default() -> (r: Self)
        ensures
            r.list.items@.len() == 0,
            r.list.query@.len() == 0,
            r.list.cursor == 0,
            r.list.wf(),
    {
        SessionPicker::new()
    }
}

} // verus!
