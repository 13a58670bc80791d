//! The buffer picker: a fuzzy list over the buffers of the reachable
//! editor instances. Committing an entry opens that buffer in its
//! instance.

use vstd::prelude::*;

use crate::action::Action;
use crate::entries::BufferEntry;
use crate::list::FuzzyList;

verus! {

pub struct BufferPicker {
    pub list: FuzzyList<BufferEntry>,
}

impl BufferPicker {
    /// An empty buffer picker.
    pub fn new() -> (r: Self)
        ensures
            r.list.items@.len() == 0,
            r.list.query@.len() == 0,
            r.list.cursor == 0,
            r.list.wf(),
    {
        BufferPicker { list: FuzzyList::new("Nvim Buffers") }
    }

    /// Replace the listed buffers with a fresh listing.
    pub fn refresh(&mut self, buffers: Vec<BufferEntry>)
        ensures
            final(self).list.items@ == buffers@,
            final(self).list.query == old(self).list.query,
            final(self).list.cursor == 0,
            final(self).list.wf(),
    {
        self.list.set_items(buffers);
    }

    /// Consume one action, possibly emitting a follow-up for the router.
    pub fn handle_action(&mut self, action: &Action) -> (r: Option<Action>)
        requires
            old(self).list.wf(),
        ensures
            final(self).list.wf(),
            (match action {
                Action::MoveUp => FuzzyList::stepped_up(old(self).list, final(self).list) && (
                r matches Some(Action::Render)),
                Action::MoveDown => FuzzyList::stepped_down(old(self).list, final(self).list) && (
                r matches Some(Action::Render)),
                Action::PageUp => FuzzyList::paged_up(old(self).list, final(self).list, 10) && (
                r matches Some(Action::Render)),
                Action::PageDown => FuzzyList::paged_down(old(self).list, final(self).list, 10) && (
                r matches Some(Action::Render)),
                Action::Character(c) => FuzzyList::refiltered(
                    old(self).list,
                    final(self).list,
                    old(self).list.query@.push(*c),
                ) && (r matches Some(Action::Render)),
                Action::Backspace => FuzzyList::refiltered(
                    old(self).list,
                    final(self).list,
                    if old(self).list.query@.len() == 0 {
                        old(self).list.query@
                    } else {
                        old(self).list.query@.drop_last()
                    },
                ) && (r matches Some(Action::Render)),
                Action::Enter => final(self).list == old(self).list && (
                match old(self).list.spec_selected() {
                    Some(entry) => r matches Some(Action::OpenBuffer { socket, bufnr })
                        && socket@ == entry.socket@ && bufnr == entry.bufnr,
                    None => r is None,
                }),
                Action::Escape => (if old(self).list.query@.len() > 0 {
                    FuzzyList::refiltered(old(self).list, final(self).list, Seq::<char>::empty())
                        && (r matches Some(Action::Render))
                } else {
                    final(self).list == old(self).list && (r matches Some(Action::GoBack))
                }),
                _ => final(self).list == old(self).list && r is None,
            }),
    {
        match action {
            Action::MoveUp => {
                self.list.move_up();
                Some(Action::Render)
            },
            Action::MoveDown => {
                self.list.move_down();
                Some(Action::Render)
            },
            Action::PageUp => {
                self.list.page_up(10);
                Some(Action::Render)
            },
            Action::PageDown => {
                self.list.page_down(10);
                Some(Action::Render)
            },
            Action::Character(c) => {
                self.list.push_char(*c);
                Some(Action::Render)
            },
            Action::Backspace => {
                self.list.pop_char();
                Some(Action::Render)
            },
            Action::Enter => {
                match self.list.selected() {
                    Some(entry) => Some(
                        Action::OpenBuffer {
                            socket: entry.socket.clone(),
                            bufnr: entry.bufnr,
                        },
                    ),
                    None => Option::None,
                }
            },
            Action::Escape => {
                if !self.list.query_is_empty() {
                    self.list.clear_query();
                    Some(Action::Render)
                } else {
                    Some(Action::GoBack)
                }
            },
            _ => Option::None,
        }
    }

    /// The hint line for this view.
    pub fn help_text(&self) -> (r: &'static str)
        ensures
            r@ == "Enter:open  Esc:back"@,
    {
        "Enter:open  Esc:back"
    }
}

impl Default for BufferPicker {
    /// An empty buffer picker.
    fn default() -> (r: Self)
        ensures
            r.list.items@.len() == 0,
            r.list.query@.len() == 0,
            r.list.cursor == 0,
            r.list.wf(),
    {
        BufferPicker::new()
    }
}

} // verus!
