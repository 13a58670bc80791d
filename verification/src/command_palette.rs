//! The command palette: a fuzzy list over the palette commands. Which
//! commands it offers depends on whether the working directory is a
//! repository.

use vstd::prelude::*;

use crate::action::Action;
use crate::entries::PaletteCommand;
use crate::list::FuzzyList;

verus! {

/// The commands the palette lists for a repository (`true`) or a plain
/// directory (`false`).
pub open spec fn palette_commands(is_git_repo: bool) -> Seq<PaletteCommand> {
    if is_git_repo {
        seq![
            PaletteCommand::OpenFile,
            PaletteCommand::NewSession,
            PaletteCommand::KillSession,
            PaletteCommand::ListWorktrees,
            PaletteCommand::CreateWorktree,
            PaletteCommand::GitStatus,
        ]
    } else {
        seq![PaletteCommand::OpenFile, PaletteCommand::NewSession, PaletteCommand::KillSession]
    }
}

pub struct CommandPalette {
    pub list: FuzzyList<PaletteCommand>,
    pub is_git_repo: bool,
}

impl CommandPalette {
    /// A palette for a directory that is (`true`) or is not (`false`) a
    /// repository, already filled with its commands.
    pub fn new(is_git_repo: bool) -> (r: Self)
        ensures
            r.is_git_repo == is_git_repo,
            r.list.items@ == palette_commands(is_git_repo),
            r.list.query@.len() == 0,
            r.list.cursor == 0,
            r.list.wf(),
    {
        let mut palette = CommandPalette { list: FuzzyList::new("Commands"), is_git_repo };
        palette.refresh();
        palette
    }

    /// Refill the palette with the commands for its directory.
    pub fn refresh(&mut self)
        ensures
            final(self).is_git_repo == old(self).is_git_repo,
            final(self).list.items@ == palette_commands(old(self).is_git_repo),
            final(self).list.query == old(self).list.query,
            final(self).list.cursor == 0,
            final(self).list.wf(),
    {
        let commands = if self.is_git_repo {
            PaletteCommand::all()
        } else {
            PaletteCommand::non_git_commands()
        };
        self.list.set_items(commands);
    }

    /// Record whether the directory is a repository and refill the
    /// palette accordingly.
    pub fn set_git_repo(&mut self, is_git_repo: bool)
        ensures
            final(self).is_git_repo == is_git_repo,
            final(self).list.items@ == palette_commands(is_git_repo),
            final(self).list.query == old(self).list.query,
            final(self).list.cursor == 0,
            final(self).list.wf(),
    {
        self.is_git_repo = is_git_repo;
        self.refresh();
    }

    /// Consume one action, possibly emitting a follow-up for the router.
    pub fn handle_action(&mut self, action: &Action) -> (r: Option<Action>)
        requires
            old(self).list.wf(),
        ensures
            final(self).list.wf(),
            final(self).is_git_repo == old(self).is_git_repo,
            (match action {
                Action::MoveUp => FuzzyList::stepped_up(old(self).list, final(self).list) && (
                r matches Some(Action::Render)),
                Action::MoveDown => FuzzyList::stepped_down(old(self).list, final(self).list) && (
                r matches Some(Action::Render)),
                Action::PageUp => FuzzyList::paged_up(old(self).list, final(self).list, 10) && (
                r matches Some(Action::Render)),
                Action::PageDown => FuzzyList::paged_down(old(self).list, final(self).list, 10) && (
                r matches Some(Action::Render)),
                Action::Character(c) => FuzzyList::refiltered(
                    old(self).list,
                    final(self).list,
                    old(self).list.query@.push(*c),
                ) && (r matches Some(Action::Render)),
                Action::Backspace => FuzzyList::refiltered(
                    old(self).list,
                    final(self).list,
                    if old(self).list.query@.len() == 0 {
                        old(self).list.query@
                    } else {
                        old(self).list.query@.drop_last()
                    },
                ) && (r matches Some(Action::Render)),
                Action::Enter => final(self).list == old(self).list && (
                match old(self).list.spec_selected() {
                    Some(cmd) => r == Some(Action::ExecuteCommand(cmd)),
                    None => r is None,
                }),
                Action::Escape => (if old(self).list.query@.len() > 0 {
                    FuzzyList::refiltered(old(self).list, final(self).list, Seq::<char>::empty())
                        && (r matches Some(Action::Render))
                } else {
                    final(self).list == old(self).list && (r matches Some(Action::GoBack))
                }),
                _ => final(self).list == old(self).list && r is None,
            }),
    {
        match action {
            Action::MoveUp => {
                self.list.move_up();
                Some(Action::Render)
            },
            Action::MoveDown => {
                self.list.move_down();
                Some(Action::Render)
            },
            Action::PageUp => {
                self.list.page_up(10);
                Some(Action::Render)
            },
            Action::PageDown => {
                self.list.page_down(10);
                Some(Action::Render)
            },
            Action::Character(c) => {
                self.list.push_char(*c);
                Some(Action::Render)
            },
            Action::Backspace => {
                self.list.pop_char();
                Some(Action::Render)
            },
            Action::Enter => {
                match self.list.selected() {
                    Some(cmd) => Some(Action::ExecuteCommand(*cmd)),
                    None => Option::None,
                }
            },
            Action::Escape => {
                if !self.list.query_is_empty() {
                    self.list.clear_query();
                    Some(Action::Render)
                } else {
                    Some(Action::GoBack)
                }
            },
            _ => Option::None,
        }
    }

    /// The hint line for this view.
    pub fn help_text(&self) -> (r: &'static str)
        ensures
            r@ == "Enter:execute  Esc:back"@,
    {
        "Enter:execute  Esc:back"
    }
}

} // verus!
