//! The action router: one controller owning the active view, the modal
//! dialog slot, and the pickers. Every input-mapped action runs through
//! `handle_action`, which routes it dialog-first, then against the fixed
//! set of global actions, then to the active view, and re-dispatches at
//! most one follow-up.
//!
//! The controller is pure: where the original flow would call the
//! session manager, the version-control tool, or the editor, it returns
//! an `Effect` telling the surrounding process what to do; the process
//! reports back through the completion methods (`finish_*`, `set_*`),
//! so a failed collaborator call leaves the controller exactly as it
//! was.

use vstd::prelude::*;
use vstd::relations::sorted_by;
use vstd::string::StrSliceExecFns;
use vstd::string::StringExecFns;

use crate::action::Action;
use crate::action::ConfirmCallback;
use crate::action::InputCallback;
use crate::command_palette::palette_commands;
use crate::command_palette::CommandPalette;
use crate::dialog::ConfirmDialog;
use crate::dialog::DialogResult;
use crate::dialog::InputDialog;
use crate::entries::FileEntry;
use crate::entries::PaletteCommand;
use crate::entries::SessionEntry;
use crate::entries::WorktreeEntry;
use crate::file_picker::file_le_fn;
use crate::file_picker::visible_entries;
use crate::file_picker::FilePicker;
use crate::list::FuzzyList;
use crate::session_picker::SessionPicker;
use crate::text::file_name;
use crate::text::file_name_of;
use crate::worktree_picker::WorktreePicker;

verus! {

/// The one active picker.
#[derive(Clone, Copy, PartialEq, Eq, Structural, Debug)]
pub enum AppView {
    SessionPicker,
    CommandPalette,
    FilePicker,
    WorktreePicker,
}

/// The modal slot: at most one dialog, owning input while present.
pub enum Dialog {
    Closed,
    Input(InputDialog),
    Confirm(ConfirmDialog),
}

/// What the surrounding process must do for the controller: call a
/// collaborator, then report back through the matching completion
/// method.
pub enum Effect {
    /// Leave the surface and switch to the session; the run ends.
    SwitchSession(String),
    /// Create the session (at the path, when given) and switch to it;
    /// on success call `finish_session_start`.
    CreateSession { name: String, path: Option<String> },
    /// Kill the session; on success list the sessions again and call
    /// `finish_session_killed`.
    KillSession(String),
    /// Leave the surface and open the file in the editor; the run ends.
    OpenFile(String),
    /// Leave the surface and open the buffer in the editor instance at
    /// the socket; the run ends.
    OpenBuffer { socket: String, bufnr: i64 },
    /// List the sessions and call `worktree_switch_plan` with their
    /// names; then perform the effect it returns.
    PrepareWorktreeSwitch(String),
    /// Create a worktree for the branch; on success call
    /// `finish_worktree_created` with the new path and perform the
    /// effect it returns.
    CreateWorktree(String),
    /// Delete the worktree; on success list the worktrees again and
    /// call `finish_worktree_removed`.
    DeleteWorktree(String),
    /// List the worktrees and call `resolve_merge`; when it names a
    /// branch, merge it to main, list again and call
    /// `finish_worktree_removed`.
    ResolveMerge(String),
    /// Run the diff viewer in a transient overlay over the surface.
    ShowGitDiff,
    /// Ask for the current session's name and call
    /// `open_kill_session_confirm` with it.
    QueryCurrentSession,
    /// List the sessions and call `set_sessions`.
    RefreshSessions,
    /// Read the directory and call `set_file_entries`.
    RefreshFiles(String),
    /// List the worktrees and call `set_worktrees`.
    RefreshWorktrees,
}

/// The controller.
pub struct App {
    pub view: AppView,
    pub dialog: Dialog,
    pub running: bool,
    pub current_path: String,
    pub is_git_repo: bool,
    pub session_picker: SessionPicker,
    pub command_palette: Option<CommandPalette>,
    pub file_picker: Option<FilePicker>,
    pub worktree_picker: Option<WorktreePicker>,
}

/// The actions the router handles itself, before any view sees them.
pub open spec fn is_global_spec(a: Action) -> bool {
    match a {
        Action::Quit => true,
        Action::CloseDialog => true,
        Action::ShowInput { .. } => true,
        Action::ShowConfirm { .. } => true,
        Action::SwitchSession(..) => true,
        Action::CreateSession(..) => true,
        Action::KillSession(..) => true,
        Action::OpenFile(..) => true,
        Action::OpenBuffer { .. } => true,
        Action::SwitchWorktree(..) => true,
        Action::CreateWorktree(..) => true,
        Action::DeleteWorktree(..) => true,
        Action::MergeWorktree(..) => true,
        Action::ExecuteCommand(..) => true,
        Action::ShowSessionPicker => true,
        Action::ShowCommandPalette => true,
        Action::ShowFilePicker => true,
        Action::ShowWorktreePicker => true,
        Action::ShowGitDiff => true,
        Action::Render => true,
        _ => false,
    }
}

fn is_global(a: &Action) -> (r: bool)
    ensures
        r == is_global_spec(*a),
{
    match a {
        Action::Quit => true,
        Action::CloseDialog => true,
        Action::ShowInput { .. } => true,
        Action::ShowConfirm { .. } => true,
        Action::SwitchSession(..) => true,
        Action::CreateSession(..) => true,
        Action::KillSession(..) => true,
        Action::OpenFile(..) => true,
        Action::OpenBuffer { .. } => true,
        Action::SwitchWorktree(..) => true,
        Action::CreateWorktree(..) => true,
        Action::DeleteWorktree(..) => true,
        Action::MergeWorktree(..) => true,
        Action::ExecuteCommand(..) => true,
        Action::ShowSessionPicker => true,
        Action::ShowCommandPalette => true,
        Action::ShowFilePicker => true,
        Action::ShowWorktreePicker => true,
        Action::ShowGitDiff => true,
        Action::Render => true,
        _ => false,
    }
}

/// Where the dialog tier sent the action.
enum Routed {
    Consumed,
    ConsumedClose,
    Go(Action),
}

impl App {
    /// All four picker slots are as they were.
    pub open spec fn same_pickers(pre: App, post: App) -> bool {
        &&& post.session_picker == pre.session_picker
        &&& post.command_palette == pre.command_palette
        &&& post.file_picker == pre.file_picker
        &&& post.worktree_picker == pre.worktree_picker
    }

    /// The working-directory context is as it was.
    pub open spec fn same_env(pre: App, post: App) -> bool {
        &&& post.current_path == pre.current_path
        &&& post.is_git_repo == pre.is_git_repo
    }

    /// Nothing changed.
    pub open spec fn unchanged(pre: App, post: App) -> bool {
        &&& App::same_pickers(pre, post)
        &&& App::same_env(pre, post)
        &&& post.view == pre.view
        &&& post.dialog == pre.dialog
        &&& post.running == pre.running
    }

    /// Every picker that exists is well-formed.
    pub open spec fn wf(&self) -> bool {
        &&& self.session_picker.list.wf()
        &&& (self.command_palette matches Some(p) ==> p.list.wf())
        &&& (self.file_picker matches Some(p) ==> p.list.wf())
        &&& (self.worktree_picker matches Some(p) ==> p.list.wf())
    }

    /// The command palette after showing it: kept if it existed, else
    /// freshly built for the current directory; the other pickers kept.
    pub open spec fn palette_shown(pre: App, post: App) -> bool {
        &&& post.session_picker == pre.session_picker
        &&& post.file_picker == pre.file_picker
        &&& post.worktree_picker == pre.worktree_picker
        &&& (match pre.command_palette {
            Some(_) => post.command_palette == pre.command_palette,
            None => post.command_palette matches Some(p) && p.is_git_repo == pre.is_git_repo
                && p.list.items@ == palette_commands(pre.is_git_repo) && p.list.query@.len() == 0
                && p.list.cursor == 0 && p.list.wf(),
        })
    }

    /// The file picker after showing it: kept if it existed, else
    /// freshly rooted at the current directory, its listing still to
    /// come; the other pickers kept.
    pub open spec fn file_picker_shown(pre: App, post: App) -> bool {
        &&& post.session_picker == pre.session_picker
        &&& post.command_palette == pre.command_palette
        &&& post.worktree_picker == pre.worktree_picker
        &&& (match pre.file_picker {
            Some(_) => post.file_picker == pre.file_picker,
            None => post.file_picker matches Some(p) && p.current_dir@ == pre.current_path@
                && p.list.items@.len() == 0 && p.list.query@.len() == 0 && p.list.cursor == 0
                && p.list.wf(),
        })
    }

    /// The worktree picker after showing it: kept if it existed, else
    /// fresh and empty, its listing still to come; the other pickers
    /// kept.
    pub open spec fn worktree_picker_shown(pre: App, post: App) -> bool {
        &&& post.session_picker == pre.session_picker
        &&& post.command_palette == pre.command_palette
        &&& post.file_picker == pre.file_picker
        &&& (match pre.worktree_picker {
            Some(_) => post.worktree_picker == pre.worktree_picker,
            None => post.worktree_picker matches Some(p) && p.list.items@.len() == 0
                && p.list.query@.len() == 0 && p.list.cursor == 0 && p.list.wf(),
        })
    }

    /// What one palette command does: a state transition, an effect, or
    /// both.
    pub open spec fn execute_command_rel(
        pre: App,
        post: App,
        cmd: PaletteCommand,
        r: Option<Effect>,
    ) -> bool {
        match cmd {
            PaletteCommand::OpenFile => App::file_picker_shown(pre, post) && App::same_env(
                pre,
                post,
            ) && post.view is FilePicker && post.dialog == pre.dialog && post.running
                == pre.running && (match pre.file_picker {
                Some(_) => r is None,
                None => r matches Some(Effect::RefreshFiles(d)) && d@ == pre.current_path@,
            }),
            PaletteCommand::NewSession => App::same_pickers(pre, post) && App::same_env(pre, post)
                && post.view == pre.view && post.running == pre.running && (
            post.dialog matches Dialog::Input(d) && d.title@ == "New Session Name"@ && d.callback
                is CreateSession && d.buffer@.len() == 0) && r is None,
            PaletteCommand::KillSession => App::unchanged(pre, post) && (r matches Some(
                Effect::QueryCurrentSession,
            )),
            PaletteCommand::ListWorktrees => App::worktree_picker_shown(pre, post) && App::same_env(
                pre,
                post,
            ) && post.view is WorktreePicker && post.dialog == pre.dialog && post.running
                == pre.running && (match pre.worktree_picker {
                Some(_) => r is None,
                None => r matches Some(Effect::RefreshWorktrees),
            }),
            PaletteCommand::CreateWorktree => App::same_pickers(pre, post) && App::same_env(
                pre,
                post,
            ) && post.view == pre.view && post.running == pre.running && (
            post.dialog matches Dialog::Input(d) && d.title@ == "New Worktree Branch"@ && d.callback
                is CreateWorktree && d.buffer@.len() == 0) && r is None,
            PaletteCommand::GitStatus => App::unchanged(pre, post) && (r matches Some(
                Effect::ShowGitDiff,
            )),
        }
    }

    /// What one global action does.
    pub open spec fn global_step_rel(pre: App, post: App, a: Action, r: Option<Effect>) -> bool {
        match a {
            Action::Quit => App::same_pickers(pre, post) && App::same_env(pre, post) && post.view
                == pre.view && post.dialog == pre.dialog && !post.running && r is None,
            Action::CloseDialog => App::same_pickers(pre, post) && App::same_env(pre, post)
                && post.view == pre.view && post.running == pre.running && post.dialog is Closed
                && r is None,
            Action::ShowInput { title, callback } => App::same_pickers(pre, post) && App::same_env(
                pre,
                post,
            ) && post.view == pre.view && post.running == pre.running && (
            post.dialog matches Dialog::Input(d) && d.title == title && d.callback == callback
                && d.buffer@.len() == 0) && r is None,
            Action::ShowConfirm { title, message, callback } => App::same_pickers(pre, post)
                && App::same_env(pre, post) && post.view == pre.view && post.running == pre.running
                && (post.dialog matches Dialog::Confirm(d) && d.title == title && d.message
                == message && d.callback == callback && d.selected) && r is None,
            Action::SwitchSession(name) => App::same_pickers(pre, post) && App::same_env(pre, post)
                && post.view == pre.view && post.dialog == pre.dialog && !post.running && (
            r matches Some(Effect::SwitchSession(n)) && n == name),
            Action::CreateSession(name, path) => App::unchanged(pre, post) && (r matches Some(
                Effect::CreateSession { name: n, path: p },
            ) && n == name && p == path),
            Action::KillSession(name) => App::unchanged(pre, post) && (r matches Some(
                Effect::KillSession(n),
            ) && n == name),
            Action::OpenFile(path) => App::same_pickers(pre, post) && App::same_env(pre, post)
                && post.view == pre.view && post.dialog == pre.dialog && !post.running && (
            r matches Some(Effect::OpenFile(p)) && p == path),
            Action::OpenBuffer { socket, bufnr } => App::same_pickers(pre, post) && App::same_env(
                pre,
                post,
            ) && post.view == pre.view && post.dialog == pre.dialog && !post.running && (
            r matches Some(Effect::OpenBuffer { socket: s, bufnr: b }) && s == socket && b
                == bufnr),
            Action::SwitchWorktree(path) => App::unchanged(pre, post) && (r matches Some(
                Effect::PrepareWorktreeSwitch(p),
            ) && p == path),
            Action::CreateWorktree(branch) => (if pre.is_git_repo {
                App::unchanged(pre, post) && (r matches Some(Effect::CreateWorktree(b)) && b
                    == branch)
            } else {
                App::same_pickers(pre, post) && App::same_env(pre, post) && post.view == pre.view
                    && post.running == pre.running && post.dialog is Closed && r is None
            }),
            Action::DeleteWorktree(path) => (if pre.is_git_repo {
                App::unchanged(pre, post) && (r matches Some(Effect::DeleteWorktree(p)) && p
                    == path)
            } else {
                App::same_pickers(pre, post) && App::same_env(pre, post) && post.view == pre.view
                    && post.running == pre.running && post.dialog is Closed && r is None
            }),
            Action::MergeWorktree(path) => (if pre.is_git_repo {
                App::unchanged(pre, post) && (r matches Some(Effect::ResolveMerge(p)) && p == path)
            } else {
                App::same_pickers(pre, post) && App::same_env(pre, post) && post.view == pre.view
                    && post.running == pre.running && post.dialog is Closed && r is None
            }),
            Action::ExecuteCommand(cmd) => App::execute_command_rel(pre, post, cmd, r),
            Action::ShowSessionPicker => App::same_pickers(pre, post) && App::same_env(pre, post)
                && post.view is SessionPicker && post.dialog == pre.dialog && post.running
                == pre.running && (r matches Some(Effect::RefreshSessions)),
            Action::ShowCommandPalette => App::palette_shown(pre, post) && App::same_env(pre, post)
                && post.view is CommandPalette && post.dialog == pre.dialog && post.running
                == pre.running && r is None,
            Action::ShowFilePicker => App::file_picker_shown(pre, post) && App::same_env(pre, post)
                && post.view is FilePicker && post.dialog == pre.dialog && post.running
                == pre.running && (match pre.file_picker {
                Some(_) => r is None,
                None => r matches Some(Effect::RefreshFiles(d)) && d@ == pre.current_path@,
            }),
            Action::ShowWorktreePicker => App::worktree_picker_shown(pre, post) && App::same_env(
                pre,
                post,
            ) && post.view is WorktreePicker && post.dialog == pre.dialog && post.running
                == pre.running && (match pre.worktree_picker {
                Some(_) => r is None,
                None => r matches Some(Effect::RefreshWorktrees),
            }),
            Action::ShowGitDiff => App::unchanged(pre, post) && (r matches Some(
                Effect::ShowGitDiff,
            )),
            Action::Render => App::unchanged(pre, post) && r is None,
            _ => true,
        }
    }

    /// A controller showing `initial_view`, knowing the working
    /// directory and whether it is a repository, with the session list
    /// already loaded. Only the command palette is built up front, and
    /// only when it is the initial view.
    pub fn new(
        initial_view: AppView,
        current_path: String,
        is_git_repo: bool,
        sessions: Vec<SessionEntry>,
    ) -> (r: App)
        ensures
            r.wf(),
            r.view == initial_view,
            r.dialog is Closed,
            r.running,
            r.current_path == current_path,
            r.is_git_repo == is_git_repo,
            r.session_picker.list.items@ == sessions@,
            r.session_picker.list.query@.len() == 0,
            r.session_picker.list.cursor == 0,
            (match initial_view {
                AppView::CommandPalette => r.command_palette matches Some(p) && p.is_git_repo
                    == is_git_repo && p.list.items@ == palette_commands(is_git_repo)
                    && p.list.query@.len() == 0 && p.list.cursor == 0,
                _ => r.command_palette is None,
            }),
            r.file_picker is None,
            r.worktree_picker is None,
    {
        let mut session_picker = SessionPicker::new();
        session_picker.refresh(sessions);
        let command_palette = match initial_view {
            AppView::CommandPalette => Some(CommandPalette::new(is_git_repo)),
            _ => Option::None,
        };
        App {
            view: initial_view,
            dialog: Dialog::Closed,
            running: true,
            current_path,
            is_git_repo,
            session_picker,
            command_palette,
            file_picker: Option::None,
            worktree_picker: Option::None,
        }
    }

    /// Handle one global action.
    fn handle_global(&mut self, action: Action) -> (r: Option<Effect>)
        requires
            old(self).wf(),
            is_global_spec(action),
        ensures
            final(self).wf(),
            App::global_step_rel(*old(self), *final(self), action, r),
    {
        match action {
            Action::Quit => {
                self.running = false;
                Option::None
            },
            Action::CloseDialog => {
                self.dialog = Dialog::Closed;
                Option::None
            },
            Action::ShowInput { title, callback } => {
                self.dialog = Dialog::Input(InputDialog::new(title, callback));
                Option::None
            },
            Action::ShowConfirm { title, message, callback } => {
                self.dialog = Dialog::Confirm(ConfirmDialog::new(title, message, callback));
                Option::None
            },
            Action::SwitchSession(name) => {
                self.running = false;
                Some(Effect::SwitchSession(name))
            },
            Action::CreateSession(name, path) => Some(Effect::CreateSession { name, path }),
            Action::KillSession(name) => Some(Effect::KillSession(name)),
            Action::OpenFile(path) => {
                self.running = false;
                Some(Effect::OpenFile(path))
            },
            Action::OpenBuffer { socket, bufnr } => {
                self.running = false;
                Some(Effect::OpenBuffer { socket, bufnr })
            },
            Action::SwitchWorktree(path) => Some(Effect::PrepareWorktreeSwitch(path)),
            Action::CreateWorktree(branch) => {
                if self.is_git_repo {
                    Some(Effect::CreateWorktree(branch))
                } else {
                    self.dialog = Dialog::Closed;
                    Option::None
                }
            },
            Action::DeleteWorktree(path) => {
                if self.is_git_repo {
                    Some(Effect::DeleteWorktree(path))
                } else {
                    self.dialog = Dialog::Closed;
                    Option::None
                }
            },
            Action::MergeWorktree(path) => {
                if self.is_git_repo {
                    Some(Effect::ResolveMerge(path))
                } else {
                    self.dialog = Dialog::Closed;
                    Option::None
                }
            },
            Action::ExecuteCommand(cmd) => self.execute_command(cmd),
            Action::ShowSessionPicker => {
                self.view = AppView::SessionPicker;
                Some(Effect::RefreshSessions)
            },
            Action::ShowCommandPalette => {
                self.view = AppView::CommandPalette;
                if self.command_palette.is_none() {
                    self.command_palette = Some(CommandPalette::new(self.is_git_repo));
                }
                Option::None
            },
            Action::ShowFilePicker => {
                self.view = AppView::FilePicker;
                if self.file_picker.is_none() {
                    self.file_picker = Some(FilePicker::new(self.current_path.clone()));
                    Some(Effect::RefreshFiles(self.current_path.clone()))
                } else {
                    Option::None
                }
            },
            Action::ShowWorktreePicker => {
                self.view = AppView::WorktreePicker;
                if self.worktree_picker.is_none() {
                    self.worktree_picker = Some(WorktreePicker::new());
                    Some(Effect::RefreshWorktrees)
                } else {
                    Option::None
                }
            },
            Action::ShowGitDiff => Some(Effect::ShowGitDiff),
            Action::Render => Option::None,
            _ => Option::None,
        }
    }

    /// Run one palette command: a state transition, an effect, or both.
    pub fn execute_command(&mut self, cmd: PaletteCommand) -> (r: Option<Effect>)
        requires
            old(self).wf(),
        ensures
            final(self).wf(),
            App::execute_command_rel(*old(self), *final(self), cmd, r),
    {
        match cmd {
            PaletteCommand::OpenFile => {
                self.view = AppView::FilePicker;
                if self.file_picker.is_none() {
                    self.file_picker = Some(FilePicker::new(self.current_path.clone()));
                    Some(Effect::RefreshFiles(self.current_path.clone()))
                } else {
                    Option::None
                }
            },
            PaletteCommand::NewSession => {
                self.dialog = Dialog::Input(
                    InputDialog::new(
                        String::from_str("New Session Name"),
                        InputCallback::CreateSession,
                    ),
                );
                Option::None
            },
            PaletteCommand::KillSession => Some(Effect::QueryCurrentSession),
            PaletteCommand::ListWorktrees => {
                self.view = AppView::WorktreePicker;
                if self.worktree_picker.is_none() {
                    self.worktree_picker = Some(WorktreePicker::new());
                    Some(Effect::RefreshWorktrees)
                } else {
                    Option::None
                }
            },
            PaletteCommand::CreateWorktree => {
                self.dialog = Dialog::Input(
                    InputDialog::new(
                        String::from_str("New Worktree Branch"),
                        InputCallback::CreateWorktree,
                    ),
                );
                Option::None
            },
            PaletteCommand::GitStatus => Some(Effect::ShowGitDiff),
        }
    }

    /// After a session was created and switched to: the dialog closes
    /// and the run ends.
    pub fn finish_session_start(&mut self)
        ensures
            App::same_pickers(*old(self), *final(self)),
            App::same_env(*old(self), *final(self)),
            final(self).view == old(self).view,
            final(self).dialog is Closed,
            !final(self).running,
    {
        self.dialog = Dialog::Closed;
        self.running = false;
    }

    /// After a session was killed: the dialog closes and the session
    /// picker shows the fresh listing.
    pub fn finish_session_killed(&mut self, sessions: Vec<SessionEntry>)
        ensures
            App::same_env(*old(self), *final(self)),
            final(self).view == old(self).view,
            final(self).running == old(self).running,
            final(self).dialog is Closed,
            final(self).command_palette == old(self).command_palette,
            final(self).file_picker == old(self).file_picker,
            final(self).worktree_picker == old(self).worktree_picker,
            final(self).session_picker.list.items@ == sessions@,
            final(self).session_picker.list.query == old(self).session_picker.list.query,
            final(self).session_picker.list.cursor == 0,
            final(self).session_picker.list.wf(),
    {
        self.dialog = Dialog::Closed;
        self.session_picker.refresh(sessions);
    }

    /// Replace the session picker's listing.
    pub fn set_sessions(&mut self, sessions: Vec<SessionEntry>)
        ensures
            App::same_env(*old(self), *final(self)),
            final(self).view == old(self).view,
            final(self).running == old(self).running,
            final(self).dialog == old(self).dialog,
            final(self).command_palette == old(self).command_palette,
            final(self).file_picker == old(self).file_picker,
            final(self).worktree_picker == old(self).worktree_picker,
            final(self).session_picker.list.items@ == sessions@,
            final(self).session_picker.list.query == old(self).session_picker.list.query,
            final(self).session_picker.list.cursor == 0,
            final(self).session_picker.list.wf(),
    {
        self.session_picker.refresh(sessions);
    }

    /// Plan the switch to a worktree's session, the session names being
    /// known: the session is named after the path's file name — its
    /// last component, trailing slashes ignored, with `worktree` as the
    /// fallback where no file name exists — created at the path only
    /// when no session of that name exists, and switched to; the run
    /// ends.
    pub fn worktree_switch_plan(&mut self, path: String, session_names: Vec<String>) -> (r: Effect)
        ensures
            App::same_pickers(*old(self), *final(self)),
            App::same_env(*old(self), *final(self)),
            final(self).view == old(self).view,
            final(self).dialog == old(self).dialog,
            !final(self).running,
            ({
                let fname = file_name_of(path@);
                let name = if fname.len() == 0 || fname == ".."@ {
                    "worktree"@
                } else {
                    fname
                };
                if exists|i: int| 0 <= i < session_names@.len() && session_names@[i]@ == name {
                    r matches Effect::SwitchSession(n) && n@ == name
                } else {
                    r matches Effect::CreateSession { name: n, path: p } && n@ == name && (
                    p matches Some(q) && q@ == path@)
                }
            }),
    {
        self.running = false;
        let seg = file_name(path.as_str());
        let dotdot = String::from_str("..");
        let name = if seg.as_str().unicode_len() == 0 || seg.eq(&dotdot) {
            String::from_str("worktree")
        } else {
            seg
        };
        let n = session_names.len();
        let mut i: usize = 0;
        let mut found = false;
        while i < n
            invariant
                i <= n,
                n == session_names@.len(),
                found <==> exists|k: int| 0 <= k < i && session_names@[k]@ == name@,
            decreases n - i,
        {
            if !found {
                if session_names[i].eq(&name) {
                    found = true;
                }
            }
            i = i + 1;
        }
        if found {
            Effect::SwitchSession(name)
        } else {
            Effect::CreateSession { name, path: Some(path) }
        }
    }

    /// After a worktree was created: the dialog closes and the switch
    /// to its session is prepared.
    pub fn finish_worktree_created(&mut self, path: String) -> (r: Effect)
        ensures
            App::same_pickers(*old(self), *final(self)),
            App::same_env(*old(self), *final(self)),
            final(self).view == old(self).view,
            final(self).running == old(self).running,
            final(self).dialog is Closed,
            r matches Effect::PrepareWorktreeSwitch(p) && p == path,
    {
        self.dialog = Dialog::Closed;
        Effect::PrepareWorktreeSwitch(path)
    }

    /// The branch of the first listed worktree at `path`, if any: what
    /// a merge must resolve before it runs.
    pub fn resolve_merge(&self, path: &String, worktrees: &Vec<WorktreeEntry>) -> (r: Option<
        String,
    >)
        ensures
            (r is Some) <==> (exists|i: int|
                0 <= i < worktrees@.len() && worktrees@[i].path@ == path@),
            r matches Some(b) ==> exists|i: int|
                0 <= i < worktrees@.len() && worktrees@[i].path@ == path@ && b@
                    == #[trigger] worktrees@[i].branch@,
    {
        let n = worktrees.len();
        let mut i: usize = 0;
        while i < n
            invariant
                i <= n,
                n == worktrees@.len(),
                forall|k: int| 0 <= k < i ==> worktrees@[k].path@ != path@,
            decreases n - i,
        {
            if worktrees[i].path.eq(path) {
                let b = worktrees[i].branch.clone();
                proof {
                    assert(worktrees@[i as int].path@ == path@ && b@ == worktrees@[i as int].branch@);
                }
                return Some(b);
            }
            i = i + 1;
        }
        Option::None
    }

    /// After a worktree was deleted or merged away: the dialog closes
    /// and the worktree picker, where it exists, shows the fresh
    /// listing.
    pub fn finish_worktree_removed(&mut self, worktrees: Vec<WorktreeEntry>)
        ensures
            App::same_env(*old(self), *final(self)),
            final(self).view == old(self).view,
            final(self).running == old(self).running,
            final(self).dialog is Closed,
            final(self).session_picker == old(self).session_picker,
            final(self).command_palette == old(self).command_palette,
            final(self).file_picker == old(self).file_picker,
            (match old(self).worktree_picker {
                Some(_) => final(self).worktree_picker matches Some(p) && p.list.items@
                    == worktrees@ && p.list.cursor == 0 && p.list.wf(),
                None => final(self).worktree_picker is None,
            }),
    {
        self.dialog = Dialog::Closed;
        match &mut self.worktree_picker {
            Some(picker) => {
                picker.refresh(worktrees);
            },
            None => {},
        }
    }

    /// Ask to kill the current session, its name being known: a confirm
    /// dialog seeded with that name.
    pub fn open_kill_session_confirm(&mut self, name: String)
        ensures
            App::same_pickers(*old(self), *final(self)),
            App::same_env(*old(self), *final(self)),
            final(self).view == old(self).view,
            final(self).running == old(self).running,
            final(self).dialog matches Dialog::Confirm(d) && d.title@ == "Kill Session"@
                && d.message@ == "Kill current session '"@ + name@ + "'?"@ && (
            d.callback matches ConfirmCallback::KillSession(n) && n@ == name@) && d.selected,
    {
        let message = String::from_str("Kill current session '").concat(name.as_str()).concat(
            "'?",
        );
        self.dialog = Dialog::Confirm(
            ConfirmDialog::new(
                String::from_str("Kill Session"),
                message,
                ConfirmCallback::KillSession(name),
            ),
        );
    }

    /// Replace the file picker's listing, where the picker exists: the
    /// visible entries of `raw`, sorted into the listing order, behind
    /// a `..` entry when `parent` is given.
    pub fn set_file_entries(&mut self, parent: Option<String>, raw: Vec<FileEntry>)
        ensures
            App::same_env(*old(self), *final(self)),
            final(self).view == old(self).view,
            final(self).running == old(self).running,
            final(self).dialog == old(self).dialog,
            final(self).session_picker == old(self).session_picker,
            final(self).command_palette == old(self).command_palette,
            final(self).worktree_picker == old(self).worktree_picker,
            (match old(self).file_picker {
                Some(p) => final(self).file_picker matches Some(p2) && p2.current_dir
                    == p.current_dir && p2.list.query == p.list.query && p2.list.cursor == 0
                    && p2.list.wf() && (match parent {
                    Some(pp) => p2.list.items@.len() >= 1 && p2.list.items@[0].path == pp
                        && p2.list.items@[0].is_dir && p2.list.items@[0].name@ == ".."@
                        && p2.list.items@.skip(1).to_multiset() == visible_entries(
                        raw@,
                    ).to_multiset() && sorted_by(p2.list.items@.skip(1), file_le_fn()),
                    None => p2.list.items@.to_multiset() == visible_entries(raw@).to_multiset()
                        && sorted_by(p2.list.items@, file_le_fn()),
                }),
                None => final(self).file_picker is None,
            }),
    {
        match &mut self.file_picker {
            Some(picker) => {
                picker.refresh(parent, raw);
            },
            None => {},
        }
    }

    /// Replace the worktree picker's listing, where the picker exists.
    pub fn set_worktrees(&mut self, worktrees: Vec<WorktreeEntry>)
        ensures
            App::same_env(*old(self), *final(self)),
            final(self).view == old(self).view,
            final(self).running == old(self).running,
            final(self).dialog == old(self).dialog,
            final(self).session_picker == old(self).session_picker,
            final(self).command_palette == old(self).command_palette,
            final(self).file_picker == old(self).file_picker,
            (match old(self).worktree_picker {
                Some(_) => final(self).worktree_picker matches Some(p) && p.list.items@
                    == worktrees@ && p.list.cursor == 0 && p.list.wf(),
                None => final(self).worktree_picker is None,
            }),
    {
        match &mut self.worktree_picker {
            Some(picker) => {
                picker.refresh(worktrees);
            },
            None => {},
        }
    }

    /// Everything except the session picker, the dialog and the run
    /// flag is as it was.
    pub open spec fn frame_session(pre: App, post: App) -> bool {
        &&& App::same_env(pre, post)
        &&& post.view == pre.view
        &&& post.command_palette == pre.command_palette
        &&& post.file_picker == pre.file_picker
        &&& post.worktree_picker == pre.worktree_picker
    }

    /// Everything except the command palette, the dialog and the run
    /// flag is as it was.
    pub open spec fn frame_palette(pre: App, post: App) -> bool {
        &&& App::same_env(pre, post)
        &&& post.view == pre.view
        &&& post.session_picker == pre.session_picker
        &&& post.file_picker == pre.file_picker
        &&& post.worktree_picker == pre.worktree_picker
    }

    /// Everything except the file picker, the dialog and the run flag
    /// is as it was.
    pub open spec fn frame_file(pre: App, post: App) -> bool {
        &&& App::same_env(pre, post)
        &&& post.view == pre.view
        &&& post.session_picker == pre.session_picker
        &&& post.command_palette == pre.command_palette
        &&& post.worktree_picker == pre.worktree_picker
    }

    /// Everything except the worktree picker, the dialog and the run
    /// flag is as it was.
    pub open spec fn frame_worktree(pre: App, post: App) -> bool {
        &&& App::same_env(pre, post)
        &&& post.view == pre.view
        &&& post.session_picker == pre.session_picker
        &&& post.command_palette == pre.command_palette
        &&& post.file_picker == pre.file_picker
    }

    /// What a non-global action does while the session picker is the
    /// view.
    pub open spec fn session_delegation_rel(pre: App, post: App, a: Action, r: Option<
        Effect,
    >) -> bool {
        let sp = pre.session_picker.list;
        App::frame_session(pre, post) && (match a {
            Action::MoveUp => FuzzyList::stepped_up(sp, post.session_picker.list) && post.dialog
                == pre.dialog && post.running == pre.running && r is None,
            Action::MoveDown => FuzzyList::stepped_down(sp, post.session_picker.list) && post.dialog
                == pre.dialog && post.running == pre.running && r is None,
            Action::PageUp => FuzzyList::paged_up(sp, post.session_picker.list, 10) && post.dialog
                == pre.dialog && post.running == pre.running && r is None,
            Action::PageDown => FuzzyList::paged_down(sp, post.session_picker.list, 10)
                && post.dialog == pre.dialog && post.running == pre.running && r is None,
            Action::Character(c) => (if c == 'd' && sp.query@.len() == 0 {
                post.session_picker == pre.session_picker && post.running == pre.running && r
                    is None && (match sp.spec_selected() {
                    Some(s) => post.dialog matches Dialog::Confirm(d) && d.title@
                        == "Delete Session"@ && d.message@ == "Delete session '"@ + s.name@ + "'?"@
                        && (d.callback matches ConfirmCallback::KillSession(n) && n@ == s.name@)
                        && d.selected,
                    None => post.dialog == pre.dialog,
                })
            } else if c == 'n' && sp.query@.len() == 0 {
                post.session_picker == pre.session_picker && post.running == pre.running && r
                    is None && (post.dialog matches Dialog::Input(d) && d.title@ == "New Session"@
                    && d.callback is CreateSession && d.buffer@.len() == 0)
            } else {
                FuzzyList::refiltered(sp, post.session_picker.list, sp.query@.push(c))
                    && post.dialog == pre.dialog && post.running == pre.running && r is None
            }),
            Action::Backspace => FuzzyList::refiltered(
                sp,
                post.session_picker.list,
                if sp.query@.len() == 0 {
                    sp.query@
                } else {
                    sp.query@.drop_last()
                },
            ) && post.dialog == pre.dialog && post.running == pre.running && r is None,
            Action::Enter => (match sp.spec_selected() {
                Some(s) => post.session_picker == pre.session_picker && post.dialog == pre.dialog
                    && !post.running && (r matches Some(Effect::SwitchSession(n)) && n@
                    == s.name@),
                None => post.session_picker == pre.session_picker && post.dialog == pre.dialog
                    && post.running == pre.running && r is None,
            }),
            Action::Escape => (if sp.query@.len() > 0 {
                FuzzyList::refiltered(sp, post.session_picker.list, Seq::<char>::empty())
                    && post.dialog == pre.dialog && post.running == pre.running && r is None
            } else {
                post.session_picker == pre.session_picker && post.dialog == pre.dialog
                    && post.running == pre.running && r is None
            }),
            _ => post.session_picker == pre.session_picker && post.dialog == pre.dialog
                && post.running == pre.running && r is None,
        })
    }

    /// What a non-global action does while the command palette is the
    /// view.
    pub open spec fn palette_delegation_rel(pre: App, post: App, a: Action, r: Option<
        Effect,
    >) -> bool {
        match pre.command_palette {
            None => App::unchanged(pre, post) && r is None,
            Some(cp) => (match a {
                Action::MoveUp => App::frame_palette(pre, post) && (
                post.command_palette matches Some(cp2) && cp2.is_git_repo == cp.is_git_repo
                    && FuzzyList::stepped_up(cp.list, cp2.list)) && post.dialog == pre.dialog
                    && post.running == pre.running && r is None,
                Action::MoveDown => App::frame_palette(pre, post) && (
                post.command_palette matches Some(cp2) && cp2.is_git_repo == cp.is_git_repo
                    && FuzzyList::stepped_down(cp.list, cp2.list)) && post.dialog == pre.dialog
                    && post.running == pre.running && r is None,
                Action::PageUp => App::frame_palette(pre, post) && (
                post.command_palette matches Some(cp2) && cp2.is_git_repo == cp.is_git_repo
                    && FuzzyList::paged_up(cp.list, cp2.list, 10)) && post.dialog == pre.dialog
                    && post.running == pre.running && r is None,
                Action::PageDown => App::frame_palette(pre, post) && (
                post.command_palette matches Some(cp2) && cp2.is_git_repo == cp.is_git_repo
                    && FuzzyList::paged_down(cp.list, cp2.list, 10)) && post.dialog == pre.dialog
                    && post.running == pre.running && r is None,
                Action::Character(c) => App::frame_palette(pre, post) && (
                post.command_palette matches Some(cp2) && cp2.is_git_repo == cp.is_git_repo
                    && FuzzyList::refiltered(cp.list, cp2.list, cp.list.query@.push(c)))
                    && post.dialog == pre.dialog && post.running == pre.running && r is None,
                Action::Backspace => App::frame_palette(pre, post) && (
                post.command_palette matches Some(cp2) && cp2.is_git_repo == cp.is_git_repo
                    && FuzzyList::refiltered(
                    cp.list,
                    cp2.list,
                    if cp.list.query@.len() == 0 {
                        cp.list.query@
                    } else {
                        cp.list.query@.drop_last()
                    },
                )) && post.dialog == pre.dialog && post.running == pre.running && r is None,
                Action::Enter => (match cp.list.spec_selected() {
                    Some(cmd) => App::execute_command_rel(pre, post, cmd, r),
                    None => App::unchanged(pre, post) && r is None,
                }),
                Action::Escape => (if cp.list.query@.len() > 0 {
                    App::frame_palette(pre, post) && (post.command_palette matches Some(cp2)
                        && cp2.is_git_repo == cp.is_git_repo && FuzzyList::refiltered(
                        cp.list,
                        cp2.list,
                        Seq::<char>::empty(),
                    )) && post.dialog == pre.dialog && post.running == pre.running && r is None
                } else {
                    App::unchanged(pre, post) && r is None
                }),
                _ => App::unchanged(pre, post) && r is None,
            }),
        }
    }

    /// What a non-global action does while the file picker is the view.
    pub open spec fn file_delegation_rel(pre: App, post: App, a: Action, r: Option<Effect>) -> bool {
        match pre.file_picker {
            None => App::unchanged(pre, post) && r is None,
            Some(fp) => (match a {
                Action::MoveUp => App::frame_file(pre, post) && (post.file_picker matches Some(fp2)
                    && fp2.current_dir == fp.current_dir && FuzzyList::stepped_up(
                    fp.list,
                    fp2.list,
                )) && post.dialog == pre.dialog && post.running == pre.running && r is None,
                Action::MoveDown => App::frame_file(pre, post) && (post.file_picker matches Some(
                    fp2,
                ) && fp2.current_dir == fp.current_dir && FuzzyList::stepped_down(
                    fp.list,
                    fp2.list,
                )) && post.dialog == pre.dialog && post.running == pre.running && r is None,
                Action::PageUp => App::frame_file(pre, post) && (post.file_picker matches Some(fp2)
                    && fp2.current_dir == fp.current_dir && FuzzyList::paged_up(
                    fp.list,
                    fp2.list,
                    10,
                )) && post.dialog == pre.dialog && post.running == pre.running && r is None,
                Action::PageDown => App::frame_file(pre, post) && (post.file_picker matches Some(
                    fp2,
                ) && fp2.current_dir == fp.current_dir && FuzzyList::paged_down(
                    fp.list,
                    fp2.list,
                    10,
                )) && post.dialog == pre.dialog && post.running == pre.running && r is None,
                Action::Character(c) => App::frame_file(pre, post) && (
                post.file_picker matches Some(fp2) && fp2.current_dir == fp.current_dir
                    && FuzzyList::refiltered(fp.list, fp2.list, fp.list.query@.push(c)))
                    && post.dialog == pre.dialog && post.running == pre.running && r is None,
                Action::Backspace => App::frame_file(pre, post) && (
                post.file_picker matches Some(fp2) && fp2.current_dir == fp.current_dir
                    && FuzzyList::refiltered(
                    fp.list,
                    fp2.list,
                    if fp.list.query@.len() == 0 {
                        fp.list.query@
                    } else {
                        fp.list.query@.drop_last()
                    },
                )) && post.dialog == pre.dialog && post.running == pre.running && r is None,
                Action::Enter => (match fp.list.spec_selected() {
                    Some(e) => (if e.is_dir {
                        App::frame_file(pre, post) && (post.file_picker matches Some(fp2)
                            && fp2.current_dir@ == e.path@ && FuzzyList::refiltered(
                            fp.list,
                            fp2.list,
                            Seq::<char>::empty(),
                        )) && post.dialog == pre.dialog && post.running == pre.running && (
                        r matches Some(Effect::RefreshFiles(d)) && d@ == e.path@)
                    } else {
                        App::same_pickers(pre, post) && App::same_env(pre, post) && post.view
                            == pre.view && post.dialog == pre.dialog && !post.running && (
                        r matches Some(Effect::OpenFile(p)) && p@ == e.path@)
                    }),
                    None => App::unchanged(pre, post) && r is None,
                }),
                Action::Escape => (if fp.list.query@.len() > 0 {
                    App::frame_file(pre, post) && (post.file_picker matches Some(fp2)
                        && fp2.current_dir == fp.current_dir && FuzzyList::refiltered(
                        fp.list,
                        fp2.list,
                        Seq::<char>::empty(),
                    )) && post.dialog == pre.dialog && post.running == pre.running && r is None
                } else {
                    App::unchanged(pre, post) && r is None
                }),
                _ => App::unchanged(pre, post) && r is None,
            }),
        }
    }

    /// What a non-global action does while the worktree picker is the
    /// view.
    pub open spec fn worktree_delegation_rel(pre: App, post: App, a: Action, r: Option<
        Effect,
    >) -> bool {
        match pre.worktree_picker {
            None => App::unchanged(pre, post) && r is None,
            Some(wp) => (match a {
                Action::MoveUp => App::frame_worktree(pre, post) && (
                post.worktree_picker matches Some(wp2) && FuzzyList::stepped_up(wp.list, wp2.list))
                    && post.dialog == pre.dialog && post.running == pre.running && r is None,
                Action::MoveDown => App::frame_worktree(pre, post) && (
                post.worktree_picker matches Some(wp2) && FuzzyList::stepped_down(
                    wp.list,
                    wp2.list,
                )) && post.dialog == pre.dialog && post.running == pre.running && r is None,
                Action::PageUp => App::frame_worktree(pre, post) && (
                post.worktree_picker matches Some(wp2) && FuzzyList::paged_up(
                    wp.list,
                    wp2.list,
                    10,
                )) && post.dialog == pre.dialog && post.running == pre.running && r is None,
                Action::PageDown => App::frame_worktree(pre, post) && (
                post.worktree_picker matches Some(wp2) && FuzzyList::paged_down(
                    wp.list,
                    wp2.list,
                    10,
                )) && post.dialog == pre.dialog && post.running == pre.running && r is None,
                Action::Character(c) => (if c == 'd' && wp.list.query@.len() == 0 {
                    App::same_pickers(pre, post) && App::same_env(pre, post) && post.view
                        == pre.view && post.running == pre.running && r is None && (
                    match wp.list.spec_selected() {
                        Some(wt) => (if wt.is_main {
                            post.dialog == pre.dialog
                        } else {
                            post.dialog matches Dialog::Confirm(d) && d.title@
                                == "Delete Worktree"@ && d.message@ == (if wt.has_changes {
                                "Worktree '"@ + wt.branch@
                                    + "' has uncommitted changes. Delete anyway?"@
                            } else {
                                "Delete worktree '"@ + wt.branch@ + "'?"@
                            }) && (d.callback matches ConfirmCallback::DeleteWorktree(p) && p@
                                == wt.path@) && d.selected
                        }),
                        None => post.dialog == pre.dialog,
                    })
                } else if c == 'm' && wp.list.query@.len() == 0 {
                    App::same_pickers(pre, post) && App::same_env(pre, post) && post.view
                        == pre.view && post.running == pre.running && r is None && (
                    match wp.list.spec_selected() {
                        Some(wt) => (if wt.is_main {
                            post.dialog == pre.dialog
                        } else {
                            post.dialog matches Dialog::Confirm(d) && d.title@ == "Merge to Main"@
                                && d.message@ == "Merge '"@ + wt.branch@
                                + "' to main and delete worktree?"@ && (d.callback matches
                            ConfirmCallback::MergeWorktree(p) && p@ == wt.path@) && d.selected
                        }),
                        None => post.dialog == pre.dialog,
                    })
                } else if c == 'n' && wp.list.query@.len() == 0 {
                    App::same_pickers(pre, post) && App::same_env(pre, post) && post.view
                        == pre.view && post.running == pre.running && r is None && (
                    post.dialog matches Dialog::Input(d) && d.title@ == "New Worktree Branch"@
                        && d.callback is CreateWorktree && d.buffer@.len() == 0)
                } else {
                    App::frame_worktree(pre, post) && (post.worktree_picker matches Some(wp2)
                        && FuzzyList::refiltered(wp.list, wp2.list, wp.list.query@.push(c)))
                        && post.dialog == pre.dialog && post.running == pre.running && r is None
                }),
                Action::Backspace => App::frame_worktree(pre, post) && (
                post.worktree_picker matches Some(wp2) && FuzzyList::refiltered(
                    wp.list,
                    wp2.list,
                    if wp.list.query@.len() == 0 {
                        wp.list.query@
                    } else {
                        wp.list.query@.drop_last()
                    },
                )) && post.dialog == pre.dialog && post.running == pre.running && r is None,
                Action::Enter => (match wp.list.spec_selected() {
                    Some(wt) => App::unchanged(pre, post) && (r matches Some(
                        Effect::PrepareWorktreeSwitch(p),
                    ) && p@ == wt.path@),
                    None => App::unchanged(pre, post) && r is None,
                }),
                Action::Escape => (if wp.list.query@.len() > 0 {
                    App::frame_worktree(pre, post) && (post.worktree_picker matches Some(wp2)
                        && FuzzyList::refiltered(wp.list, wp2.list, Seq::<char>::empty()))
                        && post.dialog == pre.dialog && post.running == pre.running && r is None
                } else {
                    App::unchanged(pre, post) && r is None
                }),
                _ => App::unchanged(pre, post) && r is None,
            }),
        }
    }

    /// What a non-global action does: the active view consumes it.
    pub open spec fn delegation_rel(pre: App, post: App, a: Action, r: Option<Effect>) -> bool {
        match pre.view {
            AppView::SessionPicker => App::session_delegation_rel(pre, post, a, r),
            AppView::CommandPalette => App::palette_delegation_rel(pre, post, a, r),
            AppView::FilePicker => App::file_delegation_rel(pre, post, a, r),
            AppView::WorktreePicker => App::worktree_delegation_rel(pre, post, a, r),
        }
    }

    /// What one action does while an input dialog is open: the dialog
    /// intercepts everything, and only its resolution reaches the
    /// router.
    pub open spec fn input_dialog_route_rel(pre: App, post: App, d: InputDialog, a: Action, r:
        Option<Effect>) -> bool {
        App::same_pickers(pre, post) && App::same_env(pre, post) && post.view == pre.view
            && post.running == pre.running && (match a {
            Action::Character(c) => (post.dialog matches Dialog::Input(d2) && d2.title == d.title
                && d2.callback == d.callback && d2.buffer@ == d.buffer@.push(c)) && r is None,
            Action::Backspace => (post.dialog matches Dialog::Input(d2) && d2.title == d.title
                && d2.callback == d.callback && d2.buffer@ == (if d.buffer@.len() == 0 {
                d.buffer@
            } else {
                d.buffer@.drop_last()
            })) && r is None,
            Action::Enter => (if d.buffer@.len() == 0 {
                post.dialog == pre.dialog && r is None
            } else {
                match d.callback {
                    InputCallback::CreateSession => post.dialog == pre.dialog && (r matches Some(
                        Effect::CreateSession { name: n, path: p },
                    ) && n@ == d.buffer@ && p is None),
                    InputCallback::CreateWorktree => (if pre.is_git_repo {
                        post.dialog == pre.dialog && (r matches Some(Effect::CreateWorktree(b))
                            && b@ == d.buffer@)
                    } else {
                        post.dialog is Closed && r is None
                    }),
                }
            }),
            Action::Escape => (if d.buffer@.len() == 0 {
                post.dialog is Closed && r is None
            } else {
                (post.dialog matches Dialog::Input(d2) && d2.title == d.title && d2.callback
                    == d.callback && d2.buffer@.len() == 0) && r is None
            }),
            _ => post.dialog == pre.dialog && r is None,
        })
    }

    /// What one action does while a confirm dialog is open.
    pub open spec fn confirm_dialog_route_rel(pre: App, post: App, d: ConfirmDialog, a: Action, r:
        Option<Effect>) -> bool {
        App::same_pickers(pre, post) && App::same_env(pre, post) && post.view == pre.view
            && post.running == pre.running && (match a {
            Action::MoveUp => (post.dialog matches Dialog::Confirm(d2) && d2.title == d.title
                && d2.message == d.message && d2.callback == d.callback && d2.selected
                == !d.selected) && r is None,
            Action::MoveDown => (post.dialog matches Dialog::Confirm(d2) && d2.title == d.title
                && d2.message == d.message && d2.callback == d.callback && d2.selected
                == !d.selected) && r is None,
            Action::Character(c) => (post.dialog matches Dialog::Confirm(d2) && d2.title == d.title
                && d2.message == d.message && d2.callback == d.callback && d2.selected == (
            if c == 'y' || c == 'Y' {
                true
            } else if c == 'n' || c == 'N' {
                false
            } else {
                d.selected
            })) && r is None,
            Action::Enter => (if d.selected {
                match d.callback {
                    ConfirmCallback::DeleteWorktree(p) => (if pre.is_git_repo {
                        post.dialog == pre.dialog && (r matches Some(Effect::DeleteWorktree(q))
                            && q@ == p@)
                    } else {
                        post.dialog is Closed && r is None
                    }),
                    ConfirmCallback::MergeWorktree(p) => (if pre.is_git_repo {
                        post.dialog == pre.dialog && (r matches Some(Effect::ResolveMerge(q)) && q@
                            == p@)
                    } else {
                        post.dialog is Closed && r is None
                    }),
                    ConfirmCallback::KillSession(n) => post.dialog == pre.dialog && (
                    r matches Some(Effect::KillSession(m)) && m@ == n@),
                }
            } else {
                post.dialog is Closed && r is None
            }),
            Action::Escape => post.dialog is Closed && r is None,
            _ => post.dialog == pre.dialog && r is None,
        })
    }

    /// Dispatch one action: dialog first, then the global set, then the
    /// active view, whose follow-up is dispatched once more against the
    /// global set.
    pub fn handle_action(&mut self, action: Action) -> (r: Option<Effect>)
        requires
            old(self).wf(),
        ensures
            final(self).wf(),
            (match old(self).dialog {
                Dialog::Input(d) => App::input_dialog_route_rel(
                    *old(self),
                    *final(self),
                    d,
                    action,
                    r,
                ),
                Dialog::Confirm(d) => App::confirm_dialog_route_rel(
                    *old(self),
                    *final(self),
                    d,
                    action,
                    r,
                ),
                Dialog::Closed => (if is_global_spec(action) {
                    App::global_step_rel(*old(self), *final(self), action, r)
                } else {
                    App::delegation_rel(*old(self), *final(self), action, r)
                }),
            }),
    {
        let routed = match &mut self.dialog {
            Dialog::Closed => Routed::Go(action),
            Dialog::Input(d) => match d.handle_action(&action) {
                DialogResult::Kept => Routed::Consumed,
                DialogResult::Closed => Routed::ConsumedClose,
                DialogResult::Resolved(a) => Routed::Go(a),
            },
            Dialog::Confirm(d) => match d.handle_action(&action) {
                DialogResult::Kept => Routed::Consumed,
                DialogResult::Closed => Routed::ConsumedClose,
                DialogResult::Resolved(a) => Routed::Go(a),
            },
        };
        let a = match routed {
            Routed::Consumed => {
                return Option::None;
            },
            Routed::ConsumedClose => {
                self.dialog = Dialog::Closed;
                return Option::None;
            },
            Routed::Go(a) => a,
        };
        if is_global(&a) {
            return self.handle_global(a);
        }
        // The dialog tier only passes global actions through, so from
        // here on the dialog slot is closed and the active view takes
        // the action.
        let (follow, nav): (Option<Action>, Option<Effect>) = match self.view {
            AppView::SessionPicker => (self.session_picker.handle_action(&a), Option::None),
            AppView::CommandPalette => match &mut self.command_palette {
                Some(p) => (p.handle_action(&a), Option::None),
                None => (Option::None, Option::None),
            },
            AppView::FilePicker => match &mut self.file_picker {
                Some(p) => {
                    let (f, navigated) = p.handle_action(&a);
                    if navigated {
                        let d = String::from_str(p.current_dir());
                        (f, Some(Effect::RefreshFiles(d)))
                    } else {
                        (f, Option::None)
                    }
                },
                None => (Option::None, Option::None),
            },
            AppView::WorktreePicker => match &mut self.worktree_picker {
                Some(p) => (p.handle_action(&a), Option::None),
                None => (Option::None, Option::None),
            },
        };
        match nav {
            Some(e) => Some(e),
            None => match follow {
                Some(f) => {
                    if is_global(&f) {
                        self.handle_global(f)
                    } else {
                        Option::None
                    }
                },
                None => Option::None,
            },
        }
    }

    /// The hint line for the current state: the dialog's when one is
    /// open, else the active view's. The confirm hint deliberately
    /// names Up/Down as the selection keys: the action set has no
    /// left/right navigation, so those are the keys the dialog in fact
    /// reacts to.
    pub fn current_help_text(&self) -> (r: &'static str)
        ensures
            (match self.dialog {
                Dialog::Input(_) => r@ == "Enter:confirm  Esc:cancel"@,
                Dialog::Confirm(_) => r@ == "Y:yes  N:no  Up/Down:select  Esc:cancel"@,
                Dialog::Closed => (match self.view {
                    AppView::SessionPicker => r@ == "Enter:switch  n:new  d:delete  Esc:back"@,
                    AppView::CommandPalette => (if self.command_palette is Some {
                        r@ == "Enter:execute  Esc:back"@
                    } else {
                        r@ == ""@
                    }),
                    AppView::FilePicker => (if self.file_picker is Some {
                        r@ == "Enter:open/navigate  Esc:back"@
                    } else {
                        r@ == ""@
                    }),
                    AppView::WorktreePicker => (if self.worktree_picker is Some {
                        r@ == "Enter:switch  n:new  d:delete  m:merge  Esc:back"@
                    } else {
                        r@ == ""@
                    }),
                }),
            }),
    {
        match &self.dialog {
            Dialog::Input(_) => "Enter:confirm  Esc:cancel",
            Dialog::Confirm(_) => "Y:yes  N:no  Up/Down:select  Esc:cancel",
            Dialog::Closed => match self.view {
                AppView::SessionPicker => self.session_picker.help_text(),
                AppView::CommandPalette => match &self.command_palette {
                    Some(p) => p.help_text(),
                    None => "",
                },
                AppView::FilePicker => match &self.file_picker {
                    Some(p) => p.help_text(),
                    None => "",
                },
                AppView::WorktreePicker => match &self.worktree_picker {
                    Some(p) => p.help_text(),
                    None => "",
                },
            },
        }
    }
}

} // verus!
