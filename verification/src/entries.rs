//! The item types the pickers list, and the capability they share:
//! exposing the text the fuzzy filter runs on.

use vstd::prelude::*;
use vstd::string::StringExecFns;

verus! {

/// An item a fuzzy list can hold. `search_spec` is the mathematical
/// search text; `search_key` produces it.
pub trait ListEntry: Sized {
    /// The search text the filter matches the query against.
    spec fn search_spec(&self) -> Seq<char>;

    /// Produce the search text.
    fn search_key(&self) -> (r: String)
        ensures
            r@ == self.search_spec(),
    ;
}

/// One session of the external session manager, reduced to what the
/// picker reads: its name.
pub struct SessionEntry {
    pub name: String,
}

impl ListEntry for SessionEntry {
    open spec fn search_spec(&self) -> Seq<char> {
        self.name@
    }

    fn search_key(&self) -> (r: String) {
        self.name.clone()
    }
}

/// One worktree of the version-control tool, reduced to plain values.
pub struct WorktreeEntry {
    pub path: String,
    pub branch: String,
    pub is_main: bool,
    pub has_changes: bool,
}

impl ListEntry for WorktreeEntry {
    open spec fn search_spec(&self) -> Seq<char> {
        self.branch@
    }

    fn search_key(&self) -> (r: String) {
        self.branch.clone()
    }
}

/// One directory entry the file picker lists.
pub struct FileEntry {
    pub path: String,
    pub is_dir: bool,
    pub name: String,
}

impl FileEntry {
    /// The line shown for this entry: a folder glyph and a trailing `/`
    /// for directories, a three-space pad for files.
    pub fn display_name(&self) -> (r: String)
        ensures
            self.is_dir ==> r@ == "📁 "@ + self.name@ + "/"@,
            !self.is_dir ==> r@ == "   "@ + self.name@,
    {
        if self.is_dir {
            String::from_str("📁 ").concat(self.name.as_str()).concat("/")
        } else {
            String::from_str("   ").concat(self.name.as_str())
        }
    }

    /// The text the filter matches against: the bare name.
    pub fn search_text(&self) -> (r: String)
        ensures
            r@ == self.name@,
    {
        self.name.clone()
    }
}

impl ListEntry for FileEntry {
    open spec fn search_spec(&self) -> Seq<char> {
        self.name@
    }

    fn search_key(&self) -> (r: String) {
        self.name.clone()
    }
}

/// One editor buffer, reduced to plain values: the socket of the editor
/// instance that owns it, its number, and the two texts it exposes.
pub struct BufferEntry {
    pub socket: String,
    pub bufnr: i64,
    pub label: String,
    pub search: String,
}

impl BufferEntry {
    /// The line shown for this buffer.
    pub fn display_name(&self) -> (r: String)
        ensures
            r@ == self.label@,
    {
        self.label.clone()
    }

    /// The text the filter matches against.
    pub fn search_text(&self) -> (r: String)
        ensures
            r@ == self.search@,
    {
        self.search.clone()
    }
}

impl ListEntry for BufferEntry {
    open spec fn search_spec(&self) -> Seq<char> {
        self.search@
    }

    fn search_key(&self) -> (r: String) {
        self.search.clone()
    }
}

/// The commands the palette offers.
#[derive(Clone, Copy, PartialEq, Eq, Structural, Debug)]
pub enum PaletteCommand {
    OpenFile,
    NewSession,
    KillSession,
    ListWorktrees,
    CreateWorktree,
    GitStatus,
}

impl PaletteCommand {
    /// The short name shown and searched for this command.
    pub open spec fn name_spec(&self) -> Seq<char> {
        match self {
            PaletteCommand::OpenFile => "Open File"@,
            PaletteCommand::NewSession => "New Session"@,
            PaletteCommand::KillSession => "Kill Session"@,
            PaletteCommand::ListWorktrees => "List Worktrees"@,
            PaletteCommand::CreateWorktree => "New Worktree"@,
            PaletteCommand::GitStatus => "Git Diff"@,
        }
    }

    /// The short name of the command.
    pub fn display_name(&self) -> (r: &'static str)
        ensures
            r@ == self.name_spec(),
    {
        match self {
            PaletteCommand::OpenFile => "Open File",
            PaletteCommand::NewSession => "New Session",
            PaletteCommand::KillSession => "Kill Session",
            PaletteCommand::ListWorktrees => "List Worktrees",
            PaletteCommand::CreateWorktree => "New Worktree",
            PaletteCommand::GitStatus => "Git Diff",
        }
    }

    /// A one-line description of the command.
    pub fn description(&self) -> (r: &'static str) {
        match self {
            PaletteCommand::OpenFile => "Browse and open a file",
            PaletteCommand::NewSession => "Create a new session",
            PaletteCommand::KillSession => "Kill the current session",
            PaletteCommand::ListWorktrees => "List and switch worktrees",
            PaletteCommand::CreateWorktree => "Create a worktree for a new branch",
            PaletteCommand::GitStatus => "Show the pending diff",
        }
    }

    /// Every command, in palette order.
    pub fn all() -> (r: Vec<PaletteCommand>)
        ensures
            r@ =~= seq![
                PaletteCommand::OpenFile,
                PaletteCommand::NewSession,
                PaletteCommand::KillSession,
                PaletteCommand::ListWorktrees,
                PaletteCommand::CreateWorktree,
                PaletteCommand::GitStatus,
            ],
    {
        let mut v: Vec<PaletteCommand> = Vec::new();
        v.push(PaletteCommand::OpenFile);
        v.push(PaletteCommand::NewSession);
        v.push(PaletteCommand::KillSession);
        v.push(PaletteCommand::ListWorktrees);
        v.push(PaletteCommand::CreateWorktree);
        v.push(PaletteCommand::GitStatus);
        v
    }

    /// The commands that need no repository, in palette order.
    pub fn non_git_commands() -> (r: Vec<PaletteCommand>)
        ensures
            r@ =~= seq![
                PaletteCommand::OpenFile,
                PaletteCommand::NewSession,
                PaletteCommand::KillSession,
            ],
    {
        let mut v: Vec<PaletteCommand> = Vec::new();
        v.push(PaletteCommand::OpenFile);
        v.push(PaletteCommand::NewSession);
        v.push(PaletteCommand::KillSession);
        v
    }

    /// Search text for the palette: the command's short name.
    pub fn search_text(&self) -> (r: String)
        ensures
            r@ == self.name_spec(),
    {
        String::from_str(self.display_name())
    }
}

impl ListEntry for PaletteCommand {
    open spec fn search_spec(&self) -> Seq<char> {
        self.name_spec()
    }

    fn search_key(&self) -> (r: String) {
        String::from_str(self.display_name())
    }
}

} // verus!
