//! The individual pickers: the worktree rules, the file listing, the
//! buffer picker, the palette, and the key mapping.

use muxpick::action::Action;
use muxpick::action::ConfirmCallback;
use muxpick::buffer_picker::BufferPicker;
use muxpick::command_palette::CommandPalette;
use muxpick::entries::BufferEntry;
use muxpick::entries::FileEntry;
use muxpick::entries::PaletteCommand;
use muxpick::entries::WorktreeEntry;
use muxpick::file_picker::FilePicker;
use muxpick::keymap::key_to_action;
use muxpick::keymap::EventHandler;
use muxpick::keymap::Key;
use muxpick::worktree_picker::WorktreePicker;

fn worktree(path: &str, branch: &str, is_main: bool, has_changes: bool) -> WorktreeEntry {
    WorktreeEntry {
        path: path.to_string(),
        branch: branch.to_string(),
        is_main,
        has_changes,
    }
}

fn file(name: &str, is_dir: bool) -> FileEntry {
    FileEntry { path: format!("/d/{}", name), is_dir, name: name.to_string() }
}

#[test]
fn main_worktree_cannot_be_deleted() {
    // One entry with is_main: 'd' on an empty query does nothing.
    let mut picker = WorktreePicker::new();
    picker.refresh(vec![worktree("/w/main", "main", true, false)]);
    assert!(picker.handle_action(&Action::Character('d')).is_none());
    assert!(picker.handle_action(&Action::Character('m')).is_none());
}

#[test]
fn worktree_delete_warns_about_changes() {
    let mut picker = WorktreePicker::new();
    picker.refresh(vec![worktree("/w/fix", "fix", false, true)]);
    match picker.handle_action(&Action::Character('d')) {
        Some(Action::ShowConfirm { title, message, callback }) => {
            assert_eq!(title, "Delete Worktree");
            assert_eq!(message, "Worktree 'fix' has uncommitted changes. Delete anyway?");
            assert!(matches!(callback, ConfirmCallback::DeleteWorktree(p) if p == "/w/fix"));
        },
        _ => panic!("expected a confirm request"),
    }
}

#[test]
fn worktree_delete_plain_message() {
    let mut picker = WorktreePicker::new();
    picker.refresh(vec![worktree("/w/fix", "fix", false, false)]);
    match picker.handle_action(&Action::Character('d')) {
        Some(Action::ShowConfirm { message, .. }) => {
            assert_eq!(message, "Delete worktree 'fix'?");
        },
        _ => panic!("expected a confirm request"),
    }
}

#[test]
fn worktree_merge_request() {
    let mut picker = WorktreePicker::new();
    picker.refresh(vec![worktree("/w/fix", "fix", false, false)]);
    match picker.handle_action(&Action::Character('m')) {
        Some(Action::ShowConfirm { title, message, callback }) => {
            assert_eq!(title, "Merge to Main");
            assert_eq!(message, "Merge 'fix' to main and delete worktree?");
            assert!(matches!(callback, ConfirmCallback::MergeWorktree(p) if p == "/w/fix"));
        },
        _ => panic!("expected a confirm request"),
    }
}

#[test]
fn worktree_enter_switches() {
    let mut picker = WorktreePicker::new();
    picker.refresh(vec![
        worktree("/w/main", "main", true, false),
        worktree("/w/fix", "fix", false, false),
    ]);
    match picker.handle_action(&Action::MoveDown) {
        Some(Action::Render) => {},
        _ => panic!("navigation redraws"),
    }
    match picker.handle_action(&Action::Enter) {
        Some(Action::SwitchWorktree(p)) => assert_eq!(p, "/w/fix"),
        _ => panic!("expected a switch"),
    }
}

#[test]
fn file_refresh_filters_hides_and_sorts() {
    let mut picker = FilePicker::new("/d".to_string());
    picker.refresh(
        Some("/".to_string()),
        vec![
            file("zeta.txt", false),
            file(".hidden", false),
            file("Beta", true),
            file("alpha.txt", false),
            file("Arbor", true),
        ],
    );
    let names: Vec<String> = (0..picker.list.filtered_len())
        .map(|k| picker.list.filtered_item(k).name.clone())
        .collect();
    // Parent first, then directories by folded name, then files.
    assert_eq!(names, vec!["..", "Arbor", "Beta", "alpha.txt", "zeta.txt"]);
    assert!(picker.list.filtered_item(0).is_dir);
    assert_eq!(picker.list.filtered_item(0).path, "/");
}

#[test]
fn file_refresh_without_parent() {
    let mut picker = FilePicker::new("/".to_string());
    picker.refresh(None, vec![file("b", false), file("a", false)]);
    let names: Vec<String> = (0..picker.list.filtered_len())
        .map(|k| picker.list.filtered_item(k).name.clone())
        .collect();
    assert_eq!(names, vec!["a", "b"]);
}

#[test]
fn file_enter_directory_navigates() {
    let mut picker = FilePicker::new("/d".to_string());
    picker.refresh(None, vec![file("sub", true), file("x.txt", false)]);
    picker.handle_action(&Action::Character('s'));
    let (follow, navigated) = picker.handle_action(&Action::Enter);
    assert!(matches!(follow, Some(Action::Render)));
    assert!(navigated);
    assert_eq!(picker.current_dir(), "/d/sub");
    assert_eq!(picker.list.query(), "");
}

#[test]
fn file_enter_file_opens() {
    let mut picker = FilePicker::new("/d".to_string());
    picker.refresh(None, vec![file("x.txt", false)]);
    let (follow, navigated) = picker.handle_action(&Action::Enter);
    assert!(!navigated);
    match follow {
        Some(Action::OpenFile(p)) => assert_eq!(p, "/d/x.txt"),
        _ => panic!("expected an open"),
    }
}

#[test]
fn file_display_name_marks_directories() {
    assert_eq!(file("sub", true).display_name(), "📁 sub/");
    assert_eq!(file("x.txt", false).display_name(), "   x.txt");
    assert_eq!(file("x.txt", false).search_text(), "x.txt");
}

#[test]
fn buffer_enter_opens_buffer() {
    let mut picker = BufferPicker::new();
    picker.refresh(vec![BufferEntry {
        socket: "/tmp/nvim.sock".to_string(),
        bufnr: 7,
        label: "src/main.rs".to_string(),
        search: "src/main.rs".to_string(),
    }]);
    match picker.handle_action(&Action::Enter) {
        Some(Action::OpenBuffer { socket, bufnr }) => {
            assert_eq!(socket, "/tmp/nvim.sock");
            assert_eq!(bufnr, 7);
        },
        _ => panic!("expected an open"),
    }
    let entry = BufferEntry {
        socket: "s".to_string(),
        bufnr: 1,
        label: "lbl".to_string(),
        search: "srch".to_string(),
    };
    assert_eq!(entry.display_name(), "lbl");
    assert_eq!(entry.search_text(), "srch");
}

#[test]
fn palette_commands_depend_on_repo() {
    let with_git = CommandPalette::new(true);
    assert_eq!(with_git.list.items.len(), 6);
    let without_git = CommandPalette::new(false);
    assert_eq!(without_git.list.items.len(), 3);
    assert!(without_git.list.items.iter().all(|c| {
        !matches!(
            c,
            PaletteCommand::ListWorktrees | PaletteCommand::CreateWorktree
                | PaletteCommand::GitStatus
        )
    }));
}

#[test]
fn palette_enter_executes_selected() {
    let mut palette = CommandPalette::new(true);
    for c in ['d', 'i', 'f'] {
        palette.handle_action(&Action::Character(c));
    }
    match palette.handle_action(&Action::Enter) {
        Some(Action::ExecuteCommand(PaletteCommand::GitStatus)) => {},
        other => panic!("expected the diff command, got {:?}", other),
    }
}

#[test]
fn palette_set_git_repo_refreshes() {
    let mut palette = CommandPalette::new(true);
    palette.set_git_repo(false);
    assert_eq!(palette.list.items.len(), 3);
    palette.set_git_repo(true);
    assert_eq!(palette.list.items.len(), 6);
}

#[test]
fn key_mapping_follows_the_design() {
    assert!(matches!(key_to_action(Key::Char('q'), false), Some(Action::Quit)));
    assert!(matches!(key_to_action(Key::Char('c'), true), Some(Action::Quit)));
    assert!(matches!(key_to_action(Key::Char('c'), false), Some(Action::Character('c'))));
    assert!(matches!(key_to_action(Key::Char('k'), true), Some(Action::MoveUp)));
    assert!(matches!(key_to_action(Key::Char('j'), true), Some(Action::MoveDown)));
    assert!(matches!(key_to_action(Key::Char('k'), false), Some(Action::Character('k'))));
    assert!(matches!(key_to_action(Key::Up, true), Some(Action::MoveUp)));
    assert!(matches!(key_to_action(Key::Up, false), Some(Action::MoveUp)));
    assert!(matches!(key_to_action(Key::Down, false), Some(Action::MoveDown)));
    assert!(matches!(key_to_action(Key::Esc, false), Some(Action::Escape)));
    assert!(matches!(key_to_action(Key::Enter, false), Some(Action::Enter)));
    assert!(matches!(key_to_action(Key::Backspace, false), Some(Action::Backspace)));
    assert!(matches!(key_to_action(Key::PageUp, false), Some(Action::PageUp)));
    assert!(matches!(key_to_action(Key::PageDown, false), Some(Action::PageDown)));
    assert_eq!(EventHandler::new(100).tick_rate_ms, 100);
}

#[test]
fn palette_command_texts() {
    assert_eq!(PaletteCommand::OpenFile.display_name(), "Open File");
    assert_eq!(PaletteCommand::GitStatus.search_text(), "Git Diff");
    assert_eq!(PaletteCommand::all().len(), 6);
    assert_eq!(PaletteCommand::non_git_commands().len(), 3);
    assert!(!PaletteCommand::NewSession.description().is_empty());
}
