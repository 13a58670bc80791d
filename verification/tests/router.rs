//! The controller: dispatch precedence, global actions, dialog
//! lifecycles, and the worktree-switch plan.

use muxpick::action::Action;
use muxpick::action::ConfirmCallback;
use muxpick::action::InputCallback;
use muxpick::app::App;
use muxpick::app::AppView;
use muxpick::app::Dialog;
use muxpick::app::Effect;
use muxpick::entries::PaletteCommand;
use muxpick::entries::SessionEntry;
use muxpick::entries::WorktreeEntry;

fn sessions(names: &[&str]) -> Vec<SessionEntry> {
    names.iter().map(|n| SessionEntry { name: (*n).to_string() }).collect()
}

fn fresh_app() -> App {
    App::new(
        AppView::SessionPicker,
        "/home/dev/proj".to_string(),
        true,
        sessions(&["dev", "ops"]),
    )
}

#[test]
fn quit_stops_the_run() {
    let mut app = fresh_app();
    let eff = app.handle_action(Action::Quit);
    assert!(eff.is_none());
    assert!(!app.running);
}

#[test]
fn switch_session_yields_effect_and_stops() {
    let mut app = fresh_app();
    match app.handle_action(Action::SwitchSession("ops".to_string())) {
        Some(Effect::SwitchSession(name)) => assert_eq!(name, "ops"),
        _ => panic!("expected a switch effect"),
    }
    assert!(!app.running);
}

#[test]
fn session_enter_switches_to_selected() {
    let mut app = fresh_app();
    app.handle_action(Action::MoveDown);
    match app.handle_action(Action::Enter) {
        Some(Effect::SwitchSession(name)) => assert_eq!(name, "ops"),
        _ => panic!("expected a switch effect"),
    }
}

#[test]
fn session_delete_key_opens_confirm() {
    let mut app = fresh_app();
    let eff = app.handle_action(Action::Character('d'));
    assert!(eff.is_none());
    match &app.dialog {
        Dialog::Confirm(d) => {
            assert_eq!(d.title, "Delete Session");
            assert_eq!(d.message, "Delete session 'dev'?");
            assert!(matches!(&d.callback, ConfirmCallback::KillSession(n) if n == "dev"));
            assert!(d.selected);
        },
        _ => panic!("expected a confirm dialog"),
    }
}

#[test]
fn confirm_escape_produces_no_kill() {
    // A confirm opened for kill-session("dev"): Escape clears it and no
    // KillSession effect is produced.
    let mut app = fresh_app();
    app.handle_action(Action::ShowConfirm {
        title: "Kill Session".to_string(),
        message: "Kill current session 'dev'?".to_string(),
        callback: ConfirmCallback::KillSession("dev".to_string()),
    });
    assert!(matches!(app.dialog, Dialog::Confirm(_)));
    let eff = app.handle_action(Action::Escape);
    assert!(eff.is_none());
    assert!(matches!(app.dialog, Dialog::Closed));
}

#[test]
fn dialog_takes_precedence_over_view() {
    // While a confirm is open, MoveUp toggles its selection; the list
    // below does not move.
    let mut app = fresh_app();
    app.handle_action(Action::MoveDown);
    assert_eq!(app.session_picker.list.cursor, 1);
    app.handle_action(Action::ShowConfirm {
        title: "t".to_string(),
        message: "m".to_string(),
        callback: ConfirmCallback::KillSession("dev".to_string()),
    });
    let eff = app.handle_action(Action::MoveUp);
    assert!(eff.is_none());
    assert_eq!(app.session_picker.list.cursor, 1);
    match &app.dialog {
        Dialog::Confirm(d) => assert!(!d.selected),
        _ => panic!("the dialog must still be open"),
    }
    // Enter on "no" closes with no effect.
    let eff = app.handle_action(Action::Enter);
    assert!(eff.is_none());
    assert!(matches!(app.dialog, Dialog::Closed));
}

#[test]
fn confirm_enter_yes_yields_kill_effect() {
    let mut app = fresh_app();
    app.handle_action(Action::ShowConfirm {
        title: "t".to_string(),
        message: "m".to_string(),
        callback: ConfirmCallback::KillSession("dev".to_string()),
    });
    match app.handle_action(Action::Enter) {
        Some(Effect::KillSession(name)) => assert_eq!(name, "dev"),
        _ => panic!("expected a kill effect"),
    }
    // The dialog closes once the kill is reported done.
    app.finish_session_killed(sessions(&["ops"]));
    assert!(matches!(app.dialog, Dialog::Closed));
    assert_eq!(app.session_picker.list.items.len(), 1);
}

#[test]
fn input_dialog_scenario_new_session() {
    // Input dialog for a new session, text "proj", Enter: the router
    // yields the create effect, and completing it stops the run.
    let mut app = fresh_app();
    app.handle_action(Action::ShowInput {
        title: "New Session Name".to_string(),
        callback: InputCallback::CreateSession,
    });
    for c in ['p', 'r', 'o', 'j'] {
        assert!(app.handle_action(Action::Character(c)).is_none());
    }
    match app.handle_action(Action::Enter) {
        Some(Effect::CreateSession { name, path }) => {
            assert_eq!(name, "proj");
            assert!(path.is_none());
        },
        _ => panic!("expected a create-session effect"),
    }
    app.finish_session_start();
    assert!(matches!(app.dialog, Dialog::Closed));
    assert!(!app.running);
}

#[test]
fn worktree_switch_plan_reuses_existing_session() {
    // list_sessions() already holds a session named after the path's
    // last segment: only switch, never create.
    let mut app = fresh_app();
    let eff = app.worktree_switch_plan(
        "/work/trees/feat-x".to_string(),
        vec!["main".to_string(), "feat-x".to_string()],
    );
    match eff {
        Effect::SwitchSession(name) => assert_eq!(name, "feat-x"),
        _ => panic!("expected a plain switch"),
    }
    assert!(!app.running);
}

#[test]
fn worktree_switch_plan_creates_missing_session() {
    let mut app = fresh_app();
    let eff = app.worktree_switch_plan(
        "/work/trees/feat-x".to_string(),
        vec!["main".to_string()],
    );
    match eff {
        Effect::CreateSession { name, path } => {
            assert_eq!(name, "feat-x");
            assert_eq!(path.as_deref(), Some("/work/trees/feat-x"));
        },
        _ => panic!("expected a create"),
    }
}

#[test]
fn worktree_switch_plan_ignores_trailing_slash() {
    let mut app = fresh_app();
    let eff = app.worktree_switch_plan("/work/trees/feat-x/".to_string(), Vec::new());
    match eff {
        Effect::CreateSession { name, .. } => assert_eq!(name, "feat-x"),
        _ => panic!("expected a create"),
    }
}

#[test]
fn worktree_switch_plan_falls_back_without_file_name() {
    // A bare root and a path ending in `..` have no file name.
    let mut app = fresh_app();
    let eff = app.worktree_switch_plan("/".to_string(), Vec::new());
    match eff {
        Effect::CreateSession { name, .. } => assert_eq!(name, "worktree"),
        _ => panic!("expected a create"),
    }
    let eff = app.worktree_switch_plan("/a/..".to_string(), Vec::new());
    match eff {
        Effect::CreateSession { name, .. } => assert_eq!(name, "worktree"),
        _ => panic!("expected a create"),
    }
}

#[test]
fn switch_worktree_action_prepares_plan() {
    let mut app = fresh_app();
    match app.handle_action(Action::SwitchWorktree("/w/t".to_string())) {
        Some(Effect::PrepareWorktreeSwitch(p)) => assert_eq!(p, "/w/t"),
        _ => panic!("expected a prepare effect"),
    }
    assert!(app.running);
}

#[test]
fn create_worktree_chains_into_switch() {
    let mut app = fresh_app();
    app.handle_action(Action::ShowInput {
        title: "New Worktree Branch".to_string(),
        callback: InputCallback::CreateWorktree,
    });
    for c in ['f', 'i', 'x'] {
        app.handle_action(Action::Character(c));
    }
    match app.handle_action(Action::Enter) {
        Some(Effect::CreateWorktree(branch)) => assert_eq!(branch, "fix"),
        _ => panic!("expected a create-worktree effect"),
    }
    // The dialog stays until the collaborator reports success.
    assert!(matches!(app.dialog, Dialog::Input(_)));
    match app.finish_worktree_created("/w/fix".to_string()) {
        Effect::PrepareWorktreeSwitch(p) => assert_eq!(p, "/w/fix"),
        _ => panic!("expected the switch preparation"),
    }
    assert!(matches!(app.dialog, Dialog::Closed));
}

#[test]
fn create_worktree_without_repo_just_closes_dialog() {
    let mut app = App::new(AppView::SessionPicker, "/tmp/plain".to_string(), false, Vec::new());
    app.handle_action(Action::ShowInput {
        title: "New Worktree Branch".to_string(),
        callback: InputCallback::CreateWorktree,
    });
    app.handle_action(Action::Character('f'));
    let eff = app.handle_action(Action::Enter);
    assert!(eff.is_none());
    assert!(matches!(app.dialog, Dialog::Closed));
}

#[test]
fn resolve_merge_finds_branch_by_path() {
    let app = fresh_app();
    let worktrees = vec![
        WorktreeEntry {
            path: "/w/main".to_string(),
            branch: "main".to_string(),
            is_main: true,
            has_changes: false,
        },
        WorktreeEntry {
            path: "/w/fix".to_string(),
            branch: "fix".to_string(),
            is_main: false,
            has_changes: false,
        },
    ];
    assert_eq!(app.resolve_merge(&"/w/fix".to_string(), &worktrees).as_deref(), Some("fix"));
    assert!(app.resolve_merge(&"/w/gone".to_string(), &worktrees).is_none());
}

#[test]
fn show_pickers_switch_view_lazily() {
    let mut app = fresh_app();
    assert!(app.command_palette.is_none());
    assert!(app.handle_action(Action::ShowCommandPalette).is_none());
    assert!(matches!(app.view, AppView::CommandPalette));
    assert!(app.command_palette.is_some());

    match app.handle_action(Action::ShowFilePicker) {
        Some(Effect::RefreshFiles(dir)) => assert_eq!(dir, "/home/dev/proj"),
        _ => panic!("a fresh file picker needs a listing"),
    }
    assert!(matches!(app.view, AppView::FilePicker));
    // Showing it again does not rebuild or refresh.
    assert!(app.handle_action(Action::ShowFilePicker).is_none());

    match app.handle_action(Action::ShowWorktreePicker) {
        Some(Effect::RefreshWorktrees) => {},
        _ => panic!("a fresh worktree picker needs a listing"),
    }
    assert!(app.handle_action(Action::ShowWorktreePicker).is_none());

    match app.handle_action(Action::ShowSessionPicker) {
        Some(Effect::RefreshSessions) => {},
        _ => panic!("the session picker always refreshes"),
    }
    assert!(matches!(app.view, AppView::SessionPicker));
}

#[test]
fn execute_command_table() {
    let mut app = fresh_app();
    match app.handle_action(Action::ExecuteCommand(PaletteCommand::GitStatus)) {
        Some(Effect::ShowGitDiff) => {},
        _ => panic!("expected the diff overlay"),
    }
    match app.handle_action(Action::ExecuteCommand(PaletteCommand::KillSession)) {
        Some(Effect::QueryCurrentSession) => {},
        _ => panic!("expected the session query"),
    }
    app.open_kill_session_confirm("dev".to_string());
    match &app.dialog {
        Dialog::Confirm(d) => {
            assert_eq!(d.title, "Kill Session");
            assert_eq!(d.message, "Kill current session 'dev'?");
        },
        _ => panic!("expected a confirm dialog"),
    }
    app.handle_action(Action::Escape);
    let eff = app.handle_action(Action::ExecuteCommand(PaletteCommand::NewSession));
    assert!(eff.is_none());
    match &app.dialog {
        Dialog::Input(d) => assert_eq!(d.title, "New Session Name"),
        _ => panic!("expected an input dialog"),
    }
}

#[test]
fn execute_command_opens_pickers_and_dialogs() {
    let mut app = fresh_app();
    match app.handle_action(Action::ExecuteCommand(PaletteCommand::OpenFile)) {
        Some(Effect::RefreshFiles(dir)) => assert_eq!(dir, "/home/dev/proj"),
        _ => panic!("a fresh file picker needs a listing"),
    }
    assert!(matches!(app.view, AppView::FilePicker));

    let mut app = fresh_app();
    match app.handle_action(Action::ExecuteCommand(PaletteCommand::ListWorktrees)) {
        Some(Effect::RefreshWorktrees) => {},
        _ => panic!("a fresh worktree picker needs a listing"),
    }
    assert!(matches!(app.view, AppView::WorktreePicker));

    let mut app = fresh_app();
    assert!(app.handle_action(Action::ExecuteCommand(PaletteCommand::CreateWorktree)).is_none());
    match &app.dialog {
        Dialog::Input(d) => assert_eq!(d.title, "New Worktree Branch"),
        _ => panic!("expected an input dialog"),
    }
}

#[test]
fn merge_flow_closes_dialog_and_refreshes() {
    let mut app = fresh_app();
    app.handle_action(Action::ShowWorktreePicker);
    app.set_worktrees(vec![WorktreeEntry {
        path: "/w/fix".to_string(),
        branch: "fix".to_string(),
        is_main: false,
        has_changes: false,
    }]);
    app.handle_action(Action::ShowConfirm {
        title: "Merge to Main".to_string(),
        message: "Merge 'fix' to main and delete worktree?".to_string(),
        callback: ConfirmCallback::MergeWorktree("/w/fix".to_string()),
    });
    match app.handle_action(Action::Enter) {
        Some(Effect::ResolveMerge(p)) => assert_eq!(p, "/w/fix"),
        _ => panic!("expected the merge resolution"),
    }
    app.finish_worktree_removed(Vec::new());
    assert!(matches!(app.dialog, Dialog::Closed));
    assert_eq!(app.worktree_picker.as_ref().unwrap().list.items.len(), 0);
}

#[test]
fn open_file_and_buffer_stop_the_run() {
    let mut app = fresh_app();
    match app.handle_action(Action::OpenFile("/tmp/a.txt".to_string())) {
        Some(Effect::OpenFile(p)) => assert_eq!(p, "/tmp/a.txt"),
        _ => panic!("expected an open effect"),
    }
    assert!(!app.running);

    let mut app = fresh_app();
    match app.handle_action(Action::OpenBuffer { socket: "/tmp/nvim.sock".to_string(), bufnr: 3 }) {
        Some(Effect::OpenBuffer { socket, bufnr }) => {
            assert_eq!(socket, "/tmp/nvim.sock");
            assert_eq!(bufnr, 3);
        },
        _ => panic!("expected an open effect"),
    }
    assert!(!app.running);
}

#[test]
fn help_text_follows_state() {
    let mut app = fresh_app();
    assert_eq!(app.current_help_text(), "Enter:switch  n:new  d:delete  Esc:back");
    app.handle_action(Action::ShowCommandPalette);
    assert_eq!(app.current_help_text(), "Enter:execute  Esc:back");
    app.handle_action(Action::ShowInput {
        title: "New Session Name".to_string(),
        callback: InputCallback::CreateSession,
    });
    assert_eq!(app.current_help_text(), "Enter:confirm  Esc:cancel");
    app.handle_action(Action::Escape);
    assert_eq!(app.current_help_text(), "Enter:execute  Esc:back");
}

#[test]
fn escape_clears_filter_before_going_back() {
    let mut app = fresh_app();
    app.handle_action(Action::Character('d'));
    // 'd' on an empty query asks to delete; close that dialog first.
    app.handle_action(Action::Escape);
    app.handle_action(Action::Character('o'));
    assert_eq!(app.session_picker.list.query(), "o");
    let eff = app.handle_action(Action::Escape);
    assert!(eff.is_none());
    assert_eq!(app.session_picker.list.query(), "");
    // A second escape with an empty filter is the no-op go-back.
    let eff = app.handle_action(Action::Escape);
    assert!(eff.is_none());
}
