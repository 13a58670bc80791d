//! The input and confirm dialogs, on their own.

use muxpick::action::Action;
use muxpick::action::ConfirmCallback;
use muxpick::action::InputCallback;
use muxpick::dialog::ConfirmDialog;
use muxpick::dialog::DialogResult;
use muxpick::dialog::InputDialog;

#[test]
fn input_dialog_accumulates_text() {
    let mut d = InputDialog::new("New Session".to_string(), InputCallback::CreateSession);
    assert!(matches!(d.handle_action(&Action::Character('p')), DialogResult::Kept));
    assert!(matches!(d.handle_action(&Action::Character('r')), DialogResult::Kept));
    assert!(matches!(d.handle_action(&Action::Character('x')), DialogResult::Kept));
    assert!(matches!(d.handle_action(&Action::Backspace), DialogResult::Kept));
    assert_eq!(d.buffer, "pr");
}

#[test]
fn input_dialog_enter_resolves_create_session() {
    let mut d = InputDialog::new("New Session".to_string(), InputCallback::CreateSession);
    for c in ['p', 'r', 'o', 'j'] {
        d.handle_action(&Action::Character(c));
    }
    match d.handle_action(&Action::Enter) {
        DialogResult::Resolved(Action::CreateSession(name, path)) => {
            assert_eq!(name, "proj");
            assert!(path.is_none());
        },
        _ => panic!("expected a CreateSession resolution"),
    }
}

#[test]
fn input_dialog_enter_resolves_create_worktree() {
    let mut d = InputDialog::new("New Worktree Branch".to_string(), InputCallback::CreateWorktree);
    for c in ['f', 'i', 'x'] {
        d.handle_action(&Action::Character(c));
    }
    match d.handle_action(&Action::Enter) {
        DialogResult::Resolved(Action::CreateWorktree(branch)) => assert_eq!(branch, "fix"),
        _ => panic!("expected a CreateWorktree resolution"),
    }
}

#[test]
fn input_dialog_enter_on_empty_is_kept() {
    let mut d = InputDialog::new("New Session".to_string(), InputCallback::CreateSession);
    assert!(matches!(d.handle_action(&Action::Enter), DialogResult::Kept));
}

#[test]
fn input_dialog_escape_clears_then_closes() {
    let mut d = InputDialog::new("New Session".to_string(), InputCallback::CreateSession);
    d.handle_action(&Action::Character('a'));
    assert!(matches!(d.handle_action(&Action::Escape), DialogResult::Kept));
    assert_eq!(d.buffer, "");
    assert!(matches!(d.handle_action(&Action::Escape), DialogResult::Closed));
}

#[test]
fn confirm_dialog_defaults_to_yes_and_toggles() {
    let mut d = ConfirmDialog::new(
        "Delete Worktree".to_string(),
        "Delete worktree 'fix'?".to_string(),
        ConfirmCallback::DeleteWorktree("/w/fix".to_string()),
    );
    assert!(d.selected);
    assert!(matches!(d.handle_action(&Action::MoveUp), DialogResult::Kept));
    assert!(!d.selected);
    assert!(matches!(d.handle_action(&Action::MoveDown), DialogResult::Kept));
    assert!(d.selected);
}

#[test]
fn confirm_dialog_y_and_n_set_selection() {
    let mut d = ConfirmDialog::new(
        "t".to_string(),
        "m".to_string(),
        ConfirmCallback::KillSession("dev".to_string()),
    );
    d.handle_action(&Action::Character('n'));
    assert!(!d.selected);
    d.handle_action(&Action::Character('Y'));
    assert!(d.selected);
    d.handle_action(&Action::Character('N'));
    assert!(!d.selected);
    d.handle_action(&Action::Character('y'));
    assert!(d.selected);
    d.handle_action(&Action::Character('z'));
    assert!(d.selected);
}

#[test]
fn confirm_dialog_enter_yes_resolves() {
    let mut d = ConfirmDialog::new(
        "t".to_string(),
        "m".to_string(),
        ConfirmCallback::KillSession("dev".to_string()),
    );
    match d.handle_action(&Action::Enter) {
        DialogResult::Resolved(Action::KillSession(name)) => assert_eq!(name, "dev"),
        _ => panic!("expected a KillSession resolution"),
    }
}

#[test]
fn confirm_dialog_enter_no_closes() {
    let mut d = ConfirmDialog::new(
        "t".to_string(),
        "m".to_string(),
        ConfirmCallback::MergeWorktree("/w/fix".to_string()),
    );
    d.handle_action(&Action::Character('n'));
    assert!(matches!(d.handle_action(&Action::Enter), DialogResult::Closed));
}

#[test]
fn confirm_dialog_escape_closes() {
    let mut d = ConfirmDialog::new(
        "t".to_string(),
        "m".to_string(),
        ConfirmCallback::DeleteWorktree("/w/fix".to_string()),
    );
    assert!(matches!(d.handle_action(&Action::Escape), DialogResult::Closed));
}
