//! Engine-level behavior: idempotent and re-entrant execution through the
//! stateful wrapper, and the zero/one/many folding of sibling failures.

use nix_installer::action::{ActionState, StatefulAction, execute_group, revert_group};
use nix_installer::base::{CreateOrInsertIntoFile, Position};
use nix_installer::errors::{ActionError, ActionErrorKind, ActionTag, fold_errors};
use nix_installer::system::{FsNode, System};

fn file_child(sys: &System, path: &str, buf: &str) -> StatefulAction<CreateOrInsertIntoFile> {
    CreateOrInsertIntoFile::plan(
        path.to_string(),
        None,
        None,
        0o644,
        buf.to_string(),
        Position::End,
        sys,
    )
    .unwrap()
}

#[test]
fn idempotent_execute_skips_satisfied_goal() {
    let mut sys = System::empty();
    sys.fs_set(
        "/home/tester/.profile".to_string(),
        FsNode::File { content: "keep\nthe block\n".to_string() },
    );
    let mut child = file_child(&sys, "/home/tester/.profile", "the block");
    assert_eq!(child.state, ActionState::Completed);
    let before = sys.fs_file_content(&"/home/tester/.profile".to_string()).unwrap();
    let r = child.try_execute(&mut sys);
    assert!(r.is_ok());
    assert_eq!(child.state, ActionState::Completed);
    let after = sys.fs_file_content(&"/home/tester/.profile".to_string()).unwrap();
    assert_eq!(before, after);
}

#[test]
fn reentrant_execute_changes_nothing_the_second_time() {
    let mut sys = System::empty();
    let mut child = file_child(&sys, "/home/tester/.profile", "the block");
    assert_eq!(child.state, ActionState::Uncompleted);
    child.try_execute(&mut sys).unwrap();
    assert_eq!(child.state, ActionState::Completed);
    let once = sys.fs_file_content(&"/home/tester/.profile".to_string()).unwrap();
    assert_eq!(once, "the block");
    child.try_execute(&mut sys).unwrap();
    assert_eq!(child.state, ActionState::Completed);
    let twice = sys.fs_file_content(&"/home/tester/.profile".to_string()).unwrap();
    assert_eq!(once, twice);
}

#[test]
fn try_revert_skips_never_executed_wrapper() {
    let mut sys = System::empty();
    let mut child = file_child(&sys, "/home/tester/.profile", "the block");
    let r = child.try_revert(&mut sys);
    assert!(r.is_ok());
    assert_eq!(child.state, ActionState::Uncompleted);
    assert!(!sys.fs_contains(&"/home/tester/.profile".to_string()));
}

#[test]
fn execute_then_revert_restores_missing_file() {
    let mut sys = System::empty();
    let mut child = file_child(&sys, "/home/tester/.profile", "the block");
    child.try_execute(&mut sys).unwrap();
    assert!(sys.fs_contains(&"/home/tester/.profile".to_string()));
    child.try_revert(&mut sys).unwrap();
    assert_eq!(child.state, ActionState::Uncompleted);
    assert!(!sys.fs_contains(&"/home/tester/.profile".to_string()));
}

#[test]
fn execute_then_revert_restores_prior_content() {
    let mut sys = System::empty();
    sys.fs_set(
        "/home/tester/.profile".to_string(),
        FsNode::File { content: "existing text\n".to_string() },
    );
    let mut child = file_child(&sys, "/home/tester/.profile", "the block");
    child.try_execute(&mut sys).unwrap();
    assert_eq!(
        sys.fs_file_content(&"/home/tester/.profile".to_string()).unwrap(),
        "existing text\nthe block"
    );
    child.try_revert(&mut sys).unwrap();
    assert_eq!(
        sys.fs_file_content(&"/home/tester/.profile".to_string()).unwrap(),
        "existing text\n"
    );
}

#[test]
fn fold_of_no_errors_is_success() {
    let r = fold_errors(ActionTag("composite"), Vec::new());
    assert!(r.is_ok());
}

#[test]
fn fold_of_one_error_propagates_it_unwrapped() {
    let e = ActionError::new(
        ActionTag("child"),
        ActionErrorKind::Read("/some/path".to_string()),
    );
    let r = fold_errors(ActionTag("composite"), vec![e]);
    let out = r.unwrap_err();
    assert_eq!(out.action_tag.0, "child");
    assert!(matches!(out.kind, ActionErrorKind::Read(p) if p == "/some/path"));
}

#[test]
fn fold_of_two_errors_aggregates_them_in_order() {
    let e1 = ActionError::new(ActionTag("a"), ActionErrorKind::Read("/p1".to_string()));
    let e2 = ActionError::new(ActionTag("b"), ActionErrorKind::Write("/p2".to_string()));
    let r = fold_errors(ActionTag("composite"), vec![e1, e2]);
    let out = r.unwrap_err();
    assert_eq!(out.action_tag.0, "composite");
    match out.kind {
        ActionErrorKind::Multiple(errs) => {
            assert_eq!(errs.len(), 2);
            assert_eq!(errs[0].action_tag.0, "a");
            assert_eq!(errs[1].action_tag.0, "b");
        },
        _ => panic!("expected an aggregate error"),
    }
}

#[test]
fn group_execute_attempts_every_sibling() {
    let mut sys = System::empty();
    // the middle sibling fails: its target is occupied by a directory by
    // execute time
    let a = file_child(&sys, "/tmp/one", "alpha");
    let b = file_child(&sys, "/tmp/two", "beta");
    let c = file_child(&sys, "/tmp/three", "gamma");
    sys.fs_set("/tmp/two".to_string(), FsNode::Dir);
    let mut group = vec![a, b, c];
    let errs = execute_group(&mut group, &mut sys);
    assert_eq!(errs.len(), 1);
    assert!(matches!(&errs[0].kind, ActionErrorKind::Open(p) if p == "/tmp/two"));
    assert_eq!(group[0].state, ActionState::Completed);
    assert_eq!(group[1].state, ActionState::Uncompleted);
    assert_eq!(group[2].state, ActionState::Completed);
    assert!(sys.fs_contains(&"/tmp/one".to_string()));
    assert!(sys.fs_contains(&"/tmp/three".to_string()));
}

#[test]
fn group_revert_runs_in_strict_reverse_order() {
    let mut sys = System::empty();
    // wrappers recorded as completed; the first and last cannot revert
    // because a directory sits at their paths, so the collected failures
    // reveal the order of the attempts: last wrapper first
    sys.fs_set("/tmp/a".to_string(), FsNode::Dir);
    sys.fs_set(
        "/tmp/b".to_string(),
        FsNode::File { content: "bee".to_string() },
    );
    sys.fs_set("/tmp/c".to_string(), FsNode::Dir);
    let mk = |path: &str, buf: &str| {
        StatefulAction::completed(CreateOrInsertIntoFile {
            path: path.to_string(),
            user: None,
            group: None,
            mode: 0o644,
            buf: buf.to_string(),
            position: Position::End,
        })
    };
    let mut group = vec![mk("/tmp/a", "aye"), mk("/tmp/b", "bee"), mk("/tmp/c", "sea")];
    let errs = revert_group(&mut group, &mut sys);
    assert_eq!(errs.len(), 2);
    assert!(matches!(&errs[0].kind, ActionErrorKind::Remove(p) if p == "/tmp/c"));
    assert!(matches!(&errs[1].kind, ActionErrorKind::Remove(p) if p == "/tmp/a"));
    // the middle wrapper reverted: its file held exactly its block
    assert!(!sys.fs_contains(&"/tmp/b".to_string()));
    assert_eq!(group[1].state, ActionState::Uncompleted);
    assert_eq!(group[0].state, ActionState::Completed);
    assert_eq!(group[2].state, ActionState::Completed);
}
