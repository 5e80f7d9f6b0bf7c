//! End-to-end scenarios for the composite operations and the driver:
//! concurrent-group planning and execution, re-planning against a
//! satisfied host, single-failure propagation, and rollback.

use nix_installer::action::{Action, ActionState, StatefulAction};
use nix_installer::base::{CreateOrInsertIntoFile, Position};
use nix_installer::driver::{Operation, describe_plan, execute_plan, revert_plan};
use nix_installer::errors::ActionErrorKind;
use nix_installer::macos::MountApfsVolume;
use nix_installer::settings::HostContext;
use nix_installer::shell_profile::{ConfigureShellProfile, ShellProfileLocations};
use nix_installer::system::{FsNode, System, VolumeRecord};

fn locations() -> ShellProfileLocations {
    ShellProfileLocations { bash: Vec::new(), zsh: Vec::new() }
}

fn ctx() -> HostContext {
    HostContext { uid: 501, username: "tester".to_string(), home: "/home/tester".to_string() }
}

fn file_child(sys: &System, path: &str, buf: &str) -> StatefulAction<CreateOrInsertIntoFile> {
    CreateOrInsertIntoFile::plan(
        path.to_string(),
        None,
        None,
        0o644,
        buf.to_string(),
        Position::End,
        sys,
    )
    .unwrap()
}

#[test]
fn composite_creates_both_missing_files() {
    let mut sys = System::empty();
    let a = file_child(&sys, "/tmp/alpha.conf", "alpha settings");
    let b = file_child(&sys, "/tmp/beta.conf", "beta settings");
    let composite = ConfigureShellProfile::new(locations(), Vec::new(), vec![a, b]);
    let mut wrapper = StatefulAction::uncompleted(composite);
    wrapper.try_execute(&mut sys).unwrap();
    assert_eq!(wrapper.state, ActionState::Completed);
    assert_eq!(
        sys.fs_file_content(&"/tmp/alpha.conf".to_string()).unwrap(),
        "alpha settings"
    );
    assert_eq!(
        sys.fs_file_content(&"/tmp/beta.conf".to_string()).unwrap(),
        "beta settings"
    );
}

#[test]
fn replanning_detects_existing_correct_content() {
    let mut sys = System::empty();
    let a = file_child(&sys, "/tmp/alpha.conf", "alpha settings");
    let b = file_child(&sys, "/tmp/beta.conf", "beta settings");
    let composite = ConfigureShellProfile::new(locations(), Vec::new(), vec![a, b]);
    let mut wrapper = StatefulAction::uncompleted(composite);
    wrapper.try_execute(&mut sys).unwrap();

    // planning the same children again finds the goal already satisfied
    let a2 = file_child(&sys, "/tmp/alpha.conf", "alpha settings");
    let b2 = file_child(&sys, "/tmp/beta.conf", "beta settings");
    assert_eq!(a2.state, ActionState::Completed);
    assert_eq!(b2.state, ActionState::Completed);
    let composite2 = ConfigureShellProfile::new(locations(), Vec::new(), vec![a2, b2]);
    let mut wrapper2 = StatefulAction::uncompleted(composite2);
    let before_a = sys.fs_file_content(&"/tmp/alpha.conf".to_string()).unwrap();
    let before_b = sys.fs_file_content(&"/tmp/beta.conf".to_string()).unwrap();
    wrapper2.try_execute(&mut sys).unwrap();
    assert_eq!(
        sys.fs_file_content(&"/tmp/alpha.conf".to_string()).unwrap(),
        before_a
    );
    assert_eq!(
        sys.fs_file_content(&"/tmp/beta.conf".to_string()).unwrap(),
        before_b
    );
}

#[test]
fn whole_shell_profile_plan_is_completed_when_nothing_is_needed() {
    let mut sys = System::empty();
    // `.zshrc` sources `~/.zshrc.d` already, and the profile target is a
    // symlink a dotfile manager owns: nothing is left to do
    sys.fs_set(
        "/home/tester/.zshrc".to_string(),
        FsNode::File {
            content:
                "[[ -d \"${HOME}/.zshrc.d\" ]] && for zshrc in \"${HOME}\"/.zshrc.d/.*; source \"$zshrc\""
                .to_string(),
        },
    );
    sys.fs_set(
        "/home/tester/.zshrc.d/.nixrc".to_string(),
        FsNode::Symlink { target: "/etc/managed/nixrc".to_string() },
    );
    let planned = ConfigureShellProfile::plan(locations(), &ctx(), &sys).unwrap();
    assert_eq!(planned.state, ActionState::Completed);
    assert_eq!(planned.action.create_directories.len(), 0);
    assert_eq!(planned.action.create_or_insert_into_files.len(), 0);
}

#[test]
fn shell_profile_plan_builds_directory_and_profile_children() {
    let mut sys = System::empty();
    sys.fs_set(
        "/home/tester/.zshrc".to_string(),
        FsNode::File { content: "# nothing nix related\n".to_string() },
    );
    let planned = ConfigureShellProfile::plan(locations(), &ctx(), &sys).unwrap();
    assert_eq!(planned.state, ActionState::Uncompleted);
    assert_eq!(planned.action.create_directories.len(), 1);
    assert_eq!(planned.action.create_directories[0].action.path, "/home/tester/.zshrc.d");
    assert_eq!(planned.action.create_or_insert_into_files.len(), 2);
    assert_eq!(
        planned.action.create_or_insert_into_files[0].action.path,
        "/home/tester/.zshrc"
    );
    assert_eq!(
        planned.action.create_or_insert_into_files[1].action.path,
        "/home/tester/.zshrc.d/.nixrc"
    );
}

#[test]
fn single_failure_is_not_aggregated() {
    let mut sys = System::empty();
    let good = file_child(&sys, "/tmp/good.conf", "fine");
    let bad = file_child(&sys, "/tmp/bad.conf", "never lands");
    // the failing child's target is taken over by a directory between
    // planning and execution
    sys.fs_set("/tmp/bad.conf".to_string(), FsNode::Dir);
    let composite = ConfigureShellProfile::new(locations(), Vec::new(), vec![good, bad]);
    let mut wrapper = StatefulAction::uncompleted(composite);
    let e = wrapper.try_execute(&mut sys).unwrap_err();
    assert!(matches!(&e.kind, ActionErrorKind::Open(p) if p == "/tmp/bad.conf"));
    assert_eq!(wrapper.state, ActionState::Uncompleted);
    assert_eq!(
        wrapper.action.create_or_insert_into_files[0].state,
        ActionState::Completed
    );
    assert_eq!(
        wrapper.action.create_or_insert_into_files[1].state,
        ActionState::Uncompleted
    );
    assert_eq!(sys.fs_file_content(&"/tmp/good.conf".to_string()).unwrap(), "fine");
}

#[test]
fn two_failures_are_aggregated_completely() {
    let mut sys = System::empty();
    let good = file_child(&sys, "/tmp/kept.conf", "fine");
    let bad1 = file_child(&sys, "/tmp/bad-one.conf", "x");
    let bad2 = file_child(&sys, "/tmp/bad-two.conf", "y");
    sys.fs_set("/tmp/bad-one.conf".to_string(), FsNode::Dir);
    sys.fs_set("/tmp/bad-two.conf".to_string(), FsNode::Dir);
    let composite = ConfigureShellProfile::new(locations(), Vec::new(), vec![good, bad1, bad2]);
    let mut wrapper = StatefulAction::uncompleted(composite);
    let e = wrapper.try_execute(&mut sys).unwrap_err();
    assert_eq!(e.action_tag.0, "configure_shell_profile");
    match e.kind {
        ActionErrorKind::Multiple(errs) => {
            assert_eq!(errs.len(), 2);
            assert!(
                matches!(&errs[0].kind, ActionErrorKind::Open(p) if p == "/tmp/bad-one.conf")
            );
            assert!(
                matches!(&errs[1].kind, ActionErrorKind::Open(p) if p == "/tmp/bad-two.conf")
            );
        },
        _ => panic!("two sibling failures must be aggregated"),
    }
    assert_eq!(
        wrapper.action.create_or_insert_into_files[0].state,
        ActionState::Completed
    );
    assert_eq!(
        wrapper.action.create_or_insert_into_files[1].state,
        ActionState::Uncompleted
    );
    assert_eq!(
        wrapper.action.create_or_insert_into_files[2].state,
        ActionState::Uncompleted
    );
}

#[test]
fn revert_after_partial_failure_undoes_the_succeeding_child() {
    let mut sys = System::empty();
    let good = file_child(&sys, "/tmp/good.conf", "fine");
    let bad = file_child(&sys, "/tmp/bad.conf", "never lands");
    sys.fs_set("/tmp/bad.conf".to_string(), FsNode::Dir);
    let composite = ConfigureShellProfile::new(locations(), Vec::new(), vec![good, bad]);
    let mut wrapper = StatefulAction::uncompleted(composite);
    wrapper.try_execute(&mut sys).unwrap_err();

    // reverting the whole plan: the succeeding child's revert runs and
    // transitions it back; the failed child's revert is a no-op
    wrapper.action.revert(&mut sys).unwrap();
    assert_eq!(
        wrapper.action.create_or_insert_into_files[0].state,
        ActionState::Uncompleted
    );
    assert_eq!(
        wrapper.action.create_or_insert_into_files[1].state,
        ActionState::Uncompleted
    );
    assert!(!sys.fs_contains(&"/tmp/good.conf".to_string()));
    // the interloping directory is untouched
    assert!(sys.fs_contains(&"/tmp/bad.conf".to_string()));
}

#[test]
fn driver_stops_at_first_failure_and_rolls_back() {
    let mut sys = System::empty();
    sys.volume_set(
        "Nix Store".to_string(),
        VolumeRecord { mounted: false, encrypted: true },
    );
    let first = MountApfsVolume::plan("disk1".to_string(), "Nix Store".to_string()).unwrap();
    // the second mount targets a volume the disk subsystem does not know
    let second = MountApfsVolume::plan("disk1".to_string(), "Missing".to_string()).unwrap();
    let mut plan = vec![
        StatefulAction::uncompleted(Operation::MountApfsVolume(first.action)),
        StatefulAction::uncompleted(Operation::MountApfsVolume(second.action)),
    ];
    let failure = execute_plan(&mut plan, &mut sys).unwrap_err();
    assert!(matches!(failure.error.kind, ActionErrorKind::CommandFailed { .. }));
    // the first operation ran before the failure and its rollback
    // unmounted the volume again
    assert!(failure.revert_errors.is_empty());
    assert!(!sys.volume_get(&"Nix Store".to_string()).unwrap().mounted);
    assert_eq!(plan[0].state, ActionState::Uncompleted);
    assert_eq!(plan[1].state, ActionState::Uncompleted);
}

#[test]
fn driver_runs_operations_in_order_and_reverts_on_request() {
    let mut sys = System::empty();
    sys.volume_set(
        "Nix Store".to_string(),
        VolumeRecord { mounted: false, encrypted: true },
    );
    let mount = MountApfsVolume::plan("disk1".to_string(), "Nix Store".to_string()).unwrap();
    let mut plan = vec![StatefulAction::uncompleted(Operation::MountApfsVolume(mount.action))];
    let descriptions = describe_plan(&plan);
    assert_eq!(descriptions.len(), 1);
    assert_eq!(descriptions[0].description, "Mount the `Nix Store` APFS volume");
    // the dry run told, nothing changed
    assert!(!sys.volume_get(&"Nix Store".to_string()).unwrap().mounted);

    execute_plan(&mut plan, &mut sys).unwrap();
    assert!(sys.volume_get(&"Nix Store".to_string()).unwrap().mounted);
    assert_eq!(plan[0].state, ActionState::Completed);

    let errs = revert_plan(&mut plan, &mut sys);
    assert!(errs.is_empty());
    assert_eq!(plan[0].state, ActionState::Uncompleted);
    assert!(!sys.volume_get(&"Nix Store".to_string()).unwrap().mounted);
}
