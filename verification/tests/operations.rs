//! Behavior of the concrete operations: input validation, planning
//! decisions, modelled mutations and their compensation, and the
//! configuration-file logic against the real parser.

use nix_installer::action::{ActionState, StatefulAction};
use nix_installer::base::CreateDirectory;
use nix_installer::conf::{CreateOrMergeNixConfig, NixConfig, from_pairs, merge, render};
use nix_installer::errors::ActionErrorKind;
use nix_installer::fetch::FetchAndUnpackNix;
use nix_installer::init_service::{ConfigureInitService, darwin_nix_daemon_dest};
use nix_installer::macos::{
    CreateNixGcService, CreateNixOptimizeService, EncryptApfsVolume, MountApfsVolume,
    generate_gc_plist, generate_optimize_plist,
};
use nix_installer::move_store::MoveUnpackedNix;
use nix_installer::nix_configuration::{PlaceNixConfiguration, build_nix_config};
use nix_installer::settings::{CommonSettings, HostContext, InitSystem, Url, UrlOrPath};
use nix_installer::strutil::{contains_str, find_first, find_last, replace_first};
use nix_installer::shell_profile::{ConfigureShellProfile, ShellProfileLocations};
use nix_installer::system::{FsNode, GroupRecord, System, UnitRecord, VolumeRecord};

fn ctx() -> HostContext {
    HostContext { uid: 501, username: "tester".to_string(), home: "/home/tester".to_string() }
}

fn settings(url_scheme: &str) -> CommonSettings {
    CommonSettings {
        nix_package_url: UrlOrPath::Url(Url {
            scheme: url_scheme.to_string(),
            rest: "releases.example/nix.tar.xz".to_string(),
        }),
        proxy: None,
        ssl_cert_file: None,
        nix_build_group_name: "nixbld".to_string(),
        extra_conf: Vec::new(),
        force: false,
    }
}

#[test]
fn text_search_finds_first_and_last_occurrences() {
    assert!(contains_str("scratch/nix-2.18.1/store", "nix-"));
    assert!(!contains_str("scratch/store", "nix-"));
    assert_eq!(find_first("ababa", "aba"), Some(0));
    assert_eq!(find_last("ababa", "aba"), Some(2));
    assert_eq!(find_first("ababa", "zzz"), None);
    assert_eq!(
        replace_first("StandardOutPath /var/log/nix-daemon.log", "/var/log/nix-daemon.log", "/home/tester/Library/Logs/nix-daemon.log"),
        "StandardOutPath /home/tester/Library/Logs/nix-daemon.log"
    );
}

#[test]
fn fetch_plan_rejects_unknown_url_scheme() {
    let e = FetchAndUnpackNix::plan(&settings("ftp")).unwrap_err();
    assert_eq!(e.action_tag.0, "fetch_and_unpack_nix");
    assert!(matches!(e.kind, ActionErrorKind::UnknownUrlScheme));
}

#[test]
fn fetch_plan_rejects_unknown_proxy_scheme() {
    let mut s = settings("https");
    s.proxy = Some(Url { scheme: "gopher".to_string(), rest: "proxy.example".to_string() });
    let e = FetchAndUnpackNix::plan(&s).unwrap_err();
    assert!(matches!(e.kind, ActionErrorKind::Custom(_)));
}

#[test]
fn fetch_plan_accepts_file_scheme_and_records_scratch_dir() {
    let w = FetchAndUnpackNix::plan(&settings("file")).unwrap();
    assert_eq!(w.state, ActionState::Uncompleted);
    assert_eq!(w.action.dest, "/nix/temp-install");
    assert_eq!(w.action.nix_build_group_name, "nixbld");
}

#[test]
fn init_service_plan_requires_systemd_marker_and_systemctl() {
    let sys = System::empty();
    let e = ConfigureInitService::plan(InitSystem::Systemd, true, &ctx(), &sys).unwrap_err();
    assert!(matches!(e.kind, ActionErrorKind::SystemdMissing));

    let mut sys = System::empty();
    sys.fs_set("/run/systemd/system".to_string(), FsNode::Dir);
    let e = ConfigureInitService::plan(InitSystem::Systemd, true, &ctx(), &sys).unwrap_err();
    assert!(matches!(e.kind, ActionErrorKind::SystemdMissing));

    sys.systemctl_on_path = true;
    let w = ConfigureInitService::plan(InitSystem::Systemd, true, &ctx(), &sys).unwrap();
    assert_eq!(w.state, ActionState::Uncompleted);
}

#[test]
fn init_service_plan_rejects_foreign_unit_files() {
    let mut sys = System::empty();
    sys.fs_set("/run/systemd/system".to_string(), FsNode::Dir);
    sys.systemctl_on_path = true;
    sys.fs_set(
        "/etc/systemd/system/nix-daemon.service".to_string(),
        FsNode::File { content: "[Unit]\n".to_string() },
    );
    let e = ConfigureInitService::plan(InitSystem::Systemd, true, &ctx(), &sys).unwrap_err();
    assert!(
        matches!(&e.kind, ActionErrorKind::FileExists(p) if p == "/etc/systemd/system/nix-daemon.service")
    );
}

#[test]
fn init_service_execute_places_units_and_enables_the_socket() {
    let mut sys = System::empty();
    sys.fs_set("/run/systemd/system".to_string(), FsNode::Dir);
    sys.systemctl_on_path = true;
    sys.unit_set(
        "nix-daemon.socket".to_string(),
        UnitRecord { active: true, enabled: true },
    );
    let mut w = ConfigureInitService::plan(InitSystem::Systemd, false, &ctx(), &sys).unwrap();
    w.try_execute(&mut sys).unwrap();
    assert_eq!(w.state, ActionState::Completed);
    // the socket was active before, so it is enabled and running again
    let sock = sys.unit_get(&"nix-daemon.socket".to_string()).unwrap();
    assert!(sock.enabled && sock.active);
    assert_eq!(
        sys.fs_symlink_target(&"/etc/systemd/system/nix-daemon.service".to_string()).unwrap(),
        "/nix/var/nix/profiles/default/lib/systemd/system/nix-daemon.service"
    );
    assert_eq!(
        sys.fs_symlink_target(&"/etc/systemd/system/nix-daemon.socket".to_string()).unwrap(),
        "/nix/var/nix/profiles/default/lib/systemd/system/nix-daemon.socket"
    );
    assert_eq!(
        sys.fs_symlink_target(&"/etc/tmpfiles.d/nix-daemon.conf".to_string()).unwrap(),
        "/nix/var/nix/profiles/default/lib/tmpfiles.d/nix-daemon.conf"
    );

    // unconfiguring stops and disables both units and removes the
    // tmpfiles entry; the unit symlinks deliberately stay
    w.try_revert(&mut sys).unwrap();
    assert_eq!(w.state, ActionState::Uncompleted);
    let sock = sys.unit_get(&"nix-daemon.socket".to_string()).unwrap();
    assert!(!sock.enabled && !sock.active);
    assert!(!sys.fs_contains(&"/etc/tmpfiles.d/nix-daemon.conf".to_string()));
    assert!(sys.fs_contains(&"/etc/systemd/system/nix-daemon.socket".to_string()));
}

#[test]
fn init_service_execute_installs_the_launchd_daemon() {
    let mut sys = System::empty();
    sys.fs_set(
        "/nix/var/nix/profiles/default/Library/LaunchDaemons/org.nixos.nix-daemon.plist"
            .to_string(),
        FsNode::File {
            content: "<plist>StandardOutPath /var/log/nix-daemon.log</plist>".to_string(),
        },
    );
    let mut w = ConfigureInitService::plan(InitSystem::Launchd, true, &ctx(), &sys).unwrap();
    w.try_execute(&mut sys).unwrap();
    let dest = darwin_nix_daemon_dest(&ctx());
    assert_eq!(dest, "/home/tester/Library/LaunchAgents/org.nixos.nix-daemon.plist");
    assert_eq!(
        sys.fs_file_content(&dest).unwrap(),
        "<plist>StandardOutPath /home/tester/Library/Logs/nix-daemon.log</plist>"
    );
    let unit = sys.unit_get(&"org.nixos.nix-daemon".to_string()).unwrap();
    assert!(unit.enabled && unit.active);

    w.try_revert(&mut sys).unwrap();
    assert!(!sys.fs_contains(&dest));
    assert!(sys.unit_get(&"org.nixos.nix-daemon".to_string()).is_none());
}

#[test]
fn move_store_needs_exactly_one_unpacked_root() {
    let mut sys = System::empty();
    let mut w = MoveUnpackedNix::plan(&settings("https")).unwrap();
    let e = w.try_execute(&mut sys).unwrap_err();
    assert!(matches!(e.kind, ActionErrorKind::MalformedBinaryTarball));

    let mut sys = System::empty();
    sys.fs_set("/nix/temp-install/nix-2.18.1".to_string(), FsNode::Dir);
    sys.fs_set("/nix/temp-install/nix-2.19.0".to_string(), FsNode::Dir);
    let mut w = MoveUnpackedNix::plan(&settings("https")).unwrap();
    let e = w.try_execute(&mut sys).unwrap_err();
    assert!(matches!(e.kind, ActionErrorKind::MalformedBinaryTarball));
}

#[test]
fn move_store_requires_the_build_group_for_a_fresh_store() {
    let mut sys = System::empty();
    sys.fs_set("/nix/temp-install/nix-2.18.1".to_string(), FsNode::Dir);
    let mut w = MoveUnpackedNix::plan(&settings("https")).unwrap();
    let e = w.try_execute(&mut sys).unwrap_err();
    assert!(matches!(&e.kind, ActionErrorKind::NoGroup(g) if g == "nixbld"));
}

#[test]
fn move_store_moves_entries_and_leaves_back_links() {
    let mut sys = System::empty();
    sys.groups.set("nixbld".to_string(), GroupRecord { gid: 30000 });
    sys.fs_set("/nix/temp-install/nix-2.18.1".to_string(), FsNode::Dir);
    sys.fs_set("/nix/temp-install/nix-2.18.1/store".to_string(), FsNode::Dir);
    sys.fs_set(
        "/nix/temp-install/nix-2.18.1/store/abc-bash".to_string(),
        FsNode::File { content: "bash".to_string() },
    );
    sys.fs_set(
        "/nix/temp-install/nix-2.18.1/store/def-nix".to_string(),
        FsNode::File { content: "nix".to_string() },
    );
    let mut w = MoveUnpackedNix::plan(&settings("https")).unwrap();
    w.try_execute(&mut sys).unwrap();
    assert!(sys.fs_contains(&"/nix/store".to_string()));
    assert_eq!(
        sys.fs_file_content(&"/nix/store/abc-bash".to_string()).unwrap(),
        "bash"
    );
    assert_eq!(
        sys.fs_file_content(&"/nix/store/def-nix".to_string()).unwrap(),
        "nix"
    );
    assert_eq!(
        sys.fs_symlink_target(&"/nix/temp-install/nix-2.18.1/store/abc-bash".to_string())
            .unwrap(),
        "/nix/store/abc-bash"
    );
    assert_eq!(
        sys.fs_symlink_target(&"/nix/temp-install/nix-2.18.1/store/def-nix".to_string())
            .unwrap(),
        "/nix/store/def-nix"
    );
    // the move is documented as irreversible: revert is a no-op
    w.try_revert(&mut sys).unwrap();
    assert!(sys.fs_contains(&"/nix/store/abc-bash".to_string()));
}

#[test]
fn nix_conf_text_parses_and_renders() {
    // planning against an existing file runs the real parser; the parsed
    // settings survive the merge and render back in order
    let mut sys = System::empty();
    sys.fs_set(
        "/etc/nix/nix.conf".to_string(),
        FsNode::File {
            content: " cores = 4242\nexperimental-features = flakes nix-command\n# a comment\n"
                .to_string(),
        },
    );
    let w = CreateOrMergeNixConfig::plan("/etc/nix/nix.conf".to_string(), NixConfig::new(), &sys)
        .unwrap();
    let nc = &w.action.pending_nix_config;
    assert_eq!(nc.get(&"cores".to_string()).unwrap(), "4242");
    assert_eq!(
        nc.get(&"experimental-features".to_string()).unwrap(),
        "flakes nix-command"
    );
    assert_eq!(
        render(nc),
        "cores = 4242\nexperimental-features = flakes nix-command\n"
    );
}

#[test]
fn nix_conf_parse_rejects_illegal_lines() {
    let mut sys = System::empty();
    sys.fs_set(
        "/etc/nix/nix.conf".to_string(),
        FsNode::File { content: "bad config".to_string() },
    );
    let e = CreateOrMergeNixConfig::plan("/etc/nix/nix.conf".to_string(), NixConfig::new(), &sys)
        .unwrap_err();
    assert!(matches!(e.kind, ActionErrorKind::Custom(_)));
}

#[test]
fn merged_settings_prefer_the_overlay() {
    let base = from_pairs(vec![
        ("cores".to_string(), "2".to_string()),
        ("warn-dirty".to_string(), "true".to_string()),
    ]);
    let mut overlay = NixConfig::new();
    overlay.set("cores".to_string(), "8".to_string());
    let merged = merge(base, &overlay);
    assert_eq!(merged.get(&"cores".to_string()).unwrap(), "8");
    assert_eq!(merged.get(&"warn-dirty".to_string()).unwrap(), "true");
}

#[test]
fn default_settings_merge_experimental_features() {
    let mut s = settings("https");
    s.extra_conf = vec!["experimental-features = flakes ca-derivations".to_string()];
    let pairs = vec![(
        "experimental-features".to_string(),
        "flakes ca-derivations".to_string(),
    )];
    let nc = build_nix_config(pairs, &s);
    assert_eq!(
        nc.get(&"experimental-features".to_string()).unwrap(),
        "flakes ca-derivations nix-command repl-flake"
    );
    assert_eq!(nc.get(&"build-users-group".to_string()).unwrap(), "nixbld");
    assert_eq!(nc.get(&"max-jobs".to_string()).unwrap(), "auto");
}

#[test]
fn place_nix_configuration_writes_the_rendered_file() {
    let mut sys = System::empty();
    let mut s = settings("https");
    s.extra_conf = vec!["cores = 4242".to_string()];
    let mut w = PlaceNixConfiguration::plan(&s, &ctx(), &sys).unwrap();
    assert_eq!(w.state, ActionState::Uncompleted);
    w.try_execute(&mut sys).unwrap();
    assert!(sys.fs_contains(&"/etc/nix".to_string()));
    let expected = "cores = 4242\n\
        build-users-group = nixbld\n\
        experimental-features = nix-command flakes repl-flake\n\
        auto-optimise-store = true\n\
        bash-prompt-prefix = (nix:$name)\\040\n\
        max-jobs = auto\n\
        extra-nix-path = nixpkgs=flake:nixpkgs\n\
        upgrade-nix-store-path-url = https://install.determinate.systems/nix-upgrade/stable/universal\n\
        keep-derivations = false\n\
        keep-outputs = false\n";
    assert_eq!(
        sys.fs_file_content(&"/etc/nix/nix.conf".to_string()).unwrap(),
        expected
    );

    // planning again against the placed file finds nothing to do
    let w2 = PlaceNixConfiguration::plan(&s, &ctx(), &sys).unwrap();
    assert_eq!(w2.state, ActionState::Completed);

    // reverting removes the file and the directory
    w.try_revert(&mut sys).unwrap();
    assert!(!sys.fs_contains(&"/etc/nix/nix.conf".to_string()));
    assert!(!sys.fs_contains(&"/etc/nix".to_string()));
}

#[test]
fn create_directory_plan_flags_conflicts() {
    let mut sys = System::empty();
    sys.fs_set(
        "/etc/nix".to_string(),
        FsNode::File { content: "not a directory".to_string() },
    );
    let e = CreateDirectory::plan(
        "/etc/nix".to_string(),
        None,
        None,
        0o755,
        false,
        &sys,
    )
    .unwrap_err();
    assert!(matches!(&e.kind, ActionErrorKind::FileExists(p) if p == "/etc/nix"));
}

#[test]
fn merge_config_plan_keeps_unrelated_existing_settings() {
    let mut sys = System::empty();
    sys.fs_set(
        "/etc/nix/nix.conf".to_string(),
        FsNode::File { content: "warn-dirty = false\n".to_string() },
    );
    let mut pending = NixConfig::new();
    pending.set("cores".to_string(), "8".to_string());
    let mut w =
        CreateOrMergeNixConfig::plan("/etc/nix/nix.conf".to_string(), pending, &sys).unwrap();
    assert_eq!(w.state, ActionState::Uncompleted);
    w.try_execute(&mut sys).unwrap();
    assert_eq!(
        sys.fs_file_content(&"/etc/nix/nix.conf".to_string()).unwrap(),
        "warn-dirty = false\ncores = 8\n"
    );
}

#[test]
fn encrypt_plan_decides_from_keychain_and_volume_state() {
    let mut sys = System::empty();
    // password and volume both in place: nothing to do
    let w = EncryptApfsVolume::plan(
        "disk1".to_string(),
        "Nix Store".to_string(),
        ActionState::Completed,
        true,
        &sys,
    )
    .unwrap();
    assert_eq!(w.state, ActionState::Completed);

    // stray password for a volume that is not there
    let e = EncryptApfsVolume::plan(
        "disk1".to_string(),
        "Nix Store".to_string(),
        ActionState::Uncompleted,
        true,
        &sys,
    )
    .unwrap_err();
    assert!(matches!(e.kind, ActionErrorKind::Custom(_)));

    // existing volume with no password cannot be decrypted
    let e = EncryptApfsVolume::plan(
        "disk1".to_string(),
        "Nix Store".to_string(),
        ActionState::Completed,
        false,
        &sys,
    )
    .unwrap_err();
    assert!(matches!(e.kind, ActionErrorKind::Custom(_)));

    // fresh host: encryption still to do
    let w = EncryptApfsVolume::plan(
        "disk1".to_string(),
        "Nix Store".to_string(),
        ActionState::Uncompleted,
        false,
        &sys,
    )
    .unwrap();
    assert_eq!(w.state, ActionState::Uncompleted);

    // an already encrypted volume satisfies the goal
    sys.volume_set(
        "Nix Store".to_string(),
        nix_installer::system::VolumeRecord { mounted: false, encrypted: true },
    );
    let w = EncryptApfsVolume::plan(
        "disk1".to_string(),
        "Nix Store".to_string(),
        ActionState::Uncompleted,
        false,
        &sys,
    )
    .unwrap();
    assert_eq!(w.state, ActionState::Completed);
}

#[test]
fn gc_service_plan_compares_the_discovered_plist() {
    let bytes = "<plist>gc</plist>".to_string();
    let w = CreateNixGcService::plan(&ctx(), false, None, bytes.clone()).unwrap();
    assert_eq!(w.state, ActionState::Uncompleted);
    assert_eq!(w.action.path, "/home/tester/Library/LaunchAgents/org.nixos.nix-gc.plist");
    assert!(!w.action.needs_bootout);

    let same = generate_gc_plist(&"org.nixos.nix-gc".to_string(), &ctx());
    let w = CreateNixGcService::plan(&ctx(), true, Some(same), bytes.clone()).unwrap();
    assert_eq!(w.state, ActionState::Completed);
    assert!(w.action.needs_bootout);

    let mut different = generate_gc_plist(&"org.nixos.nix-gc".to_string(), &ctx());
    different.standard_out_path = "/somewhere/else.log".to_string();
    let e = CreateNixGcService::plan(&ctx(), false, Some(different), bytes.clone()).unwrap_err();
    assert!(matches!(e.kind, ActionErrorKind::Custom(_)));

    // a different schedule is a different service
    let mut rescheduled = generate_gc_plist(&"org.nixos.nix-gc".to_string(), &ctx());
    rescheduled.start_calendar_interval.hour = 2;
    let e = CreateNixGcService::plan(&ctx(), false, Some(rescheduled), bytes).unwrap_err();
    assert!(matches!(e.kind, ActionErrorKind::Custom(_)));
}

#[test]
fn gc_service_execute_writes_the_rendered_plist_and_registers_the_unit() {
    let mut sys = System::empty();
    let bytes = "<plist>gc</plist>".to_string();
    let mut w = CreateNixGcService::plan(&ctx(), false, None, bytes.clone()).unwrap();
    w.try_execute(&mut sys).unwrap();
    assert!(sys.fs_contains(&"/home/tester/Library/LaunchAgents".to_string()));
    assert_eq!(
        sys.fs_file_content(&"/home/tester/Library/LaunchAgents/org.nixos.nix-gc.plist".to_string())
            .unwrap(),
        bytes
    );
    let unit = sys.unit_get(&"org.nixos.nix-gc".to_string()).unwrap();
    assert!(unit.active && unit.enabled);

    w.try_revert(&mut sys).unwrap();
    assert!(
        !sys.fs_contains(
            &"/home/tester/Library/LaunchAgents/org.nixos.nix-gc.plist".to_string()
        )
    );
}

#[test]
fn optimize_service_plan_mirrors_the_collector() {
    let bytes = "<plist>optimize</plist>".to_string();
    let same = generate_optimize_plist(&"org.nixos.nix-optimize".to_string(), &ctx());
    assert_eq!(same.start_calendar_interval.hour, 3);
    let w = CreateNixOptimizeService::plan(&ctx(), false, Some(same), bytes.clone()).unwrap();
    assert_eq!(w.state, ActionState::Completed);
    assert_eq!(
        w.action.path,
        "/home/tester/Library/LaunchAgents/org.nixos.nix-optimize.plist"
    );

    let mut sys = System::empty();
    let mut w = CreateNixOptimizeService::plan(&ctx(), false, None, bytes.clone()).unwrap();
    w.try_execute(&mut sys).unwrap();
    assert_eq!(
        sys.fs_file_content(
            &"/home/tester/Library/LaunchAgents/org.nixos.nix-optimize.plist".to_string()
        )
        .unwrap(),
        bytes
    );
    assert!(sys.unit_get(&"org.nixos.nix-optimize".to_string()).unwrap().active);
}

#[test]
fn mount_revert_unmounts_what_execute_mounted() {
    let mut sys = System::empty();
    sys.volume_set(
        "Nix Store".to_string(),
        VolumeRecord { mounted: false, encrypted: true },
    );
    let mut w = MountApfsVolume::plan("disk1".to_string(), "Nix Store".to_string()).unwrap();
    w.try_execute(&mut sys).unwrap();
    assert!(sys.volume_get(&"Nix Store".to_string()).unwrap().mounted);
    w.try_revert(&mut sys).unwrap();
    let v = sys.volume_get(&"Nix Store".to_string()).unwrap();
    assert!(!v.mounted);
    assert!(v.encrypted);
}

#[test]
fn shell_profile_plan_attributes_its_own_probe_failure() {
    let mut sys = System::empty();
    sys.fs_set("/home/tester/.zshrc".to_string(), FsNode::Dir);
    let e = ConfigureShellProfile::plan(
        ShellProfileLocations { bash: Vec::new(), zsh: Vec::new() },
        &ctx(),
        &sys,
    )
    .unwrap_err();
    assert_eq!(e.action_tag.0, "configure_shell_profile");
    assert!(matches!(&e.kind, ActionErrorKind::Read(p) if p == "/home/tester/.zshrc"));
}
