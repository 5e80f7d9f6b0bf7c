//! Configure the init system to run the Nix daemon: symlink and enable
//! the systemd units, or install and load the launchd daemon, depending
//! on which init system the host runs.

use vstd::prelude::*;
use crate::action::{Action, ActionDescription, ActionState, StatefulAction};
use crate::errors::{ActionError, ActionErrorKind, ActionTag, fold_errors, wrap_kinds};
use crate::settings::{HostContext, InitSystem};
use crate::strutil::{concat_str, copy_string, replace_first, replaced_first};
use crate::system::{FsNode, FsNodeV, NodeKind, System, SystemView, UnitRecord, with_fs, with_units};

verus! {

pub open spec fn service_src() -> Seq<char> {
    "/nix/var/nix/profiles/default/lib/systemd/system/nix-daemon.service"@
}

pub open spec fn service_dest() -> Seq<char> {
    "/etc/systemd/system/nix-daemon.service"@
}

pub open spec fn socket_src() -> Seq<char> {
    "/nix/var/nix/profiles/default/lib/systemd/system/nix-daemon.socket"@
}

pub open spec fn socket_dest() -> Seq<char> {
    "/etc/systemd/system/nix-daemon.socket"@
}

pub open spec fn tmpfiles_src() -> Seq<char> {
    "/nix/var/nix/profiles/default/lib/tmpfiles.d/nix-daemon.conf"@
}

pub open spec fn tmpfiles_dest() -> Seq<char> {
    "/etc/tmpfiles.d/nix-daemon.conf"@
}

pub open spec fn socket_unit() -> Seq<char> {
    "nix-daemon.socket"@
}

pub open spec fn service_unit() -> Seq<char> {
    "nix-daemon.service"@
}

pub open spec fn systemd_marker() -> Seq<char> {
    "/run/systemd/system"@
}

pub open spec fn darwin_daemon_source() -> Seq<char> {
    "/nix/var/nix/profiles/default/Library/LaunchDaemons/org.nixos.nix-daemon.plist"@
}

pub open spec fn darwin_daemon_service() -> Seq<char> {
    "org.nixos.nix-daemon"@
}

pub open spec fn old_daemon_log() -> Seq<char> {
    "/var/log/nix-daemon.log"@
}

/// Where the launchd daemon plist goes for a given home directory.
pub open spec fn spec_darwin_nix_daemon_dest(home: Seq<char>) -> Seq<char> {
    home + "/Library/LaunchAgents/org.nixos.nix-daemon.plist"@
}

/// Where the launchd daemon plist goes for this process's user.
pub fn darwin_nix_daemon_dest(ctx: &HostContext) -> (r: String)
    ensures
        r@ == spec_darwin_nix_daemon_dest(ctx.home@),
{
    concat_str(ctx.home.as_str(), "/Library/LaunchAgents/org.nixos.nix-daemon.plist")
}

/// Where the launchd daemon plist goes for a given home directory.
pub fn darwin_nix_daemon_dest_of(home: &String) -> (r: String)
    ensures
        r@ == spec_darwin_nix_daemon_dest(home@),
{
    concat_str(home.as_str(), "/Library/LaunchAgents/org.nixos.nix-daemon.plist")
}

/// The per-user daemon log path written into the launchd plist.
pub open spec fn spec_darwin_log_path(home: Seq<char>) -> Seq<char> {
    home + "/Library/Logs/nix-daemon.log"@
}

/// The systemd unit at `dest` may be put in place: nothing is there, or
/// only a symlink to `src`, and no override directory shadows it.
pub open spec fn unit_check_ok(f: Map<Seq<char>, FsNodeV>, src: Seq<char>, dest: Seq<char>) -> bool {
    &&& (f.contains_key(dest) ==> (f[dest] matches FsNodeV::Symlink { target } && target == src))
    &&& !f.contains_key(dest + ".d"@)
}

/// The error kind a failed unit check reports.
pub open spec fn unit_check_err_kind(
    f: Map<Seq<char>, FsNodeV>,
    src: Seq<char>,
    dest: Seq<char>,
    k: ActionErrorKind,
) -> bool {
    if f.contains_key(dest) && !(f[dest] is Symlink) {
        k matches ActionErrorKind::FileExists(p) && p@ == dest
    } else if f.contains_key(dest) && (f[dest] matches FsNodeV::Symlink { target } && target
        != src) {
        k matches ActionErrorKind::SymlinkExists(p) && p@ == dest
    } else {
        f.contains_key(dest + ".d"@) && (k matches ActionErrorKind::DirExists(p) && p@ == dest
            + ".d"@)
    }
}

/// `m` with the unit zeroed (stopped and disabled) when the init system
/// knows it.
pub open spec fn zero_unit(m: Map<Seq<char>, UnitRecord>, name: Seq<char>) -> Map<
    Seq<char>,
    UnitRecord,
> {
    if m.contains_key(name) {
        m.insert(name, UnitRecord { active: false, enabled: false })
    } else {
        m
    }
}

/// Both daemon units stopped and disabled, as the execute's first phase
/// and the revert leave them.
pub open spec fn sd_zeroed_units(m: Map<Seq<char>, UnitRecord>) -> Map<Seq<char>, UnitRecord> {
    zero_unit(zero_unit(m, socket_unit()), service_unit())
}

/// The socket unit was running before the execute touched it.
pub open spec fn sock_was_active(m: Map<Seq<char>, UnitRecord>) -> bool {
    m.contains_key(socket_unit()) && m[socket_unit()].active
}

/// `m` after enabling the unit, also starting it when `now` holds.
pub open spec fn enable_unit(m: Map<Seq<char>, UnitRecord>, name: Seq<char>, now: bool) -> Map<
    Seq<char>,
    UnitRecord,
> {
    let prior = m.contains_key(name) && m[name].active;
    m.insert(name, UnitRecord { active: prior || now, enabled: true })
}

/// The filesystem after placing the tmpfiles symlink if it was missing.
pub open spec fn tmpfiles_fs(f: Map<Seq<char>, FsNodeV>) -> Map<Seq<char>, FsNodeV> {
    if f.contains_key(tmpfiles_dest()) {
        f
    } else {
        f.insert(tmpfiles_dest(), FsNodeV::Symlink { target: tmpfiles_src() })
    }
}

/// The filesystem after the whole systemd execute: tmpfiles symlink and
/// both unit symlinks in place.
pub open spec fn sd_final_fs(f: Map<Seq<char>, FsNodeV>) -> Map<Seq<char>, FsNodeV> {
    tmpfiles_fs(f).insert(service_dest(), FsNodeV::Symlink { target: service_src() }).insert(
        socket_dest(),
        FsNodeV::Symlink { target: socket_src() },
    )
}

/// Both execute-time unit checks pass, each on the filesystem it actually
/// sees.
pub open spec fn sd_exec_checks_ok(f: Map<Seq<char>, FsNodeV>) -> bool {
    &&& unit_check_ok(tmpfiles_fs(f), service_src(), service_dest())
    &&& unit_check_ok(
        tmpfiles_fs(f).insert(service_dest(), FsNodeV::Symlink { target: service_src() }),
        socket_src(),
        socket_dest(),
    )
}

/// Planning preconditions for the systemd branch.
pub open spec fn systemd_plan_ok(sv: SystemView) -> bool {
    &&& sv.fs.contains_key(systemd_marker())
    &&& sv.systemctl_on_path
    &&& unit_check_ok(sv.fs, service_src(), service_dest())
    &&& unit_check_ok(sv.fs, socket_src(), socket_dest())
}

/// Check that the unit file at `dest` can be symlinked from `src`: an
/// existing foreign file, foreign symlink or override directory needs
/// operator intervention and is never silently overwritten.
pub fn check_if_systemd_unit_exists(src: &String, dest: &String, sys: &System) -> (r: Result<
    (),
    ActionErrorKind,
>)
    requires
        sys.inv(),
    ensures
        r is Ok <==> unit_check_ok(sys@.fs, src@, dest@),
        (r matches Err(k) ==> unit_check_err_kind(sys@.fs, src@, dest@, k)),
{
    match sys.fs_node_kind(dest) {
        NodeKind::IsFile | NodeKind::IsDir => {
            return Err(ActionErrorKind::FileExists(copy_string(dest)));
        },
        NodeKind::IsSymlink => {
            let target = match sys.fs_symlink_target(dest) {
                Some(t) => t,
                None => {
                    return Err(ActionErrorKind::FileExists(copy_string(dest)));
                },
            };
            if !(target == *src) {
                return Err(ActionErrorKind::SymlinkExists(copy_string(dest)));
            }
        },
        NodeKind::Missing => {},
    }
    let dest_d = concat_str(dest.as_str(), ".d");
    if sys.fs_contains(&dest_d) {
        Err(ActionErrorKind::DirExists(dest_d))
    } else {
        Ok(())
    }
}

/// Model of `systemctl stop`: a known unit stops; an unknown one makes
/// the command fail.
pub fn systemctl_stop(unit: &String, sys: &mut System) -> (r: Result<(), ActionErrorKind>)
    requires
        old(sys).inv(),
    ensures
        final(sys).inv(),
        match r {
            Ok(()) => old(sys)@.units.contains_key(unit@) && final(sys)@ == with_units(
                old(sys)@,
                old(sys)@.units.insert(
                    unit@,
                    UnitRecord { active: false, enabled: old(sys)@.units[unit@].enabled },
                ),
            ),
            Err(k) => !old(sys)@.units.contains_key(unit@) && final(sys)@ == old(sys)@ && (k
                matches ActionErrorKind::CommandFailed { command, output } && command@ == "systemctl stop"@),
        },
{
    match sys.unit_get(unit) {
        Some(u) => {
            sys.unit_set(copy_string(unit), UnitRecord { active: false, enabled: u.enabled });
            Ok(())
        },
        None => Err(ActionErrorKind::CommandFailed {
            command: String::from_str("systemctl stop"),
            output: String::new(),
        }),
    }
}

/// Model of `systemctl enable [--now]`: links and enables the unit,
/// starting it too when `now` holds.
pub fn systemctl_enable(unit: &String, now: bool, sys: &mut System) -> (r: Result<
    (),
    ActionErrorKind,
>)
    requires
        old(sys).inv(),
    ensures
        final(sys).inv(),
        r is Ok,
        final(sys)@ == with_units(old(sys)@, enable_unit(old(sys)@.units, unit@, now)),
{
    let prior = match sys.unit_get(unit) {
        Some(u) => u.active,
        None => false,
    };
    sys.unit_set(copy_string(unit), UnitRecord { active: prior || now, enabled: true });
    Ok(())
}

/// Model of `systemctl disable [--now]`: a known unit is disabled, and
/// stopped too when `now` holds; an unknown one makes the command fail.
pub fn systemctl_disable(unit: &String, now: bool, sys: &mut System) -> (r: Result<
    (),
    ActionErrorKind,
>)
    requires
        old(sys).inv(),
    ensures
        final(sys).inv(),
        match r {
            Ok(()) => old(sys)@.units.contains_key(unit@) && final(sys)@ == with_units(
                old(sys)@,
                old(sys)@.units.insert(
                    unit@,
                    UnitRecord {
                        active: old(sys)@.units[unit@].active && !now,
                        enabled: false,
                    },
                ),
            ),
            Err(k) => !old(sys)@.units.contains_key(unit@) && final(sys)@ == old(sys)@ && (k
                matches ActionErrorKind::CommandFailed { command, output } && command@
                == "systemctl disable"@),
        },
{
    match sys.unit_get(unit) {
        Some(u) => {
            sys.unit_set(
                copy_string(unit),
                UnitRecord { active: u.active && !now, enabled: false },
            );
            Ok(())
        },
        None => Err(ActionErrorKind::CommandFailed {
            command: String::from_str("systemctl disable"),
            output: String::new(),
        }),
    }
}

/// Model of `systemctl is-active`: whether the unit is known and running.
pub fn systemctl_is_active(unit: &String, sys: &System) -> (r: Result<bool, ActionErrorKind>)
    requires
        sys.inv(),
    ensures
        r matches Ok(b) && b == (sys@.units.contains_key(unit@) && sys@.units[unit@].active),
{
    match sys.unit_get(unit) {
        Some(u) => Ok(u.active),
        None => Ok(false),
    }
}

/// Model of `systemctl is-enabled`: whether the unit is known and
/// enabled or linked.
pub fn systemctl_is_enabled(unit: &String, sys: &System) -> (r: Result<bool, ActionErrorKind>)
    requires
        sys.inv(),
    ensures
        r matches Ok(b) && b == (sys@.units.contains_key(unit@) && sys@.units[unit@].enabled),
{
    match sys.unit_get(unit) {
        Some(u) => Ok(u.enabled),
        None => Ok(false),
    }
}

/// Legacy failure of the daemon service configuration.
#[derive(Debug)]
pub enum ConfigureNixDaemonServiceError {
    /// No supported init system was found.
    InitNotSupported,
}

/// Configure the init system to run the Nix daemon.
#[derive(Debug)]
pub struct ConfigureInitService {
    pub init: InitSystem,
    pub start_daemon: bool,
    pub home: String,
    pub uid: u32,
}

impl ConfigureInitService {
    /// Check that the init system can take the daemon units, and record
    /// the identity context the mutation will need.
    pub fn plan(init: InitSystem, start_daemon: bool, ctx: &HostContext, sys: &System) -> (r:
        Result<StatefulAction<ConfigureInitService>, ActionError>)
        requires
            sys.inv(),
        ensures
            match r {
                Ok(w) => {
                    &&& w.action.init == init
                    &&& w.action.start_daemon == start_daemon
                    &&& w.action.home@ == ctx.home@
                    &&& w.action.uid == ctx.uid
                    &&& w.state == ActionState::Uncompleted
                    &&& (init == InitSystem::Systemd ==> systemd_plan_ok(sys@))
                },
                Err(e) => {
                    &&& init == InitSystem::Systemd
                    &&& !systemd_plan_ok(sys@)
                    &&& e.action_tag@ == "configure_init_service"@
                    &&& {
                        if !sys@.fs.contains_key(systemd_marker()) || !sys@.systemctl_on_path {
                            e.kind is SystemdMissing
                        } else if !unit_check_ok(sys@.fs, service_src(), service_dest()) {
                            unit_check_err_kind(sys@.fs, service_src(), service_dest(), e.kind)
                        } else {
                            unit_check_err_kind(sys@.fs, socket_src(), socket_dest(), e.kind)
                        }
                    }
                },
            },
    {
        match init {
            InitSystem::Launchd => {},
            InitSystem::NoInit => {},
            InitSystem::Systemd => {
                if !sys.fs_contains(&String::from_str("/run/systemd/system")) {
                    return Err(ActionError::new(
                        ActionTag("configure_init_service"),
                        ActionErrorKind::SystemdMissing,
                    ));
                }
                if !sys.systemctl_on_path {
                    return Err(ActionError::new(
                        ActionTag("configure_init_service"),
                        ActionErrorKind::SystemdMissing,
                    ));
                }
                match check_if_systemd_unit_exists(
                    &String::from_str(
                        "/nix/var/nix/profiles/default/lib/systemd/system/nix-daemon.service",
                    ),
                    &String::from_str("/etc/systemd/system/nix-daemon.service"),
                    sys,
                ) {
                    Ok(()) => {},
                    Err(k) => {
                        return Err(ActionError::new(ActionTag("configure_init_service"), k));
                    },
                }
                match check_if_systemd_unit_exists(
                    &String::from_str(
                        "/nix/var/nix/profiles/default/lib/systemd/system/nix-daemon.socket",
                    ),
                    &String::from_str("/etc/systemd/system/nix-daemon.socket"),
                    sys,
                ) {
                    Ok(()) => {},
                    Err(k) => {
                        return Err(ActionError::new(ActionTag("configure_init_service"), k));
                    },
                }
            },
        }
        Ok(StatefulAction::uncompleted(ConfigureInitService {
            init,
            start_daemon,
            home: copy_string(&ctx.home),
            uid: ctx.uid,
        }))
    }
}

impl Action for ConfigureInitService {
    open spec fn inv(&self) -> bool {
        true
    }

    open spec fn execute_ok(pre: Self, s0: SystemView, post: Self, s1: SystemView) -> bool {
        &&& post == pre
        &&& match pre.init {
            InitSystem::NoInit => s1 == s0,
            InitSystem::Systemd => {
                &&& sd_exec_checks_ok(s0.fs)
                &&& s1 == with_units(
                    with_fs(s0, sd_final_fs(s0.fs)),
                    enable_unit(
                        sd_zeroed_units(s0.units),
                        socket_unit(),
                        pre.start_daemon || sock_was_active(s0.units),
                    ),
                )
            },
            InitSystem::Launchd => {
                &&& s0.fs.contains_key(darwin_daemon_source())
                &&& (s0.fs[darwin_daemon_source()] matches FsNodeV::File { content } && {
                    let newc = replaced_first(
                        content,
                        old_daemon_log(),
                        spec_darwin_log_path(pre.home@),
                    );
                    s1 == with_units(
                        with_fs(
                            s0,
                            s0.fs.insert(
                                darwin_daemon_source(),
                                FsNodeV::File { content: newc },
                            ).insert(
                                spec_darwin_nix_daemon_dest(pre.home@),
                                FsNodeV::File { content: newc },
                            ),
                        ),
                        enable_unit(s0.units, darwin_daemon_service(), pre.start_daemon),
                    )
                })
            },
        }
    }

    open spec fn execute_err(
        pre: Self,
        s0: SystemView,
        post: Self,
        s1: SystemView,
        e: ActionError,
    ) -> bool {
        &&& post == pre
        &&& e.action_tag@ == "configure_init_service"@
        &&& match pre.init {
            InitSystem::NoInit => false,
            InitSystem::Launchd => {
                &&& s1 == s0
                &&& !(s0.fs.contains_key(darwin_daemon_source()) && s0.fs[darwin_daemon_source()]
                    is File)
                &&& (e.kind matches ActionErrorKind::Open(p) && p@ == darwin_daemon_source())
            },
            InitSystem::Systemd => {
                let mid = with_units(
                    with_fs(s0, tmpfiles_fs(s0.fs)),
                    sd_zeroed_units(s0.units),
                );
                let after_service = with_fs(
                    mid,
                    tmpfiles_fs(s0.fs).insert(
                        service_dest(),
                        FsNodeV::Symlink { target: service_src() },
                    ),
                );
                ||| (!unit_check_ok(tmpfiles_fs(s0.fs), service_src(), service_dest()) && s1
                    == mid && unit_check_err_kind(
                    tmpfiles_fs(s0.fs),
                    service_src(),
                    service_dest(),
                    e.kind,
                ))
                ||| (unit_check_ok(tmpfiles_fs(s0.fs), service_src(), service_dest())
                    && !unit_check_ok(
                    tmpfiles_fs(s0.fs).insert(
                        service_dest(),
                        FsNodeV::Symlink { target: service_src() },
                    ),
                    socket_src(),
                    socket_dest(),
                ) && s1 == after_service && unit_check_err_kind(
                    tmpfiles_fs(s0.fs).insert(
                        service_dest(),
                        FsNodeV::Symlink { target: service_src() },
                    ),
                    socket_src(),
                    socket_dest(),
                    e.kind,
                ))
            },
        }
    }

    open spec fn revert_ok(pre: Self, s0: SystemView, post: Self, s1: SystemView) -> bool {
        &&& post == pre
        &&& match pre.init {
            InitSystem::NoInit => s1 == s0,
            InitSystem::Systemd => {
                &&& s0.fs.contains_key(tmpfiles_dest())
                &&& s1 == with_units(
                    with_fs(s0, s0.fs.remove(tmpfiles_dest())),
                    sd_zeroed_units(s0.units),
                )
            },
            InitSystem::Launchd => {
                &&& s0.fs.contains_key(spec_darwin_nix_daemon_dest(pre.home@))
                &&& s0.fs[spec_darwin_nix_daemon_dest(pre.home@)] is File
                &&& s1 == with_units(
                    with_fs(s0, s0.fs.remove(spec_darwin_nix_daemon_dest(pre.home@))),
                    s0.units.remove(darwin_daemon_service()),
                )
            },
        }
    }

    open spec fn revert_err(
        pre: Self,
        s0: SystemView,
        post: Self,
        s1: SystemView,
        e: ActionError,
    ) -> bool {
        &&& post == pre
        &&& e.action_tag@ == "configure_init_service"@
        &&& match pre.init {
            InitSystem::NoInit => false,
            InitSystem::Systemd => {
                &&& !s0.fs.contains_key(tmpfiles_dest())
                &&& s1 == with_units(s0, sd_zeroed_units(s0.units))
                &&& (e.kind matches ActionErrorKind::Remove(p) && p@ == tmpfiles_dest())
            },
            InitSystem::Launchd => {
                &&& !(s0.fs.contains_key(spec_darwin_nix_daemon_dest(pre.home@)) && s0.fs[
                    spec_darwin_nix_daemon_dest(pre.home@)] is File)
                &&& s1 == with_units(s0, s0.units.remove(darwin_daemon_service()))
                &&& (e.kind matches ActionErrorKind::Remove(p) && p@
                    == spec_darwin_nix_daemon_dest(pre.home@))
            },
        }
    }

    fn action_tag(&self) -> (t: ActionTag)
        ensures
            t@ == "configure_init_service"@,
    {
        ActionTag("configure_init_service")
    }

    fn tracing_synopsis(&self) -> String {
        match self.init {
            InitSystem::Systemd => String::from_str(
                "Configure Nix daemon related settings with systemd",
            ),
            InitSystem::Launchd => String::from_str(
                "Configure Nix daemon related settings with launchctl",
            ),
            InitSystem::NoInit => String::from_str("Leave the Nix daemon unconfigured"),
        }
    }

    fn execute_description(&self) -> (r: Vec<ActionDescription>)
        ensures
            r@.len() == (if self.init == InitSystem::NoInit {
                0int
            } else {
                1int
            }),
            self.init == InitSystem::Systemd ==> r@[0].explanation@.len() == (
            if self.start_daemon {
                4int
            } else {
                3int
            }),
            self.init == InitSystem::Launchd ==> r@[0].explanation@.len() == (
            if self.start_daemon {
                2int
            } else {
                1int
            }),
    {
        let mut out: Vec<ActionDescription> = Vec::new();
        match self.init {
            InitSystem::Systemd => {
                let mut explanation: Vec<String> = Vec::new();
                explanation.push(
                    String::from_str("Run `systemd-tempfiles --create --prefix=/nix/var/nix`"),
                );
                explanation.push(
                    String::from_str(
                        "Symlink the nix-daemon service and socket units into /etc/systemd/system",
                    ),
                );
                explanation.push(String::from_str("Run `systemctl daemon-reload`"));
                if self.start_daemon {
                    explanation.push(
                        String::from_str("Run `systemctl enable --now nix-daemon.socket`"),
                    );
                }
                out.push(ActionDescription::new(self.tracing_synopsis(), explanation));
            },
            InitSystem::Launchd => {
                let mut explanation: Vec<String> = Vec::new();
                explanation.push(
                    String::from_str(
                        "Copy the nix-daemon plist into the user's LaunchAgents directory",
                    ),
                );
                if self.start_daemon {
                    explanation.push(String::from_str("Run `launchctl bootstrap`"));
                }
                out.push(ActionDescription::new(self.tracing_synopsis(), explanation));
            },
            InitSystem::NoInit => {},
        }
        out
    }

    fn revert_description(&self) -> (r: Vec<ActionDescription>)
        ensures
            r@.len() == (if self.init == InitSystem::NoInit {
                0int
            } else {
                1int
            }),
    {
        let mut out: Vec<ActionDescription> = Vec::new();
        match self.init {
            InitSystem::Systemd => {
                out.push(
                    ActionDescription::new(
                        String::from_str(
                            "Unconfigure Nix daemon related settings with systemd",
                        ),
                        vec![
                            String::from_str("Run `systemctl disable nix-daemon.socket`"),
                            String::from_str("Run `systemctl disable nix-daemon.service`"),
                            String::from_str(
                                "Run `systemd-tempfiles --remove --prefix=/nix/var/nix`",
                            ),
                            String::from_str("Run `systemctl daemon-reload`"),
                        ],
                    ),
                );
            },
            InitSystem::Launchd => {
                out.push(
                    ActionDescription::new(
                        String::from_str(
                            "Remove Nix daemon related settings with launchctl",
                        ),
                        vec![String::from_str("Run `launchctl remove org.nixos.nix-daemon`")],
                    ),
                );
            },
            InitSystem::NoInit => {},
        }
        out
    }

    fn execute(&mut self, sys: &mut System) -> (r: Result<(), ActionError>) {
        let ghost this0 = *self;
        let ghost s0 = sys@;
        proof {
            reveal_strlit("nix-daemon.socket");
            reveal_strlit("nix-daemon.service");
        }
        match self.init {
            InitSystem::NoInit => Ok(()),
            InitSystem::Launchd => {
                let src_path = String::from_str(
                    "/nix/var/nix/profiles/default/Library/LaunchDaemons/org.nixos.nix-daemon.plist",
                );
                match sys.fs_file_content(&src_path) {
                    None => Err(ActionError::new(
                        ActionTag("configure_init_service"),
                        ActionErrorKind::Open(src_path),
                    )),
                    Some(content) => {
                        let log_path = concat_str(
                            self.home.as_str(),
                            "/Library/Logs/nix-daemon.log",
                        );
                        let newc = replace_first(
                            content.as_str(),
                            "/var/log/nix-daemon.log",
                            log_path.as_str(),
                        );
                        let dest = darwin_nix_daemon_dest_of(&self.home);
                        sys.fs_set(
                            copy_string(&src_path),
                            FsNode::File { content: copy_string(&newc) },
                        );
                        sys.fs_set(dest, FsNode::File { content: newc });
                        let svc = String::from_str("org.nixos.nix-daemon");
                        let prior = match sys.unit_get(&svc) {
                            Some(u) => u.active,
                            None => false,
                        };
                        sys.unit_set(
                            svc,
                            UnitRecord { active: prior || self.start_daemon, enabled: true },
                        );
                        proof {
                            assert(sys@ =~= with_units(
                                with_fs(
                                    s0,
                                    s0.fs.insert(
                                        darwin_daemon_source(),
                                        FsNodeV::File {
                                            content: replaced_first(
                                                content@,
                                                old_daemon_log(),
                                                spec_darwin_log_path(this0.home@),
                                            ),
                                        },
                                    ).insert(
                                        spec_darwin_nix_daemon_dest(this0.home@),
                                        FsNodeV::File {
                                            content: replaced_first(
                                                content@,
                                                old_daemon_log(),
                                                spec_darwin_log_path(this0.home@),
                                            ),
                                        },
                                    ),
                                ),
                                enable_unit(
                                    s0.units,
                                    darwin_daemon_service(),
                                    this0.start_daemon,
                                ),
                            ));
                        }
                        Ok(())
                    },
                }
            },
            InitSystem::Systemd => {
                let sock = String::from_str("nix-daemon.socket");
                let svc = String::from_str("nix-daemon.service");

                let sock_enabled = match systemctl_is_enabled(&sock, sys) {
                    Ok(b) => b,
                    Err(_) => {
                        proof {
                            assert(false);
                        }
                        false
                    },
                };
                if sock_enabled {
                    match systemctl_disable(&sock, false, sys) {
                        Ok(()) => {},
                        Err(_) => {
                            proof {
                                assert(false);
                            }
                        },
                    }
                }
                let sock_active = match systemctl_is_active(&sock, sys) {
                    Ok(b) => b,
                    Err(_) => {
                        proof {
                            assert(false);
                        }
                        false
                    },
                };
                let socket_was_active: bool = if sock_active {
                    match systemctl_stop(&sock, sys) {
                        Ok(()) => {},
                        Err(_) => {
                            proof {
                                assert(false);
                            }
                        },
                    }
                    true
                } else {
                    false
                };
                let svc_enabled = match systemctl_is_enabled(&svc, sys) {
                    Ok(b) => b,
                    Err(_) => {
                        proof {
                            assert(false);
                        }
                        false
                    },
                };
                if svc_enabled {
                    let now = match systemctl_is_active(&svc, sys) {
                        Ok(b) => b,
                        Err(_) => {
                            proof {
                                assert(false);
                            }
                            false
                        },
                    };
                    match systemctl_disable(&svc, now, sys) {
                        Ok(()) => {},
                        Err(_) => {
                            proof {
                                assert(false);
                            }
                        },
                    }
                } else {
                    let svc_active = match systemctl_is_active(&svc, sys) {
                        Ok(b) => b,
                        Err(_) => {
                            proof {
                                assert(false);
                            }
                            false
                        },
                    };
                    if svc_active {
                        match systemctl_stop(&svc, sys) {
                            Ok(()) => {},
                            Err(_) => {
                                proof {
                                    assert(false);
                                }
                            },
                        }
                    }
                }
                proof {
                    assert(sys@.units =~= sd_zeroed_units(s0.units));
                    assert(sys@.fs == s0.fs);
                    assert(socket_was_active == sock_was_active(s0.units));
                }

                let tmp_dest = String::from_str("/etc/tmpfiles.d/nix-daemon.conf");
                if !sys.fs_contains(&tmp_dest) {
                    sys.fs_set(
                        copy_string(&tmp_dest),
                        FsNode::Symlink {
                            target: String::from_str(
                                "/nix/var/nix/profiles/default/lib/tmpfiles.d/nix-daemon.conf",
                            ),
                        },
                    );
                }
                proof {
                    assert(sys@.fs =~= tmpfiles_fs(s0.fs));
                }

                let service_src_s = String::from_str(
                    "/nix/var/nix/profiles/default/lib/systemd/system/nix-daemon.service",
                );
                let service_dest_s = String::from_str("/etc/systemd/system/nix-daemon.service");
                match check_if_systemd_unit_exists(&service_src_s, &service_dest_s, sys) {
                    Ok(()) => {},
                    Err(k) => {
                        let e = ActionError::new(ActionTag("configure_init_service"), k);
                        proof {
                            assert(sys@ =~= with_units(
                                with_fs(s0, tmpfiles_fs(s0.fs)),
                                sd_zeroed_units(s0.units),
                            ));
                        }
                        return Err(e);
                    },
                }
                if sys.fs_contains(&service_dest_s) {
                    sys.fs_remove(&service_dest_s);
                }
                sys.fs_set(
                    copy_string(&service_dest_s),
                    FsNode::Symlink { target: copy_string(&service_src_s) },
                );
                proof {
                    assert(sys@.fs =~= tmpfiles_fs(s0.fs).insert(
                        service_dest(),
                        FsNodeV::Symlink { target: service_src() },
                    ));
                }

                let socket_src_s = String::from_str(
                    "/nix/var/nix/profiles/default/lib/systemd/system/nix-daemon.socket",
                );
                let socket_dest_s = String::from_str("/etc/systemd/system/nix-daemon.socket");
                match check_if_systemd_unit_exists(&socket_src_s, &socket_dest_s, sys) {
                    Ok(()) => {},
                    Err(k) => {
                        let e = ActionError::new(ActionTag("configure_init_service"), k);
                        proof {
                            assert(sys@ =~= with_fs(
                                with_units(
                                    with_fs(s0, tmpfiles_fs(s0.fs)),
                                    sd_zeroed_units(s0.units),
                                ),
                                tmpfiles_fs(s0.fs).insert(
                                    service_dest(),
                                    FsNodeV::Symlink { target: service_src() },
                                ),
                            ));
                        }
                        return Err(e);
                    },
                }
                if sys.fs_contains(&socket_dest_s) {
                    sys.fs_remove(&socket_dest_s);
                }
                sys.fs_set(
                    copy_string(&socket_dest_s),
                    FsNode::Symlink { target: copy_string(&socket_src_s) },
                );

                let now = self.start_daemon || socket_was_active;
                match systemctl_enable(&sock, now, sys) {
                    Ok(()) => {},
                    Err(_) => {
                        proof {
                            assert(false);
                        }
                    },
                }
                proof {
                    assert(sys@ =~= with_units(
                        with_fs(s0, sd_final_fs(s0.fs)),
                        enable_unit(
                            sd_zeroed_units(s0.units),
                            socket_unit(),
                            this0.start_daemon || sock_was_active(s0.units),
                        ),
                    ));
                }
                Ok(())
            },
        }
    }

    fn revert(&mut self, sys: &mut System) -> (r: Result<(), ActionError>) {
        let ghost this0 = *self;
        let ghost s0 = sys@;
        proof {
            reveal_strlit("nix-daemon.socket");
            reveal_strlit("nix-daemon.service");
        }
        match self.init {
            InitSystem::NoInit => Ok(()),
            InitSystem::Launchd => {
                let svc = String::from_str("org.nixos.nix-daemon");
                let loaded = match sys.unit_get(&svc) {
                    Some(_) => true,
                    None => false,
                };
                if loaded {
                    sys.unit_remove(&svc);
                }
                proof {
                    assert(sys@.units =~= s0.units.remove(darwin_daemon_service()));
                }
                let dest = darwin_nix_daemon_dest_of(&self.home);
                match sys.fs_node_kind(&dest) {
                    NodeKind::IsFile => {
                        sys.fs_remove(&dest);
                        proof {
                            assert(sys@ =~= with_units(
                                with_fs(
                                    s0,
                                    s0.fs.remove(spec_darwin_nix_daemon_dest(this0.home@)),
                                ),
                                s0.units.remove(darwin_daemon_service()),
                            ));
                        }
                        Ok(())
                    },
                    _ => {
                        proof {
                            assert(sys@ =~= with_units(
                                s0,
                                s0.units.remove(darwin_daemon_service()),
                            ));
                        }
                        Err(ActionError::new(
                            ActionTag("configure_init_service"),
                            ActionErrorKind::Remove(dest),
                        ))
                    },
                }
            },
            InitSystem::Systemd => {
                let sock = String::from_str("nix-daemon.socket");
                let svc = String::from_str("nix-daemon.service");
                let mut kinds: Vec<ActionErrorKind> = Vec::new();

                let sock_active = match systemctl_is_active(&sock, sys) {
                    Ok(b) => b,
                    Err(_) => {
                        proof {
                            assert(false);
                        }
                        false
                    },
                };
                if sock_active {
                    match systemctl_stop(&sock, sys) {
                        Ok(()) => {},
                        Err(_) => {
                            proof {
                                assert(false);
                            }
                        },
                    }
                }
                let sock_enabled = match systemctl_is_enabled(&sock, sys) {
                    Ok(b) => b,
                    Err(_) => {
                        proof {
                            assert(false);
                        }
                        false
                    },
                };
                if sock_enabled {
                    match systemctl_disable(&sock, false, sys) {
                        Ok(()) => {},
                        Err(_) => {
                            proof {
                                assert(false);
                            }
                        },
                    }
                }
                let svc_active = match systemctl_is_active(&svc, sys) {
                    Ok(b) => b,
                    Err(_) => {
                        proof {
                            assert(false);
                        }
                        false
                    },
                };
                if svc_active {
                    match systemctl_stop(&svc, sys) {
                        Ok(()) => {},
                        Err(_) => {
                            proof {
                                assert(false);
                            }
                        },
                    }
                }
                let svc_enabled = match systemctl_is_enabled(&svc, sys) {
                    Ok(b) => b,
                    Err(_) => {
                        proof {
                            assert(false);
                        }
                        false
                    },
                };
                if svc_enabled {
                    match systemctl_disable(&svc, false, sys) {
                        Ok(()) => {},
                        Err(_) => {
                            proof {
                                assert(false);
                            }
                        },
                    }
                }
                proof {
                    assert(sys@.units =~= sd_zeroed_units(s0.units));
                    assert(sys@.fs == s0.fs);
                }

                let tmp_dest = String::from_str("/etc/tmpfiles.d/nix-daemon.conf");
                match sys.fs_node_kind(&tmp_dest) {
                    NodeKind::Missing => {
                        kinds.push(ActionErrorKind::Remove(copy_string(&tmp_dest)));
                    },
                    _ => {
                        sys.fs_remove(&tmp_dest);
                    },
                }

                let errs = wrap_kinds(ActionTag("configure_init_service"), kinds);
                let res = fold_errors(ActionTag("configure_init_service"), errs);
                match res {
                    Ok(()) => {
                        proof {
                            assert(s0.fs.contains_key(tmpfiles_dest()));
                            assert(sys@ =~= with_units(
                                with_fs(s0, s0.fs.remove(tmpfiles_dest())),
                                sd_zeroed_units(s0.units),
                            ));
                            assert(Self::revert_ok(this0, s0, *self, sys@));
                        }
                        Ok(())
                    },
                    Err(e) => {
                        proof {
                            assert(!s0.fs.contains_key(tmpfiles_dest()));
                            assert(sys@ =~= with_units(s0, sd_zeroed_units(s0.units)));
                            assert(*self == this0);
                            assert(e.action_tag@ == "configure_init_service"@);
                            assert(e.kind matches ActionErrorKind::Remove(p) && p@
                                == tmpfiles_dest());
                            assert(sys@ == with_units(s0, sd_zeroed_units(s0.units)));
                            assert(Self::revert_err(this0, s0, *self, sys@, e));
                        }
                        Err(e)
                    },
                }
            },
        }
    }
}

/// Execute/revert inverse for the service registration on launchd: where
/// the daemon service was not yet registered and its plist not yet
/// installed, a successful execute followed by a successful revert
/// returns the host to its pre-execute state, except that the daemon
/// plist source stays rewritten in place to log under the user's home;
/// a source that never named the old log path is left untouched, and the
/// host is then restored exactly.
pub proof fn lemma_init_service_launchd_roundtrip(
    op0: ConfigureInitService,
    s0: SystemView,
    op1: ConfigureInitService,
    s1: SystemView,
    op2: ConfigureInitService,
    s2: SystemView,
)
    requires
        op0.init == InitSystem::Launchd,
        !s0.units.contains_key(darwin_daemon_service()),
        !s0.fs.contains_key(spec_darwin_nix_daemon_dest(op0.home@)),
        spec_darwin_nix_daemon_dest(op0.home@) != darwin_daemon_source(),
        ConfigureInitService::execute_ok(op0, s0, op1, s1),
        ConfigureInitService::revert_ok(op1, s1, op2, s2),
    ensures
        op2 == op0,
        (s0.fs[darwin_daemon_source()] matches FsNodeV::File { content } && s2 == with_fs(
            s0,
            s0.fs.insert(
                darwin_daemon_source(),
                FsNodeV::File {
                    content: replaced_first(
                        content,
                        old_daemon_log(),
                        spec_darwin_log_path(op0.home@),
                    ),
                },
            ),
        )),
        (s0.fs[darwin_daemon_source()] matches FsNodeV::File { content }
            && !crate::strutil::contains_seq(content, old_daemon_log())) ==> s2 == s0,
{
    let src = darwin_daemon_source();
    let dest = spec_darwin_nix_daemon_dest(op0.home@);
    let c = s0.fs[src]->File_content;
    let newc = replaced_first(c, old_daemon_log(), spec_darwin_log_path(op0.home@));
    assert(s1.fs == s0.fs.insert(src, FsNodeV::File { content: newc }).insert(
        dest,
        FsNodeV::File { content: newc },
    ));
    assert(s1.units == enable_unit(s0.units, darwin_daemon_service(), op0.start_daemon));
    assert(s1.fs[dest] is File);
    assert(s2.fs =~= s0.fs.insert(src, FsNodeV::File { content: newc }));
    assert(s2.units =~= s0.units);
    assert(s2 =~= with_fs(s0, s0.fs.insert(src, FsNodeV::File { content: newc })));
    if !crate::strutil::contains_seq(c, old_daemon_log()) {
        assert(newc == c);
        assert(s0.fs.insert(src, FsNodeV::File { content: c }) =~= s0.fs);
        assert(s2 =~= s0);
    }
}

} // verus!


