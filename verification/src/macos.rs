//! macOS-specific operations: mounting the APFS store volume, deciding
//! how to encrypt it, and planning the launchd garbage-collection and
//! store-optimisation services.
//!
//! Keychain queries, `diskutil` invocations and plist file parsing are
//! host I/O; their outcomes reach the planning functions as plain values.

use vstd::prelude::*;
use crate::action::{Action, ActionDescription, ActionState, StatefulAction};
use crate::errors::{ActionError, ActionErrorKind, ActionTag};
use crate::settings::HostContext;
use crate::strutil::{concat3, concat_str, copy_string};
use crate::system::{FsNode, FsNodeV, NodeKind, System, SystemView, UnitRecord, VolumeRecord, with_fs, with_units, with_volumes};

verus! {

/// Mount an APFS volume.
#[derive(Debug)]
pub struct MountApfsVolume {
    pub disk: String,
    pub name: String,
}

impl MountApfsVolume {
    /// Record the volume to mount; the disk subsystem is only consulted
    /// at execute time.
    pub fn plan(disk: String, name: String) -> (r: Result<
        StatefulAction<MountApfsVolume>,
        ActionError,
    >)
        ensures
            (r matches Ok(w) && {
                &&& w.state == ActionState::Uncompleted
                &&& w.action.disk == disk
                &&& w.action.name == name
            }),
    {
        Ok(StatefulAction::uncompleted(MountApfsVolume { disk, name }))
    }
}

impl Action for MountApfsVolume {
    open spec fn inv(&self) -> bool {
        true
    }

    open spec fn execute_ok(pre: Self, s0: SystemView, post: Self, s1: SystemView) -> bool {
        &&& post == pre
        &&& s0.volumes.contains_key(pre.name@)
        &&& s1 == with_volumes(
            s0,
            s0.volumes.insert(
                pre.name@,
                VolumeRecord { mounted: true, encrypted: s0.volumes[pre.name@].encrypted },
            ),
        )
    }

    open spec fn execute_err(
        pre: Self,
        s0: SystemView,
        post: Self,
        s1: SystemView,
        e: ActionError,
    ) -> bool {
        &&& post == pre
        &&& s1 == s0
        &&& !s0.volumes.contains_key(pre.name@)
        &&& e.action_tag@ == "mount_apfs_volume"@
        &&& e.kind is CommandFailed
    }

    open spec fn revert_ok(pre: Self, s0: SystemView, post: Self, s1: SystemView) -> bool {
        &&& post == pre
        &&& s0.volumes.contains_key(pre.name@)
        &&& s1 == with_volumes(
            s0,
            s0.volumes.insert(
                pre.name@,
                VolumeRecord { mounted: false, encrypted: s0.volumes[pre.name@].encrypted },
            ),
        )
    }

    open spec fn revert_err(
        pre: Self,
        s0: SystemView,
        post: Self,
        s1: SystemView,
        e: ActionError,
    ) -> bool {
        Self::execute_err(pre, s0, post, s1, e)
    }

    fn action_tag(&self) -> (t: ActionTag)
        ensures
            t@ == "mount_apfs_volume"@,
    {
        ActionTag("mount_apfs_volume")
    }

    fn tracing_synopsis(&self) -> String {
        concat3("Mount the `", self.name.as_str(), "` APFS volume")
    }

    fn execute_description(&self) -> (r: Vec<ActionDescription>)
        ensures
            r@.len() == 1,
    {
        vec![ActionDescription::new(self.tracing_synopsis(), Vec::new())]
    }

    fn revert_description(&self) -> (r: Vec<ActionDescription>)
        ensures
            r@.len() == 1,
    {
        vec![ActionDescription::new(
            concat3("Unmount the `", self.name.as_str(), "` APFS volume"),
            Vec::new(),
        )]
    }

    fn execute(&mut self, sys: &mut System) -> (r: Result<(), ActionError>) {
        let ghost s0 = sys@;
        match sys.volume_get(&self.name) {
            None => Err(ActionError::new(
                ActionTag("mount_apfs_volume"),
                ActionErrorKind::CommandFailed {
                    command: String::from_str("/usr/sbin/diskutil info -plist"),
                    output: String::new(),
                },
            )),
            Some(v) => {
                if !v.mounted {
                    sys.volume_set(
                        copy_string(&self.name),
                        VolumeRecord { mounted: true, encrypted: v.encrypted },
                    );
                } else {
                    proof {
                        assert(sys@ =~= with_volumes(
                            s0,
                            s0.volumes.insert(
                                self.name@,
                                VolumeRecord {
                                    mounted: true,
                                    encrypted: s0.volumes[self.name@].encrypted,
                                },
                            ),
                        ));
                    }
                }
                Ok(())
            },
        }
    }

    /// Compensation unmounts what execute mounted; an already unmounted
    /// volume is left alone.
    fn revert(&mut self, sys: &mut System) -> (r: Result<(), ActionError>) {
        let ghost s0 = sys@;
        match sys.volume_get(&self.name) {
            None => Err(ActionError::new(
                ActionTag("mount_apfs_volume"),
                ActionErrorKind::CommandFailed {
                    command: String::from_str("/usr/sbin/diskutil info -plist"),
                    output: String::new(),
                },
            )),
            Some(v) => {
                if v.mounted {
                    sys.volume_set(
                        copy_string(&self.name),
                        VolumeRecord { mounted: false, encrypted: v.encrypted },
                    );
                } else {
                    proof {
                        assert(sys@ =~= with_volumes(
                            s0,
                            s0.volumes.insert(
                                self.name@,
                                VolumeRecord {
                                    mounted: false,
                                    encrypted: s0.volumes[self.name@].encrypted,
                                },
                            ),
                        ));
                    }
                }
                Ok(())
            },
        }
    }
}

/// Failures of the volume encryption planning.
#[derive(Debug)]
pub enum EncryptApfsVolumeError {
    /// The keychain holds a password for a volume that was never created.
    ExistingPasswordFound(String, String),
    /// The volume exists but the keychain holds no password for it.
    MissingPasswordForExistingVolume(String, String),
    /// The volume exists and is not encrypted.
    ExistingVolumeNotEncrypted(String, String),
}

impl EncryptApfsVolumeError {
    /// Carry this failure through the engine's taxonomy.
    pub fn into_kind(self) -> (r: ActionErrorKind)
        ensures
            r is Custom,
    {
        match self {
            EncryptApfsVolumeError::ExistingPasswordFound(name, _) => ActionErrorKind::Custom(
                concat3(
                    "The keychain has an existing password for a non-existing \"",
                    name.as_str(),
                    "\" volume; consider removing the password",
                ),
            ),
            EncryptApfsVolumeError::MissingPasswordForExistingVolume(name, _) => {
                ActionErrorKind::Custom(
                    concat3(
                        "The keychain lacks a password for the already existing \"",
                        name.as_str(),
                        "\" volume; consider removing the volume",
                    ),
                )
            },
            EncryptApfsVolumeError::ExistingVolumeNotEncrypted(name, _) => {
                ActionErrorKind::Custom(
                    concat3(
                        "The existing APFS volume \"",
                        name.as_str(),
                        "\" is not encrypted but it should be; consider removing the volume",
                    ),
                )
            },
        }
    }
}

/// Encrypt an APFS volume.
#[derive(Debug)]
pub struct EncryptApfsVolume {
    pub disk: String,
    pub name: String,
}

impl EncryptApfsVolume {
    /// Decide whether encryption is still needed, from the keychain
    /// lookup's outcome, the planned volume-creation state, and the disk
    /// subsystem's volume list.  The keychain query is host I/O; its
    /// result arrives as `password_found`.
    pub fn plan(
        disk: String,
        name: String,
        planned_create_volume_state: ActionState,
        password_found: bool,
        sys: &System,
    ) -> (r: Result<StatefulAction<EncryptApfsVolume>, ActionError>)
        requires
            sys.inv(),
        ensures
            match r {
                Ok(w) => {
                    &&& w.action.disk == disk
                    &&& w.action.name == name
                    &&& (password_found ==> planned_create_volume_state == ActionState::Completed
                        && w.state == ActionState::Completed)
                    &&& (!password_found ==> planned_create_volume_state
                        == ActionState::Uncompleted && (if sys@.volumes.contains_key(name@) {
                        sys@.volumes[name@].encrypted && w.state == ActionState::Completed
                    } else {
                        w.state == ActionState::Uncompleted
                    }))
                },
                Err(e) => {
                    &&& e.action_tag@ == "encrypt_apfs_volume"@
                    &&& e.kind is Custom
                    &&& {
                        ||| (password_found && planned_create_volume_state
                            == ActionState::Uncompleted)
                        ||| (!password_found && planned_create_volume_state
                            == ActionState::Completed)
                        ||| (!password_found && planned_create_volume_state
                            == ActionState::Uncompleted && sys@.volumes.contains_key(name@)
                            && !sys@.volumes[name@].encrypted)
                    }
                },
            },
    {
        if password_found {
            match planned_create_volume_state {
                ActionState::Completed => {
                    return Ok(StatefulAction::completed(EncryptApfsVolume { disk, name }));
                },
                ActionState::Uncompleted => {
                    return Err(ActionError::new(
                        ActionTag("encrypt_apfs_volume"),
                        EncryptApfsVolumeError::ExistingPasswordFound(name, disk).into_kind(),
                    ));
                },
            }
        }
        match planned_create_volume_state {
            ActionState::Completed => {
                return Err(ActionError::new(
                    ActionTag("encrypt_apfs_volume"),
                    EncryptApfsVolumeError::MissingPasswordForExistingVolume(name, disk)
                        .into_kind(),
                ));
            },
            ActionState::Uncompleted => {},
        }
        match sys.volume_get(&name) {
            Some(v) => {
                if v.encrypted {
                    Ok(StatefulAction::completed(EncryptApfsVolume { disk, name }))
                } else {
                    Err(ActionError::new(
                        ActionTag("encrypt_apfs_volume"),
                        EncryptApfsVolumeError::ExistingVolumeNotEncrypted(name, disk)
                            .into_kind(),
                    ))
                }
            },
            None => Ok(StatefulAction::uncompleted(EncryptApfsVolume { disk, name })),
        }
    }
}

/// When a scheduled launchd service runs.
#[derive(Clone, Copy, Debug, PartialEq, Eq, Structural)]
pub struct StartCalendarIntervalOpts {
    pub hour: i8,
    pub minute: i8,
    pub weekday: i8,
}

/// A launchd service plist for a scheduled `nix-store` maintenance job.
#[derive(Debug)]
pub struct LaunchctlGcPlist {
    pub label: String,
    pub program_arguments: Vec<String>,
    pub standard_error_path: String,
    pub standard_out_path: String,
    pub start_calendar_interval: StartCalendarIntervalOpts,
}

/// A launchd service plist for the store-optimisation job; the shape is
/// the garbage-collection plist's.
pub type LaunchctlOptimizePlist = LaunchctlGcPlist;

/// The two plists describe the same service.
pub open spec fn plist_eq_spec(a: LaunchctlGcPlist, b: LaunchctlGcPlist) -> bool {
    &&& a.label@ == b.label@
    &&& a.program_arguments@.len() == b.program_arguments@.len()
    &&& (forall|i: int|
        0 <= i < a.program_arguments@.len() ==> (#[trigger] a.program_arguments@[i])@
            == b.program_arguments@[i]@)
    &&& a.standard_error_path@ == b.standard_error_path@
    &&& a.standard_out_path@ == b.standard_out_path@
    &&& a.start_calendar_interval == b.start_calendar_interval
}

/// Whether two plists describe the same service.
pub fn plist_eq(a: &LaunchctlGcPlist, b: &LaunchctlGcPlist) -> (r: bool)
    ensures
        r == plist_eq_spec(*a, *b),
{
    if !(a.label == b.label) {
        return false;
    }
    if a.program_arguments.len() != b.program_arguments.len() {
        return false;
    }
    let n = a.program_arguments.len();
    let mut i: usize = 0;
    while i < n
        invariant
            n == a.program_arguments@.len(),
            n == b.program_arguments@.len(),
            0 <= i <= n,
            forall|j: int|
                0 <= j < i ==> (#[trigger] a.program_arguments@[j])@ == b.program_arguments@[j]@,
        decreases n - i,
    {
        if !(a.program_arguments[i] == b.program_arguments[i]) {
            return false;
        }
        i += 1;
    }
    if !(a.standard_error_path == b.standard_error_path) {
        return false;
    }
    if !(a.standard_out_path == b.standard_out_path) {
        return false;
    }
    let sa = a.start_calendar_interval;
    let sb = b.start_calendar_interval;
    sa.hour == sb.hour && sa.minute == sb.minute && sa.weekday == sb.weekday
}

/// `f` with a directory ensured at `p`.
pub open spec fn with_dir(f: Map<Seq<char>, FsNodeV>, p: Seq<char>) -> Map<Seq<char>, FsNodeV> {
    if f.contains_key(p) {
        f
    } else {
        f.insert(p, FsNodeV::Dir)
    }
}

/// `d` is exactly the garbage-collection service plist expected for this
/// label and home directory.
pub open spec fn is_expected_gc_plist(d: LaunchctlGcPlist, label: Seq<char>, home: Seq<char>) -> bool {
    &&& d.label@ == label
    &&& d.program_arguments@.len() == 3
    &&& d.program_arguments@[0]@ == "/bin/sh"@
    &&& d.program_arguments@[1]@ == "-c"@
    &&& d.program_arguments@[2]@
        == "/bin/wait4path /nix/var/nix/profiles/default/bin/nix-store && /nix/var/nix/profiles/default/bin/nix-store --gc"@
    &&& d.standard_error_path@ == home + "/Library/Logs/nix-gc.err.log"@
    &&& d.standard_out_path@ == home + "/Library/Logs/nix-gc.log"@
    &&& d.start_calendar_interval == (StartCalendarIntervalOpts { hour: 4, minute: 0, weekday: 7 })
}

/// `d` is exactly the store-optimisation service plist expected for this
/// label and home directory.
pub open spec fn is_expected_optimize_plist(
    d: LaunchctlOptimizePlist,
    label: Seq<char>,
    home: Seq<char>,
) -> bool {
    &&& d.label@ == label
    &&& d.program_arguments@.len() == 3
    &&& d.program_arguments@[0]@ == "/bin/sh"@
    &&& d.program_arguments@[1]@ == "-c"@
    &&& d.program_arguments@[2]@
        == "/bin/wait4path /nix/var/nix/profiles/default/bin/nix-store && /nix/var/nix/profiles/default/bin/nix-store --optimise"@
    &&& d.standard_error_path@ == home + "/Library/Logs/nix-optimize.err.log"@
    &&& d.standard_out_path@ == home + "/Library/Logs/nix-optimize.log"@
    &&& d.start_calendar_interval == (StartCalendarIntervalOpts { hour: 3, minute: 0, weekday: 7 })
}

/// Equality with a plist known to be the expected one decides whether a
/// discovered plist is itself the expected one.
proof fn lemma_plist_eq_expected_gc(
    a: LaunchctlGcPlist,
    b: LaunchctlGcPlist,
    label: Seq<char>,
    home: Seq<char>,
)
    requires
        is_expected_gc_plist(b, label, home),
    ensures
        plist_eq_spec(a, b) <==> is_expected_gc_plist(a, label, home),
{
    if plist_eq_spec(a, b) {
        assert(a.program_arguments@[0]@ == b.program_arguments@[0]@);
        assert(a.program_arguments@[1]@ == b.program_arguments@[1]@);
        assert(a.program_arguments@[2]@ == b.program_arguments@[2]@);
    }
    if is_expected_gc_plist(a, label, home) {
        assert forall|i: int|
            0 <= i < a.program_arguments@.len() implies (#[trigger] a.program_arguments@[i])@
            == b.program_arguments@[i]@ by {
            if i == 0 {
            } else if i == 1 {
            } else {
                assert(i == 2);
            }
        }
    }
}

/// Equality with a plist known to be the expected one decides whether a
/// discovered plist is itself the expected one.
proof fn lemma_plist_eq_expected_optimize(
    a: LaunchctlOptimizePlist,
    b: LaunchctlOptimizePlist,
    label: Seq<char>,
    home: Seq<char>,
)
    requires
        is_expected_optimize_plist(b, label, home),
    ensures
        plist_eq_spec(a, b) <==> is_expected_optimize_plist(a, label, home),
{
    if plist_eq_spec(a, b) {
        assert(a.program_arguments@[0]@ == b.program_arguments@[0]@);
        assert(a.program_arguments@[1]@ == b.program_arguments@[1]@);
        assert(a.program_arguments@[2]@ == b.program_arguments@[2]@);
    }
    if is_expected_optimize_plist(a, label, home) {
        assert forall|i: int|
            0 <= i < a.program_arguments@.len() implies (#[trigger] a.program_arguments@[i])@
            == b.program_arguments@[i]@ by {
            if i == 0 {
            } else if i == 1 {
            } else {
                assert(i == 2);
            }
        }
    }
}

/// The expected garbage-collection service plist for this user.
///
/// This function must be able to operate at both plan and execute time.
pub fn generate_gc_plist(service_label: &String, ctx: &HostContext) -> (r: LaunchctlGcPlist)
    ensures
        is_expected_gc_plist(r, service_label@, ctx.home@),
{
    let mut program_arguments: Vec<String> = Vec::new();
    program_arguments.push(String::from_str("/bin/sh"));
    program_arguments.push(String::from_str("-c"));
    program_arguments.push(
        String::from_str(
            "/bin/wait4path /nix/var/nix/profiles/default/bin/nix-store && /nix/var/nix/profiles/default/bin/nix-store --gc",
        ),
    );
    LaunchctlGcPlist {
        label: copy_string(service_label),
        program_arguments,
        standard_error_path: concat_str(ctx.home.as_str(), "/Library/Logs/nix-gc.err.log"),
        standard_out_path: concat_str(ctx.home.as_str(), "/Library/Logs/nix-gc.log"),
        start_calendar_interval: StartCalendarIntervalOpts { hour: 4, minute: 0, weekday: 7 },
    }
}

/// The expected store-optimisation service plist for this user.
pub fn generate_optimize_plist(service_label: &String, ctx: &HostContext) -> (r:
    LaunchctlOptimizePlist)
    ensures
        is_expected_optimize_plist(r, service_label@, ctx.home@),
{
    let mut program_arguments: Vec<String> = Vec::new();
    program_arguments.push(String::from_str("/bin/sh"));
    program_arguments.push(String::from_str("-c"));
    program_arguments.push(
        String::from_str(
            "/bin/wait4path /nix/var/nix/profiles/default/bin/nix-store && /nix/var/nix/profiles/default/bin/nix-store --optimise",
        ),
    );
    LaunchctlGcPlist {
        label: copy_string(service_label),
        program_arguments,
        standard_error_path: concat_str(ctx.home.as_str(), "/Library/Logs/nix-optimize.err.log"),
        standard_out_path: concat_str(ctx.home.as_str(), "/Library/Logs/nix-optimize.log"),
        start_calendar_interval: StartCalendarIntervalOpts { hour: 3, minute: 0, weekday: 7 },
    }
}

/// Failures of the garbage-collection service planning.
#[derive(Debug)]
pub enum CreateNixGcServiceError {
    /// The plist file exists with content different from the expected
    /// service; operator intervention is needed.
    DifferentPlist { expected: LaunchctlGcPlist, discovered: LaunchctlGcPlist, path: String },
}

/// Failures of the store-optimisation service planning; the shape is the
/// garbage-collection one's.
pub type CreateNixOptimizeServiceError = CreateNixGcServiceError;

/// Create a launchd service that periodically garbage-collects the store.
///
/// The service file's bytes are rendered by the host (serialization of a
/// library type cannot stand in the library) and handed to planning, so
/// that the mutation itself is fully stated over the model.
#[derive(Debug)]
pub struct CreateNixGcService {
    pub root: String,
    pub path: String,
    pub service_label: String,
    pub needs_bootout: bool,
    pub plist_content: String,
}

impl CreateNixGcService {
    /// Decide whether the service file still has to be written: an
    /// existing file parsing to exactly the expected service satisfies
    /// the goal; a divergent one is never silently overwritten.  Whether
    /// the service is currently loaded, the parsed plist of an existing
    /// service file, and the rendered bytes to write are host I/O
    /// outcomes handed in as values.
    pub fn plan(
        ctx: &HostContext,
        loaded: bool,
        existing: Option<LaunchctlGcPlist>,
        plist_content: String,
    ) -> (r: Result<StatefulAction<CreateNixGcService>, ActionError>)
        ensures
            match r {
                Ok(w) => {
                    &&& w.inv()
                    &&& w.action.root@ == ctx.home@ + "/Library/LaunchAgents"@
                    &&& w.action.path@ == ctx.home@
                        + "/Library/LaunchAgents/org.nixos.nix-gc.plist"@
                    &&& w.action.service_label@ == "org.nixos.nix-gc"@
                    &&& w.action.needs_bootout == loaded
                    &&& w.action.plist_content@ == plist_content@
                    &&& (w.state == ActionState::Completed <==> (existing matches Some(d)
                        && is_expected_gc_plist(d, "org.nixos.nix-gc"@, ctx.home@)))
                },
                Err(e) => {
                    &&& (existing matches Some(d) && !is_expected_gc_plist(
                        d,
                        "org.nixos.nix-gc"@,
                        ctx.home@,
                    ))
                    &&& e.action_tag@ == "create_nix_gc_service"@
                    &&& e.kind is Custom
                },
            },
    {
        let service_label = String::from_str("org.nixos.nix-gc");
        let root = concat_str(ctx.home.as_str(), "/Library/LaunchAgents");
        let path = concat_str(ctx.home.as_str(), "/Library/LaunchAgents/org.nixos.nix-gc.plist");
        proof {
            reveal_strlit("/Library/LaunchAgents");
            reveal_strlit("/Library/LaunchAgents/org.nixos.nix-gc.plist");
            assert(path@ =~= root@ + "/org.nixos.nix-gc.plist"@) by {
                reveal_strlit("/org.nixos.nix-gc.plist");
            }
        }
        let this = CreateNixGcService {
            root,
            path,
            service_label,
            needs_bootout: loaded,
            plist_content,
        };
        match existing {
            Some(discovered) => {
                let expected = generate_gc_plist(&this.service_label, ctx);
                proof {
                    lemma_plist_eq_expected_gc(
                        discovered,
                        expected,
                        "org.nixos.nix-gc"@,
                        ctx.home@,
                    );
                }
                if plist_eq(&discovered, &expected) {
                    Ok(StatefulAction::completed(this))
                } else {
                    Err(ActionError::new(
                        ActionTag("create_nix_gc_service"),
                        ActionErrorKind::Custom(
                            concat3(
                                "`",
                                this.path.as_str(),
                                "` exists and contains content different than expected. Consider removing the file.",
                            ),
                        ),
                    ))
                }
            },
            None => Ok(StatefulAction::uncompleted(this)),
        }
    }
}

impl Action for CreateNixGcService {
    open spec fn inv(&self) -> bool {
        self.path@ == self.root@ + "/org.nixos.nix-gc.plist"@
    }

    open spec fn execute_ok(pre: Self, s0: SystemView, post: Self, s1: SystemView) -> bool {
        &&& post == pre
        &&& (s0.fs.contains_key(pre.root@) ==> s0.fs[pre.root@] is Dir)
        &&& (s0.fs.contains_key(pre.path@) ==> s0.fs[pre.path@] is File)
        &&& s1 == with_units(
            with_fs(
                s0,
                with_dir(s0.fs, pre.root@).insert(
                    pre.path@,
                    FsNodeV::File { content: pre.plist_content@ },
                ),
            ),
            s0.units.insert(pre.service_label@, UnitRecord { active: true, enabled: true }),
        )
    }

    open spec fn execute_err(
        pre: Self,
        s0: SystemView,
        post: Self,
        s1: SystemView,
        e: ActionError,
    ) -> bool {
        &&& post == pre
        &&& e.action_tag@ == "create_nix_gc_service"@
        &&& {
            ||| (s0.fs.contains_key(pre.root@) && !(s0.fs[pre.root@] is Dir) && s1 == s0 && (
            e.kind matches ActionErrorKind::CreateDirectory(p) && p@ == pre.root@))
            ||| ((s0.fs.contains_key(pre.root@) ==> s0.fs[pre.root@] is Dir)
                && s0.fs.contains_key(pre.path@) && !(s0.fs[pre.path@] is File) && s1 == with_fs(
                s0,
                with_dir(s0.fs, pre.root@),
            ) && (e.kind matches ActionErrorKind::Open(p) && p@ == pre.path@))
        }
    }

    open spec fn revert_ok(pre: Self, s0: SystemView, post: Self, s1: SystemView) -> bool {
        &&& post == pre
        &&& s0.fs.contains_key(pre.path@)
        &&& s0.fs[pre.path@] is File
        &&& s1 == with_fs(s0, s0.fs.remove(pre.path@))
    }

    open spec fn revert_err(
        pre: Self,
        s0: SystemView,
        post: Self,
        s1: SystemView,
        e: ActionError,
    ) -> bool {
        &&& post == pre
        &&& s1 == s0
        &&& !(s0.fs.contains_key(pre.path@) && s0.fs[pre.path@] is File)
        &&& e.action_tag@ == "create_nix_gc_service"@
        &&& (e.kind matches ActionErrorKind::Remove(p) && p@ == pre.path@)
    }

    fn action_tag(&self) -> (t: ActionTag)
        ensures
            t@ == "create_nix_gc_service"@,
    {
        ActionTag("create_nix_gc_service")
    }

    fn tracing_synopsis(&self) -> String {
        if self.needs_bootout {
            String::from_str("Unload, then recreate a `launchctl` plist to garbage collect nix store")
        } else {
            String::from_str("Create a `launchctl` plist to garbage collect nix store")
        }
    }

    fn execute_description(&self) -> (r: Vec<ActionDescription>)
        ensures
            r@.len() == 1,
    {
        vec![ActionDescription::new(self.tracing_synopsis(), Vec::new())]
    }

    fn revert_description(&self) -> (r: Vec<ActionDescription>)
        ensures
            r@.len() == 1,
    {
        vec![ActionDescription::new(
            concat3("Delete file `", self.path.as_str(), "`"),
            vec![concat3("Delete file `", self.path.as_str(), "`")],
        )]
    }

    fn execute(&mut self, sys: &mut System) -> (r: Result<(), ActionError>) {
        let ghost s0 = sys@;
        match sys.fs_node_kind(&self.root) {
            NodeKind::IsFile | NodeKind::IsSymlink => {
                return Err(ActionError::new(
                    ActionTag("create_nix_gc_service"),
                    ActionErrorKind::CreateDirectory(copy_string(&self.root)),
                ));
            },
            NodeKind::Missing => {
                sys.fs_set(copy_string(&self.root), FsNode::Dir);
            },
            NodeKind::IsDir => {},
        }
        proof {
            assert(sys@.fs =~= with_dir(s0.fs, self.root@));
            reveal_strlit("/org.nixos.nix-gc.plist");
            assert(self.path@.len() > self.root@.len());
        }
        match sys.fs_node_kind(&self.path) {
            NodeKind::IsDir | NodeKind::IsSymlink => {
                return Err(ActionError::new(
                    ActionTag("create_nix_gc_service"),
                    ActionErrorKind::Open(copy_string(&self.path)),
                ));
            },
            _ => {},
        }
        sys.fs_set(
            copy_string(&self.path),
            FsNode::File { content: copy_string(&self.plist_content) },
        );
        sys.unit_set(
            copy_string(&self.service_label),
            UnitRecord { active: true, enabled: true },
        );
        Ok(())
    }

    fn revert(&mut self, sys: &mut System) -> (r: Result<(), ActionError>) {
        match sys.fs_node_kind(&self.path) {
            NodeKind::IsFile => {
                sys.fs_remove(&self.path);
                Ok(())
            },
            _ => Err(ActionError::new(
                ActionTag("create_nix_gc_service"),
                ActionErrorKind::Remove(copy_string(&self.path)),
            )),
        }
    }
}

/// Create a launchd service that periodically optimises the store.
///
/// As for the collector, the service file's bytes are rendered by the
/// host and handed to planning.
#[derive(Debug)]
pub struct CreateNixOptimizeService {
    pub path: String,
    pub service_label: String,
    pub needs_bootout: bool,
    pub plist_content: String,
}

impl CreateNixOptimizeService {
    /// Decide whether the service file still has to be written; the
    /// host's I/O outcomes arrive as values, as for the collector.
    pub fn plan(
        ctx: &HostContext,
        loaded: bool,
        existing: Option<LaunchctlOptimizePlist>,
        plist_content: String,
    ) -> (r: Result<StatefulAction<CreateNixOptimizeService>, ActionError>)
        ensures
            match r {
                Ok(w) => {
                    &&& w.action.path@ == ctx.home@
                        + "/Library/LaunchAgents/org.nixos.nix-optimize.plist"@
                    &&& w.action.service_label@ == "org.nixos.nix-optimize"@
                    &&& w.action.needs_bootout == loaded
                    &&& w.action.plist_content@ == plist_content@
                    &&& (w.state == ActionState::Completed <==> (existing matches Some(d)
                        && is_expected_optimize_plist(d, "org.nixos.nix-optimize"@, ctx.home@)))
                },
                Err(e) => {
                    &&& (existing matches Some(d) && !is_expected_optimize_plist(
                        d,
                        "org.nixos.nix-optimize"@,
                        ctx.home@,
                    ))
                    &&& e.action_tag@ == "create_nix_optimize_service"@
                    &&& e.kind is Custom
                },
            },
    {
        let service_label = String::from_str("org.nixos.nix-optimize");
        let path = concat_str(
            ctx.home.as_str(),
            "/Library/LaunchAgents/org.nixos.nix-optimize.plist",
        );
        let this = CreateNixOptimizeService {
            path,
            service_label,
            needs_bootout: loaded,
            plist_content,
        };
        match existing {
            Some(discovered) => {
                let expected = generate_optimize_plist(&this.service_label, ctx);
                proof {
                    lemma_plist_eq_expected_optimize(
                        discovered,
                        expected,
                        "org.nixos.nix-optimize"@,
                        ctx.home@,
                    );
                }
                if plist_eq(&discovered, &expected) {
                    Ok(StatefulAction::completed(this))
                } else {
                    Err(ActionError::new(
                        ActionTag("create_nix_optimize_service"),
                        ActionErrorKind::Custom(
                            concat3(
                                "`",
                                this.path.as_str(),
                                "` exists and contains content different than expected. Consider removing the file.",
                            ),
                        ),
                    ))
                }
            },
            None => Ok(StatefulAction::uncompleted(this)),
        }
    }
}

impl Action for CreateNixOptimizeService {
    open spec fn inv(&self) -> bool {
        true
    }

    open spec fn execute_ok(pre: Self, s0: SystemView, post: Self, s1: SystemView) -> bool {
        &&& post == pre
        &&& (s0.fs.contains_key(pre.path@) ==> s0.fs[pre.path@] is File)
        &&& s1 == with_units(
            with_fs(s0, s0.fs.insert(pre.path@, FsNodeV::File { content: pre.plist_content@ })),
            s0.units.insert(pre.service_label@, UnitRecord { active: true, enabled: true }),
        )
    }

    open spec fn execute_err(
        pre: Self,
        s0: SystemView,
        post: Self,
        s1: SystemView,
        e: ActionError,
    ) -> bool {
        &&& post == pre
        &&& s1 == s0
        &&& s0.fs.contains_key(pre.path@)
        &&& !(s0.fs[pre.path@] is File)
        &&& e.action_tag@ == "create_nix_optimize_service"@
        &&& (e.kind matches ActionErrorKind::Open(p) && p@ == pre.path@)
    }

    open spec fn revert_ok(pre: Self, s0: SystemView, post: Self, s1: SystemView) -> bool {
        &&& post == pre
        &&& s0.fs.contains_key(pre.path@)
        &&& s0.fs[pre.path@] is File
        &&& s1 == with_fs(s0, s0.fs.remove(pre.path@))
    }

    open spec fn revert_err(
        pre: Self,
        s0: SystemView,
        post: Self,
        s1: SystemView,
        e: ActionError,
    ) -> bool {
        &&& post == pre
        &&& s1 == s0
        &&& !(s0.fs.contains_key(pre.path@) && s0.fs[pre.path@] is File)
        &&& e.action_tag@ == "create_nix_optimize_service"@
        &&& (e.kind matches ActionErrorKind::Remove(p) && p@ == pre.path@)
    }

    fn action_tag(&self) -> (t: ActionTag)
        ensures
            t@ == "create_nix_optimize_service"@,
    {
        ActionTag("create_nix_optimize_service")
    }

    fn tracing_synopsis(&self) -> String {
        if self.needs_bootout {
            String::from_str("Unload, then recreate a `launchctl` plist to optimize nix store")
        } else {
            String::from_str("Create a `launchctl` plist to optimize nix store")
        }
    }

    fn execute_description(&self) -> (r: Vec<ActionDescription>)
        ensures
            r@.len() == 1,
    {
        vec![ActionDescription::new(self.tracing_synopsis(), Vec::new())]
    }

    fn revert_description(&self) -> (r: Vec<ActionDescription>)
        ensures
            r@.len() == 1,
    {
        vec![ActionDescription::new(
            concat3("Delete file `", self.path.as_str(), "`"),
            vec![concat3("Delete file `", self.path.as_str(), "`")],
        )]
    }

    fn execute(&mut self, sys: &mut System) -> (r: Result<(), ActionError>) {
        match sys.fs_node_kind(&self.path) {
            NodeKind::IsDir | NodeKind::IsSymlink => {
                return Err(ActionError::new(
                    ActionTag("create_nix_optimize_service"),
                    ActionErrorKind::Open(copy_string(&self.path)),
                ));
            },
            _ => {},
        }
        sys.fs_set(
            copy_string(&self.path),
            FsNode::File { content: copy_string(&self.plist_content) },
        );
        sys.unit_set(
            copy_string(&self.service_label),
            UnitRecord { active: true, enabled: true },
        );
        Ok(())
    }

    fn revert(&mut self, sys: &mut System) -> (r: Result<(), ActionError>) {
        match sys.fs_node_kind(&self.path) {
            NodeKind::IsFile => {
                sys.fs_remove(&self.path);
                Ok(())
            },
            _ => Err(ActionError::new(
                ActionTag("create_nix_optimize_service"),
                ActionErrorKind::Remove(copy_string(&self.path)),
            )),
        }
    }
}

} // verus!
