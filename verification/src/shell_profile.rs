//! Configure detected shell profiles to source the Nix environment: a
//! composite that owns directory children (run in order, as the profile
//! files depend on them) and independent file-edit children (attempted as
//! a group, failures aggregated).

use vstd::prelude::*;
use crate::action::{
    Action, ActionDescription, ActionState, StatefulAction, count_uncompleted, exec_all_rel,
    exec_sequential_rel, execute_group, execute_sequential, lemma_exec_all_accounting,
    revert_all_rel, revert_group,
};
use crate::base::{CreateDirectory, CreateOrInsertIntoFile, Position};
use crate::errors::{ActionError, ActionErrorKind, ActionTag, fold_errors, folds_to};
use crate::settings::HostContext;
use crate::strutil::{concat_str, contains_seq};
use crate::system::{FsNodeV, System, SystemView};

verus! {

/// The shell profile files a host wants configured.
#[derive(Debug)]
pub struct ShellProfileLocations {
    pub bash: Vec<String>,
    pub zsh: Vec<String>,
}

/// The `.zshrc` line that sources every file under `~/.zshrc.d`.
pub open spec fn spec_zshrc_line() -> Seq<char> {
    "[[ -d \"${HOME}/.zshrc.d\" ]] && for zshrc in \"${HOME}\"/.zshrc.d/.*; source \"$zshrc\""@
}

fn zshrc_line() -> (r: &'static str)
    ensures
        r@ == spec_zshrc_line(),
{
    "[[ -d \"${HOME}/.zshrc.d\" ]] && for zshrc in \"${HOME}\"/.zshrc.d/.*; source \"$zshrc\""
}

/// The block written into `~/.zshrc.d/.nixrc` to source the Nix daemon
/// profile script.
pub open spec fn spec_shell_buf() -> Seq<char> {
    "\n# Nix\nif [ -e '/nix/var/nix/profiles/default/etc/profile.d/nix-daemon.sh' ]; then\n    . '/nix/var/nix/profiles/default/etc/profile.d/nix-daemon.sh'\nfi\n# End Nix\n\n"@
}

fn shell_buf() -> (r: &'static str)
    ensures
        r@ == spec_shell_buf(),
{
    "\n# Nix\nif [ -e '/nix/var/nix/profiles/default/etc/profile.d/nix-daemon.sh' ]; then\n    . '/nix/var/nix/profiles/default/etc/profile.d/nix-daemon.sh'\nfi\n# End Nix\n\n"
}

pub open spec fn zshrc_path(home: Seq<char>) -> Seq<char> {
    home + "/.zshrc"@
}

pub open spec fn zshrc_dir(home: Seq<char>) -> Seq<char> {
    home + "/.zshrc.d"@
}

pub open spec fn nixrc_path(home: Seq<char>) -> Seq<char> {
    home + "/.zshrc.d/.nixrc"@
}

/// The existing `.zshrc` is a file that does not yet source `~/.zshrc.d`.
pub open spec fn zshrc_edit_needed(sv: SystemView, home: Seq<char>) -> bool {
    sv.fs.contains_key(zshrc_path(home)) && (sv.fs[zshrc_path(home)] matches FsNodeV::File {
        content,
    } && !contains_seq(content, spec_zshrc_line()))
}

/// `~/.zshrc.d/.nixrc` may be written: tools like `nix-darwin` symlink it,
/// and a symlink is left alone.
pub open spec fn nixrc_writable(sv: SystemView, home: Seq<char>) -> bool {
    !(sv.fs.contains_key(nixrc_path(home)) && sv.fs[nixrc_path(home)] is Symlink)
}

/// `~/.zshrc.d` still has to be created.
pub open spec fn zshrc_dir_needed(sv: SystemView, home: Seq<char>) -> bool {
    nixrc_writable(sv, home) && !sv.fs.contains_key(zshrc_dir(home))
}

/// Planning fails: `.zshrc` exists but cannot be read as a file, or the
/// profile target is a directory.
pub open spec fn shell_profile_plan_fails(sv: SystemView, home: Seq<char>) -> bool {
    ||| (sv.fs.contains_key(zshrc_path(home)) && !(sv.fs[zshrc_path(home)] is File))
    ||| (nixrc_writable(sv, home) && sv.fs.contains_key(nixrc_path(home)) && sv.fs[nixrc_path(
        home,
    )] is Dir)
}

/// Configure any detected shell profiles to include Nix support.
#[derive(Debug)]
pub struct ConfigureShellProfile {
    pub locations: ShellProfileLocations,
    pub create_directories: Vec<StatefulAction<CreateDirectory>>,
    pub create_or_insert_into_files: Vec<StatefulAction<CreateOrInsertIntoFile>>,
}

/// What a successful plan put into the composite, given the host state it
/// inspected.
pub open spec fn shell_children_ok(a: ConfigureShellProfile, home: Seq<char>, sv: SystemView) -> bool {
    let ne = zshrc_edit_needed(sv, home);
    let nw = nixrc_writable(sv, home);
    let dn = zshrc_dir_needed(sv, home);
    &&& a.create_directories@.len() == if dn {
        1int
    } else {
        0int
    }
    &&& (dn ==> a.create_directories@[0].action.path@ == zshrc_dir(home)
        && a.create_directories@[0].state == ActionState::Uncompleted)
    &&& a.create_or_insert_into_files@.len() == (if ne {
        1int
    } else {
        0int
    }) + (if nw {
        1int
    } else {
        0int
    })
    &&& (ne ==> {
        let f = a.create_or_insert_into_files@[0];
        &&& f.action.path@ == zshrc_path(home)
        &&& f.action.buf@ == spec_zshrc_line()
        &&& f.action.position == Position::End
        &&& f.state == ActionState::Uncompleted
    })
    &&& (nw ==> {
        let f = a.create_or_insert_into_files@[if ne {
            1int
        } else {
            0int
        }];
        &&& f.action.path@ == nixrc_path(home)
        &&& f.action.buf@ == spec_shell_buf()
        &&& f.action.position == Position::Beginning
        &&& (f.state == ActionState::Completed <==> (sv.fs.contains_key(nixrc_path(home)) && (
        sv.fs[nixrc_path(home)] matches FsNodeV::File { content } && contains_seq(
            content,
            spec_shell_buf(),
        ))))
    })
}

impl ConfigureShellProfile {
    /// Inspect the host and decide which profile edits are still needed;
    /// a composite with nothing left to do is completed at plan time.
    pub fn plan(locations: ShellProfileLocations, ctx: &HostContext, sys: &System) -> (r: Result<
        StatefulAction<ConfigureShellProfile>,
        ActionError,
    >)
        requires
            sys.inv(),
        ensures
            match r {
                Ok(w) => {
                    &&& !shell_profile_plan_fails(sys@, ctx.home@)
                    &&& w.action.locations == locations
                    &&& shell_children_ok(w.action, ctx.home@, sys@)
                    &&& (w.state == ActionState::Completed <==> (
                    w.action.create_directories@.len() == 0
                        && w.action.create_or_insert_into_files@.len() == 0))
                },
                Err(e) => {
                    &&& shell_profile_plan_fails(sys@, ctx.home@)
                    &&& (e.kind matches ActionErrorKind::Read(_))
                    &&& ((sys@.fs.contains_key(zshrc_path(ctx.home@)) && !(sys@.fs[zshrc_path(
                        ctx.home@,
                    )] is File)) ==> e.action_tag@ == "configure_shell_profile"@ && (e.kind
                        matches ActionErrorKind::Read(p) && p@ == zshrc_path(ctx.home@)))
                    &&& (!(sys@.fs.contains_key(zshrc_path(ctx.home@)) && !(sys@.fs[zshrc_path(
                        ctx.home@,
                    )] is File)) ==> e.action_tag@ == "create_or_insert_into_file"@ && (e.kind
                        matches ActionErrorKind::Read(p) && p@ == nixrc_path(ctx.home@)))
                },
            },
    {
        let mut create_or_insert_files: Vec<StatefulAction<CreateOrInsertIntoFile>> = Vec::new();
        let mut create_directories: Vec<StatefulAction<CreateDirectory>> = Vec::new();

        let zshrc_p = concat_str(ctx.home.as_str(), "/.zshrc");
        if sys.fs_contains(&zshrc_p) {
            match sys.fs_file_content(&zshrc_p) {
                Some(content) => {
                    if !crate::strutil::contains_str(content.as_str(), zshrc_line()) {
                        let child = CreateOrInsertIntoFile::plan(
                            zshrc_p,
                            Option::<String>::None,
                            Option::<String>::None,
                            0o644,
                            zshrc_line().to_owned(),
                            Position::End,
                            sys,
                        )?;
                        create_or_insert_files.push(child);
                    }
                },
                None => {
                    // the composite's own probe failed, so the failure
                    // carries the composite's identity
                    return Err(ActionError::new(
                        ActionTag("configure_shell_profile"),
                        ActionErrorKind::Read(zshrc_p),
                    ));
                },
            }
        }

        let nixrc_p = concat_str(ctx.home.as_str(), "/.zshrc.d/.nixrc");
        let dir_p = concat_str(ctx.home.as_str(), "/.zshrc.d");
        let nixrc_is_symlink = match sys.fs_symlink_target(&nixrc_p) {
            Some(_) => true,
            None => false,
        };
        if !nixrc_is_symlink {
            if !sys.fs_contains(&dir_p) {
                let dir_child = CreateDirectory::plan(
                    dir_p,
                    Some(crate::strutil::copy_string(&ctx.username)),
                    Some(String::from_str("staff")),
                    0o755,
                    false,
                    sys,
                )?;
                create_directories.push(dir_child);
            }
            let file_child = CreateOrInsertIntoFile::plan(
                nixrc_p,
                Some(crate::strutil::copy_string(&ctx.username)),
                Some(String::from_str("staff")),
                0o644,
                shell_buf().to_owned(),
                Position::Beginning,
                sys,
            )?;
            create_or_insert_files.push(file_child);
        }

        let no_work = create_directories.len() == 0 && create_or_insert_files.len() == 0;
        let this = ConfigureShellProfile {
            locations,
            create_directories,
            create_or_insert_into_files: create_or_insert_files,
        };
        if no_work {
            Ok(StatefulAction::completed(this))
        } else {
            Ok(StatefulAction::uncompleted(this))
        }
    }

    /// A composite built directly from already planned children.
    pub fn new(
        locations: ShellProfileLocations,
        create_directories: Vec<StatefulAction<CreateDirectory>>,
        create_or_insert_into_files: Vec<StatefulAction<CreateOrInsertIntoFile>>,
    ) -> (r: ConfigureShellProfile)
        ensures
            r.locations == locations,
            r.create_directories == create_directories,
            r.create_or_insert_into_files == create_or_insert_into_files,
    {
        ConfigureShellProfile { locations, create_directories, create_or_insert_into_files }
    }
}

impl Action for ConfigureShellProfile {
    open spec fn inv(&self) -> bool {
        true
    }

    open spec fn execute_ok(pre: Self, s0: SystemView, post: Self, s1: SystemView) -> bool {
        &&& post.locations == pre.locations
        &&& exists|mid: SystemView|
            #[trigger] exec_all_rel(
                pre.create_directories@,
                post.create_directories@,
                s0,
                mid,
                Seq::empty(),
            ) && exec_all_rel(
                pre.create_or_insert_into_files@,
                post.create_or_insert_into_files@,
                mid,
                s1,
                Seq::empty(),
            )
    }

    open spec fn execute_err(
        pre: Self,
        s0: SystemView,
        post: Self,
        s1: SystemView,
        e: ActionError,
    ) -> bool {
        &&& post.locations == pre.locations
        &&& {
            ||| (exec_sequential_rel(
                pre.create_directories@,
                post.create_directories@,
                s0,
                s1,
                Err(e),
            ) && post.create_or_insert_into_files == pre.create_or_insert_into_files)
            ||| (exists|mid: SystemView, errs: Seq<ActionError>|
                exec_all_rel(
                    pre.create_directories@,
                    post.create_directories@,
                    s0,
                    mid,
                    Seq::empty(),
                ) && #[trigger] exec_all_rel(
                    pre.create_or_insert_into_files@,
                    post.create_or_insert_into_files@,
                    mid,
                    s1,
                    errs,
                ) && errs.len() >= 1 && folds_to(errs, ActionTag("configure_shell_profile"), Err(e)))
        }
    }

    open spec fn revert_ok(pre: Self, s0: SystemView, post: Self, s1: SystemView) -> bool {
        &&& post.locations == pre.locations
        &&& exists|mid: SystemView|
            #[trigger] revert_all_rel(
                pre.create_or_insert_into_files@,
                post.create_or_insert_into_files@,
                s0,
                mid,
                Seq::empty(),
            ) && revert_all_rel(
                pre.create_directories@,
                post.create_directories@,
                mid,
                s1,
                Seq::empty(),
            )
    }

    open spec fn revert_err(
        pre: Self,
        s0: SystemView,
        post: Self,
        s1: SystemView,
        e: ActionError,
    ) -> bool {
        &&& post.locations == pre.locations
        &&& exists|mid: SystemView, errs_f: Seq<ActionError>, errs_d: Seq<ActionError>|
            #[trigger] revert_all_rel(
                pre.create_or_insert_into_files@,
                post.create_or_insert_into_files@,
                s0,
                mid,
                errs_f,
            ) && #[trigger] revert_all_rel(
                pre.create_directories@,
                post.create_directories@,
                mid,
                s1,
                errs_d,
            ) && errs_f.len() + errs_d.len() >= 1 && folds_to(
                errs_f + errs_d,
                ActionTag("configure_shell_profile"),
                Err(e),
            )
    }

    fn action_tag(&self) -> (t: ActionTag)
        ensures
            t@ == "configure_shell_profile"@,
    {
        ActionTag("configure_shell_profile")
    }

    fn tracing_synopsis(&self) -> String {
        String::from_str("Configure the shell profiles")
    }

    fn execute_description(&self) -> (r: Vec<ActionDescription>)
        ensures
            r@.len() == 1,
    {
        vec![ActionDescription::new(
            self.tracing_synopsis(),
            vec![String::from_str("Update shell profiles to import Nix")],
        )]
    }

    fn revert_description(&self) -> (r: Vec<ActionDescription>)
        ensures
            r@.len() == 1,
    {
        vec![ActionDescription::new(
            String::from_str("Unconfigure the shell profiles"),
            vec![String::from_str("Update shell profiles to no longer import Nix")],
        )]
    }

    fn execute(&mut self, sys: &mut System) -> (r: Result<(), ActionError>) {
        let ghost this0 = *self;
        let ghost s0 = sys@;
        match execute_sequential(&mut self.create_directories, sys) {
            Ok(()) => {},
            Err(e) => {
                proof {
                    assert(Self::execute_err(this0, s0, *self, sys@, e));
                }
                return Err(e);
            },
        }
        let ghost mid = sys@;
        let errs = execute_group(&mut self.create_or_insert_into_files, sys);
        let ghost errs_g = errs@;
        match fold_errors(ActionTag("configure_shell_profile"), errs) {
            Ok(()) => {
                proof {
                    assert(errs_g =~= Seq::<ActionError>::empty());
                    assert(exec_all_rel(
                        this0.create_directories@,
                        self.create_directories@,
                        s0,
                        mid,
                        Seq::<ActionError>::empty(),
                    ));
                    assert(exec_all_rel(
                        this0.create_or_insert_into_files@,
                        self.create_or_insert_into_files@,
                        mid,
                        sys@,
                        Seq::<ActionError>::empty(),
                    ));
                    assert(Self::execute_ok(this0, s0, *self, sys@));
                }
                Ok(())
            },
            Err(e) => {
                proof {
                    assert(errs_g.len() >= 1);
                    assert(folds_to(errs_g, ActionTag("configure_shell_profile"), Err(e)));
                    execute_err_group_intro(this0, s0, *self, sys@, e, mid, errs_g);
                }
                Err(e)
            },
        }
    }

    fn revert(&mut self, sys: &mut System) -> (r: Result<(), ActionError>) {
        let ghost this0 = *self;
        let ghost s0 = sys@;
        let mut errs = revert_group(&mut self.create_or_insert_into_files, sys);
        let ghost mid = sys@;
        let ghost errs_f = errs@;
        let mut errs_d = revert_group(&mut self.create_directories, sys);
        let ghost errs_dg = errs_d@;
        errs.append(&mut errs_d);
        let ghost joined = errs@;
        match fold_errors(ActionTag("configure_shell_profile"), errs) {
            Ok(()) => {
                proof {
                    assert(errs_f =~= Seq::<ActionError>::empty());
                    assert(errs_dg =~= Seq::<ActionError>::empty());
                    revert_ok_intro(this0, s0, *self, sys@, mid);
                }
                Ok(())
            },
            Err(e) => {
                proof {
                    assert(joined == errs_f + errs_dg);
                    assert(joined.len() >= 1);
                    assert(folds_to(errs_f + errs_dg, ActionTag("configure_shell_profile"), Err(e)));
                    revert_err_intro(this0, s0, *self, sys@, e, mid, errs_f, errs_dg);
                }
                Err(e)
            },
        }
    }
}

proof fn revert_ok_intro(
    pre: ConfigureShellProfile,
    s0: SystemView,
    post: ConfigureShellProfile,
    s1: SystemView,
    mid: SystemView,
)
    requires
        post.locations == pre.locations,
        revert_all_rel(
            pre.create_or_insert_into_files@,
            post.create_or_insert_into_files@,
            s0,
            mid,
            Seq::<ActionError>::empty(),
        ),
        revert_all_rel(
            pre.create_directories@,
            post.create_directories@,
            mid,
            s1,
            Seq::<ActionError>::empty(),
        ),
    ensures
        ConfigureShellProfile::revert_ok(pre, s0, post, s1),
{
}

proof fn execute_err_group_intro(
    pre: ConfigureShellProfile,
    s0: SystemView,
    post: ConfigureShellProfile,
    s1: SystemView,
    e: ActionError,
    mid: SystemView,
    errs: Seq<ActionError>,
)
    requires
        post.locations == pre.locations,
        exec_all_rel(
            pre.create_directories@,
            post.create_directories@,
            s0,
            mid,
            Seq::<ActionError>::empty(),
        ),
        exec_all_rel(
            pre.create_or_insert_into_files@,
            post.create_or_insert_into_files@,
            mid,
            s1,
            errs,
        ),
        errs.len() >= 1,
        folds_to(errs, ActionTag("configure_shell_profile"), Err(e)),
    ensures
        ConfigureShellProfile::execute_err(pre, s0, post, s1, e),
{
}

proof fn revert_err_intro(
    pre: ConfigureShellProfile,
    s0: SystemView,
    post: ConfigureShellProfile,
    s1: SystemView,
    e: ActionError,
    mid: SystemView,
    errs_f: Seq<ActionError>,
    errs_d: Seq<ActionError>,
)
    requires
        post.locations == pre.locations,
        revert_all_rel(
            pre.create_or_insert_into_files@,
            post.create_or_insert_into_files@,
            s0,
            mid,
            errs_f,
        ),
        revert_all_rel(pre.create_directories@, post.create_directories@, mid, s1, errs_d),
        errs_f.len() + errs_d.len() >= 1,
        folds_to(errs_f + errs_d, ActionTag("configure_shell_profile"), Err(e)),
    ensures
        ConfigureShellProfile::revert_err(pre, s0, post, s1, e),
{
}

/// Aggregate error completeness at the composite: when a failed execute
/// reports an aggregate, the aggregate holds exactly one error per file
/// child left uncompleted — none lost, none duplicated, at least two —
/// and every child that began completed is untouched.
pub proof fn lemma_shell_profile_aggregate_accounting(
    pre: ConfigureShellProfile,
    s0: SystemView,
    post: ConfigureShellProfile,
    s1: SystemView,
    e: ActionError,
)
    requires
        ConfigureShellProfile::execute_err(pre, s0, post, s1, e),
        e.kind is Multiple,
    ensures
        (e.kind matches ActionErrorKind::Multiple(es) && es@.len() == count_uncompleted(
            post.create_or_insert_into_files@,
        ) && es@.len() >= 2),
        forall|i: int|
            0 <= i < pre.create_or_insert_into_files@.len() && (
            #[trigger] pre.create_or_insert_into_files@[i]).state == ActionState::Completed
                ==> post.create_or_insert_into_files@[i] == pre.create_or_insert_into_files@[i],
{
    if exec_sequential_rel(
        pre.create_directories@,
        post.create_directories@,
        s0,
        s1,
        Err(e),
    ) && post.create_or_insert_into_files == pre.create_or_insert_into_files {
        // a directory child's failure is never an aggregate
        let (k, mid) = choose|k: int, mid: SystemView|
            0 <= k < pre.create_directories@.len() && #[trigger] exec_all_rel(
                pre.create_directories@.take(k),
                post.create_directories@.take(k),
                s0,
                mid,
                Seq::empty(),
            ) && StatefulAction::try_execute_rel(
                pre.create_directories@[k],
                mid,
                post.create_directories@[k],
                s1,
                Err(e),
            ) && post.create_directories@.skip(k + 1) == pre.create_directories@.skip(k + 1);
        assert(e.kind is CreateDirectory);
        assert(false);
    }
    let (mid, errs) = choose|mid: SystemView, errs: Seq<ActionError>|
        exec_all_rel(
            pre.create_directories@,
            post.create_directories@,
            s0,
            mid,
            Seq::empty(),
        ) && #[trigger] exec_all_rel(
            pre.create_or_insert_into_files@,
            post.create_or_insert_into_files@,
            mid,
            s1,
            errs,
        ) && errs.len() >= 1 && folds_to(errs, ActionTag("configure_shell_profile"), Err(e));
    lemma_exec_all_accounting(
        pre.create_or_insert_into_files@,
        post.create_or_insert_into_files@,
        mid,
        s1,
        errs,
    );
    if errs.len() == 1 {
        // a single failure is propagated unwrapped, and a file child's
        // failure is never an aggregate
        assert(e == errs[0]);
        let (states, outs) = choose|states: Seq<SystemView>, outs: Seq<Option<ActionError>>|
            #[trigger] crate::action::exec_all_steps(
                pre.create_or_insert_into_files@,
                post.create_or_insert_into_files@,
                states,
                outs,
            ) && states[0] == mid && states[pre.create_or_insert_into_files@.len() as int] == s1
                && errs == crate::action::collect_errs(outs);
        crate::action::lemma_collect_errs_membership(outs, 0);
        let t = choose|t: int| 0 <= t < outs.len() && (#[trigger] outs[t]) == Some(errs[0]);
        crate::action::lemma_exec_step_at(
            pre.create_or_insert_into_files@,
            post.create_or_insert_into_files@,
            states,
            outs,
            t,
        );
        assert(errs[0].kind is Open);
        assert(false);
    }
}

} // verus!



