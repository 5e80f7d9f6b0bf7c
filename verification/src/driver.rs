//! The host-facing execution driver: the top-level operations as one
//! closed sum type, run in declared order, stopped at the first hard
//! failure, and rolled back in strict reverse order, best-effort, with
//! the revert failures collected separately from the original failure.

use vstd::prelude::*;
use crate::action::{
    Action, ActionDescription, StatefulAction, all_inv, exec_all_rel, revert_all_rel,
    revert_group,
};
use crate::errors::{ActionError, ActionTag};
use crate::init_service::ConfigureInitService;
use crate::macos::{CreateNixGcService, CreateNixOptimizeService, MountApfsVolume};
use crate::move_store::MoveUnpackedNix;
use crate::nix_configuration::PlaceNixConfiguration;
use crate::shell_profile::ConfigureShellProfile;
use crate::system::{System, SystemView};

verus! {

/// A top-level operation: the closed set of variants the driver runs,
/// each dispatching to its concrete operation.  The tag is the
/// discriminator any serialized form of a plan uses.
#[derive(Debug)]
pub enum Operation {
    MoveUnpackedNix(MoveUnpackedNix),
    ConfigureInitService(ConfigureInitService),
    ConfigureShellProfile(ConfigureShellProfile),
    PlaceNixConfiguration(PlaceNixConfiguration),
    MountApfsVolume(MountApfsVolume),
    CreateNixGcService(CreateNixGcService),
    CreateNixOptimizeService(CreateNixOptimizeService),
}

impl Action for Operation {
    open spec fn inv(&self) -> bool {
        match self {
            Operation::MoveUnpackedNix(a) => a.inv(),
            Operation::ConfigureInitService(a) => a.inv(),
            Operation::ConfigureShellProfile(a) => a.inv(),
            Operation::PlaceNixConfiguration(a) => a.inv(),
            Operation::MountApfsVolume(a) => a.inv(),
            Operation::CreateNixGcService(a) => a.inv(),
            Operation::CreateNixOptimizeService(a) => a.inv(),
        }
    }

    open spec fn execute_ok(pre: Self, s0: SystemView, post: Self, s1: SystemView) -> bool {
        match pre {
            Operation::MoveUnpackedNix(a) => (post matches Operation::MoveUnpackedNix(b)
                && MoveUnpackedNix::execute_ok(a, s0, b, s1)),
            Operation::ConfigureInitService(a) => (post matches Operation::ConfigureInitService(b)
                && ConfigureInitService::execute_ok(a, s0, b, s1)),
            Operation::ConfigureShellProfile(a) => (post
                matches Operation::ConfigureShellProfile(b) && ConfigureShellProfile::execute_ok(
                a,
                s0,
                b,
                s1,
            )),
            Operation::PlaceNixConfiguration(a) => (post
                matches Operation::PlaceNixConfiguration(b) && PlaceNixConfiguration::execute_ok(
                a,
                s0,
                b,
                s1,
            )),
            Operation::MountApfsVolume(a) => (post matches Operation::MountApfsVolume(b)
                && MountApfsVolume::execute_ok(a, s0, b, s1)),
            Operation::CreateNixGcService(a) => (post matches Operation::CreateNixGcService(b)
                && CreateNixGcService::execute_ok(a, s0, b, s1)),
            Operation::CreateNixOptimizeService(a) => (post
                matches Operation::CreateNixOptimizeService(b) && CreateNixOptimizeService::execute_ok(
                a, s0, b, s1,
            )),
        }
    }

    open spec fn execute_err(
        pre: Self,
        s0: SystemView,
        post: Self,
        s1: SystemView,
        e: ActionError,
    ) -> bool {
        match pre {
            Operation::MoveUnpackedNix(a) => (post matches Operation::MoveUnpackedNix(b)
                && MoveUnpackedNix::execute_err(a, s0, b, s1, e)),
            Operation::ConfigureInitService(a) => (post matches Operation::ConfigureInitService(b)
                && ConfigureInitService::execute_err(a, s0, b, s1, e)),
            Operation::ConfigureShellProfile(a) => (post
                matches Operation::ConfigureShellProfile(b) && ConfigureShellProfile::execute_err(
                a,
                s0,
                b,
                s1,
                e,
            )),
            Operation::PlaceNixConfiguration(a) => (post
                matches Operation::PlaceNixConfiguration(b) && PlaceNixConfiguration::execute_err(
                a,
                s0,
                b,
                s1,
                e,
            )),
            Operation::MountApfsVolume(a) => (post matches Operation::MountApfsVolume(b)
                && MountApfsVolume::execute_err(a, s0, b, s1, e)),
            Operation::CreateNixGcService(a) => (post matches Operation::CreateNixGcService(b)
                && CreateNixGcService::execute_err(a, s0, b, s1, e)),
            Operation::CreateNixOptimizeService(a) => (post
                matches Operation::CreateNixOptimizeService(b) && CreateNixOptimizeService::execute_err(
                a, s0, b, s1, e,
            )),
        }
    }

    open spec fn revert_ok(pre: Self, s0: SystemView, post: Self, s1: SystemView) -> bool {
        match pre {
            Operation::MoveUnpackedNix(a) => (post matches Operation::MoveUnpackedNix(b)
                && MoveUnpackedNix::revert_ok(a, s0, b, s1)),
            Operation::ConfigureInitService(a) => (post matches Operation::ConfigureInitService(b)
                && ConfigureInitService::revert_ok(a, s0, b, s1)),
            Operation::ConfigureShellProfile(a) => (post
                matches Operation::ConfigureShellProfile(b) && ConfigureShellProfile::revert_ok(
                a,
                s0,
                b,
                s1,
            )),
            Operation::PlaceNixConfiguration(a) => (post
                matches Operation::PlaceNixConfiguration(b) && PlaceNixConfiguration::revert_ok(
                a,
                s0,
                b,
                s1,
            )),
            Operation::MountApfsVolume(a) => (post matches Operation::MountApfsVolume(b)
                && MountApfsVolume::revert_ok(a, s0, b, s1)),
            Operation::CreateNixGcService(a) => (post matches Operation::CreateNixGcService(b)
                && CreateNixGcService::revert_ok(a, s0, b, s1)),
            Operation::CreateNixOptimizeService(a) => (post
                matches Operation::CreateNixOptimizeService(b) && CreateNixOptimizeService::revert_ok(
                a, s0, b, s1,
            )),
        }
    }

    open spec fn revert_err(
        pre: Self,
        s0: SystemView,
        post: Self,
        s1: SystemView,
        e: ActionError,
    ) -> bool {
        match pre {
            Operation::MoveUnpackedNix(a) => (post matches Operation::MoveUnpackedNix(b)
                && MoveUnpackedNix::revert_err(a, s0, b, s1, e)),
            Operation::ConfigureInitService(a) => (post matches Operation::ConfigureInitService(b)
                && ConfigureInitService::revert_err(a, s0, b, s1, e)),
            Operation::ConfigureShellProfile(a) => (post
                matches Operation::ConfigureShellProfile(b) && ConfigureShellProfile::revert_err(
                a,
                s0,
                b,
                s1,
                e,
            )),
            Operation::PlaceNixConfiguration(a) => (post
                matches Operation::PlaceNixConfiguration(b) && PlaceNixConfiguration::revert_err(
                a,
                s0,
                b,
                s1,
                e,
            )),
            Operation::MountApfsVolume(a) => (post matches Operation::MountApfsVolume(b)
                && MountApfsVolume::revert_err(a, s0, b, s1, e)),
            Operation::CreateNixGcService(a) => (post matches Operation::CreateNixGcService(b)
                && CreateNixGcService::revert_err(a, s0, b, s1, e)),
            Operation::CreateNixOptimizeService(a) => (post
                matches Operation::CreateNixOptimizeService(b) && CreateNixOptimizeService::revert_err(
                a, s0, b, s1, e,
            )),
        }
    }

    fn action_tag(&self) -> ActionTag {
        match self {
            Operation::MoveUnpackedNix(a) => a.action_tag(),
            Operation::ConfigureInitService(a) => a.action_tag(),
            Operation::ConfigureShellProfile(a) => a.action_tag(),
            Operation::PlaceNixConfiguration(a) => a.action_tag(),
            Operation::MountApfsVolume(a) => a.action_tag(),
            Operation::CreateNixGcService(a) => a.action_tag(),
            Operation::CreateNixOptimizeService(a) => a.action_tag(),
        }
    }

    fn tracing_synopsis(&self) -> String {
        match self {
            Operation::MoveUnpackedNix(a) => a.tracing_synopsis(),
            Operation::ConfigureInitService(a) => a.tracing_synopsis(),
            Operation::ConfigureShellProfile(a) => a.tracing_synopsis(),
            Operation::PlaceNixConfiguration(a) => a.tracing_synopsis(),
            Operation::MountApfsVolume(a) => a.tracing_synopsis(),
            Operation::CreateNixGcService(a) => a.tracing_synopsis(),
            Operation::CreateNixOptimizeService(a) => a.tracing_synopsis(),
        }
    }

    fn execute_description(&self) -> Vec<ActionDescription> {
        match self {
            Operation::MoveUnpackedNix(a) => a.execute_description(),
            Operation::ConfigureInitService(a) => a.execute_description(),
            Operation::ConfigureShellProfile(a) => a.execute_description(),
            Operation::PlaceNixConfiguration(a) => a.execute_description(),
            Operation::MountApfsVolume(a) => a.execute_description(),
            Operation::CreateNixGcService(a) => a.execute_description(),
            Operation::CreateNixOptimizeService(a) => a.execute_description(),
        }
    }

    fn revert_description(&self) -> Vec<ActionDescription> {
        match self {
            Operation::MoveUnpackedNix(a) => a.revert_description(),
            Operation::ConfigureInitService(a) => a.revert_description(),
            Operation::ConfigureShellProfile(a) => a.revert_description(),
            Operation::PlaceNixConfiguration(a) => a.revert_description(),
            Operation::MountApfsVolume(a) => a.revert_description(),
            Operation::CreateNixGcService(a) => a.revert_description(),
            Operation::CreateNixOptimizeService(a) => a.revert_description(),
        }
    }

    fn execute(&mut self, sys: &mut System) -> (r: Result<(), ActionError>) {
        match self {
            Operation::MoveUnpackedNix(a) => a.execute(sys),
            Operation::ConfigureInitService(a) => a.execute(sys),
            Operation::ConfigureShellProfile(a) => a.execute(sys),
            Operation::PlaceNixConfiguration(a) => a.execute(sys),
            Operation::MountApfsVolume(a) => a.execute(sys),
            Operation::CreateNixGcService(a) => a.execute(sys),
            Operation::CreateNixOptimizeService(a) => a.execute(sys),
        }
    }

    fn revert(&mut self, sys: &mut System) -> (r: Result<(), ActionError>) {
        match self {
            Operation::MoveUnpackedNix(a) => a.revert(sys),
            Operation::ConfigureInitService(a) => a.revert(sys),
            Operation::ConfigureShellProfile(a) => a.revert(sys),
            Operation::PlaceNixConfiguration(a) => a.revert(sys),
            Operation::MountApfsVolume(a) => a.revert(sys),
            Operation::CreateNixGcService(a) => a.revert(sys),
            Operation::CreateNixOptimizeService(a) => a.revert(sys),
        }
    }
}

/// How a run that hit a hard failure ended: the failing operation's
/// error, and whatever failures the best-effort rollback collected.
#[derive(Debug)]
pub struct DriverFailure {
    pub error: ActionError,
    pub revert_errors: Vec<ActionError>,
}

/// How a failed run relates the plan and host before and after: some
/// prefix executed cleanly, the next operation failed, and exactly the
/// operations up to and including the failed one were attempted in
/// strict reverse order by the rollback, every later operation untouched.
pub open spec fn plan_failure_rel(
    pre: Seq<StatefulAction<Operation>>,
    post: Seq<StatefulAction<Operation>>,
    s0: SystemView,
    s1: SystemView,
    error: ActionError,
    revert_errors: Seq<ActionError>,
) -> bool {
    exists|k: int, wmid: Seq<StatefulAction<Operation>>, smid: SystemView, smid2: SystemView|
        {
            &&& 0 <= k < pre.len()
            &&& wmid.len() == pre.len()
            &&& post.len() == pre.len()
            &&& #[trigger] exec_all_rel(pre.take(k), wmid.take(k), s0, smid, Seq::empty())
            &&& StatefulAction::try_execute_rel(pre[k], smid, wmid[k], smid2, Err(error))
            &&& wmid.skip(k + 1) == pre.skip(k + 1)
            &&& #[trigger] revert_all_rel(
                wmid.take(k + 1),
                post.take(k + 1),
                smid2,
                s1,
                revert_errors,
            )
            &&& post.skip(k + 1) == pre.skip(k + 1)
        }
}

proof fn plan_failure_intro(
    pre: Seq<StatefulAction<Operation>>,
    post: Seq<StatefulAction<Operation>>,
    s0: SystemView,
    s1: SystemView,
    error: ActionError,
    revert_errors: Seq<ActionError>,
    k: int,
    wmid: Seq<StatefulAction<Operation>>,
    smid: SystemView,
    smid2: SystemView,
)
    requires
        0 <= k < pre.len(),
        wmid.len() == pre.len(),
        post.len() == pre.len(),
        exec_all_rel(pre.take(k), wmid.take(k), s0, smid, Seq::<ActionError>::empty()),
        StatefulAction::try_execute_rel(pre[k], smid, wmid[k], smid2, Err(error)),
        wmid.skip(k + 1) == pre.skip(k + 1),
        revert_all_rel(wmid.take(k + 1), post.take(k + 1), smid2, s1, revert_errors),
        post.skip(k + 1) == pre.skip(k + 1),
    ensures
        plan_failure_rel(pre, post, s0, s1, error, revert_errors),
{
}

/// Run the top-level operations in order; stop the whole run at the
/// first hard failure and revert everything executed so far in strict
/// reverse order, best-effort, collecting the revert failures separately
/// from the original failure.
pub fn execute_plan(plan: &mut Vec<StatefulAction<Operation>>, sys: &mut System) -> (r: Result<
    (),
    DriverFailure,
>)
    requires
        all_inv(old(plan)@),
        old(sys).inv(),
    ensures
        all_inv(final(plan)@),
        final(sys).inv(),
        match r {
            Ok(()) => exec_all_rel(old(plan)@, final(plan)@, old(sys)@, final(sys)@, Seq::empty()),
            Err(f) => plan_failure_rel(
                old(plan)@,
                final(plan)@,
                old(sys)@,
                final(sys)@,
                f.error,
                f.revert_errors@,
            ),
        },
{
    let ghost pre = plan@;
    let ghost s0 = sys@;
    let ghost mut states: Seq<SystemView> = seq![s0];
    let n = plan.len();
    let mut i: usize = 0;
    while i < n
        invariant
            pre == old(plan)@,
            s0 == old(sys)@,
            all_inv(plan@),
            sys.inv(),
            n == plan@.len(),
            pre.len() == n,
            0 <= i <= n,
            forall|j: int| i <= j < n ==> plan@[j] == pre[j],
            states.len() == i + 1,
            states[0] == s0,
            states.last() == sys@,
            crate::action::exec_all_steps(
                pre.take(i as int),
                plan@.take(i as int),
                states,
                Seq::new(i as nat, |j: int| None),
            ),
        decreases n - i,
    {
        let ghost prev_plan = plan@;
        let ghost prev_states = states;
        let r = plan[i].try_execute(sys);
        match r {
            Ok(()) => {
                proof {
                    states = states.push(sys@);
                    let ghost outs_new = Seq::new((i + 1) as nat, |j: int| None::<ActionError>);
                    assert(outs_new.drop_last() =~= Seq::new(i as nat, |j: int| None::<ActionError>));
                    assert(crate::action::exec_all_steps(
                        pre.take(i + 1),
                        plan@.take(i + 1),
                        states,
                        outs_new,
                    )) by {
                        assert forall|j: int| 0 <= j < i + 1 implies
                            #[trigger] StatefulAction::try_execute_rel(
                                pre.take(i + 1)[j],
                                states[j],
                                plan@.take(i + 1)[j],
                                states[j + 1],
                                crate::action::out_to_result(outs_new[j]),
                            ) by {
                            if j < i {
                                assert(StatefulAction::try_execute_rel(
                                    pre.take(i as int)[j],
                                    prev_states[j],
                                    prev_plan.take(i as int)[j],
                                    prev_states[j + 1],
                                    crate::action::out_to_result(
                                        Seq::new(i as nat, |t: int| None::<ActionError>)[j],
                                    ),
                                ));
                                assert(plan@.take(i + 1)[j] == prev_plan.take(i as int)[j]);
                            } else {
                                assert(plan@.take(i + 1)[j] == plan@[i as int]);
                            }
                        }
                    }
                }
            },
            Err(e) => {
                let ghost wmid = plan@;
                let ghost smid = prev_states.last();
                let ghost smid2 = sys@;
                proof {
                    assert(plan@.take(i as int) =~= prev_plan.take(i as int));
                    assert(crate::action::exec_all_rel(
                        pre.take(i as int),
                        wmid.take(i as int),
                        s0,
                        smid,
                        Seq::<ActionError>::empty(),
                    )) by {
                        assert(crate::action::collect_errs(
                            Seq::new(i as nat, |j: int| None::<ActionError>),
                        ) =~= Seq::<ActionError>::empty()) by {
                            lemma_collect_none(i as nat);
                        }
                        assert(crate::action::exec_all_steps(
                            pre.take(i as int),
                            wmid.take(i as int),
                            prev_states,
                            Seq::new(i as nat, |j: int| None::<ActionError>),
                        ));
                    }
                    assert(wmid.skip(i + 1) =~= pre.skip(i + 1));
                }
                // roll back everything executed so far, last first
                let mut errs: Vec<ActionError> = Vec::new();
                let ghost mut rstates: Seq<SystemView> = seq![smid2];
                let ghost mut routs: Seq<Option<ActionError>> = Seq::empty();
                let mut j: usize = i + 1;
                while j > 0
                    invariant
                        all_inv(plan@),
                        sys.inv(),
                        n == plan@.len(),
                        wmid.len() == n,
                        0 <= j <= i + 1,
                        i < n,
                        forall|t: int| 0 <= t < j ==> plan@[t] == wmid[t],
                        forall|t: int| i < t < n ==> plan@[t] == wmid[t],
                        rstates.len() == i + 1 - j + 1,
                        rstates.last() == smid2,
                        rstates[0] == sys@,
                        routs.len() == i + 1 - j,
                        crate::action::revert_all_steps(
                            wmid.subrange(j as int, i + 1),
                            plan@.subrange(j as int, i + 1),
                            rstates,
                            routs,
                        ),
                        errs@ == crate::action::collect_errs_rev(routs),
                    decreases j,
                {
                    j -= 1;
                    let ghost prev_plan2 = plan@;
                    let ghost prev_rstates = rstates;
                    let ghost prev_routs = routs;
                    let r2 = plan[j].try_revert(sys);
                    proof {
                        rstates = seq![sys@] + rstates;
                        routs = seq![
                            match r2 {
                                Ok(()) => None,
                                Err(ref e2) => Some(*e2),
                            },
                        ] + routs;
                        assert(routs.skip(1) =~= prev_routs);
                        assert(rstates.skip(1) =~= prev_rstates);
                        assert(wmid.subrange(j as int, i + 1) =~= seq![wmid[j as int]]
                            + wmid.subrange(j + 1, i + 1));
                        assert(plan@.subrange(j as int, i + 1) =~= seq![plan@[j as int]]
                            + prev_plan2.subrange(j + 1, i + 1));
                        assert(crate::action::revert_all_steps(
                            wmid.subrange(j as int, i + 1),
                            plan@.subrange(j as int, i + 1),
                            rstates,
                            routs,
                        )) by {
                            assert forall|t: int| 0 <= t < wmid.subrange(j as int, i + 1).len()
                                implies #[trigger] StatefulAction::try_revert_rel(
                                wmid.subrange(j as int, i + 1)[t],
                                rstates[t + 1],
                                plan@.subrange(j as int, i + 1)[t],
                                rstates[t],
                                crate::action::out_to_result(routs[t]),
                            ) by {
                                if t >= 1 {
                                    assert(StatefulAction::try_revert_rel(
                                        wmid.subrange(j + 1, i + 1)[t - 1],
                                        prev_rstates[t],
                                        prev_plan2.subrange(j + 1, i + 1)[t - 1],
                                        prev_rstates[t - 1],
                                        crate::action::out_to_result(prev_routs[t - 1]),
                                    ));
                                    assert(wmid.subrange(j as int, i + 1)[t] == wmid.subrange(
                                        j + 1,
                                        i + 1,
                                    )[t - 1]);
                                    assert(plan@.subrange(j as int, i + 1)[t]
                                        == prev_plan2.subrange(j + 1, i + 1)[t - 1]);
                                } else {
                                    assert(wmid.subrange(j as int, i + 1)[0] == wmid[j as int]);
                                    assert(plan@.subrange(j as int, i + 1)[0] == plan@[j as int]);
                                }
                            }
                        }
                    }
                    match r2 {
                        Ok(()) => {
                            proof {
                                assert(errs@ =~= crate::action::collect_errs_rev(routs));
                            }
                        },
                        Err(e2) => {
                            errs.push(e2);
                            proof {
                                assert(errs@ =~= crate::action::collect_errs_rev(routs));
                            }
                        },
                    }
                }
                proof {
                    assert(wmid.subrange(0, i + 1) =~= wmid.take(i + 1));
                    assert(plan@.subrange(0, i + 1) =~= plan@.take(i + 1));
                    assert(rstates[(i + 1) as int] == smid2);
                    assert(crate::action::revert_all_rel(
                        wmid.take(i + 1),
                        plan@.take(i + 1),
                        smid2,
                        sys@,
                        errs@,
                    ));
                    assert(plan@.skip(i + 1) =~= pre.skip(i + 1));
                    assert(StatefulAction::try_execute_rel(
                        pre[i as int],
                        smid,
                        wmid[i as int],
                        smid2,
                        Err(e),
                    ));
                    assert(wmid.len() == pre.len());
                    assert(plan@.len() == pre.len());
                    plan_failure_intro(
                        pre,
                        plan@,
                        s0,
                        sys@,
                        e,
                        errs@,
                        i as int,
                        wmid,
                        smid,
                        smid2,
                    );
                }
                return Err(DriverFailure { error: e, revert_errors: errs });
            },
        }
        i += 1;
    }
    proof {
        assert(pre.take(n as int) =~= pre);
        assert(plan@.take(n as int) =~= plan@);
        assert(states[pre.len() as int] == sys@);
        assert(crate::action::collect_errs(Seq::new(n as nat, |j: int| None::<ActionError>))
            =~= Seq::<ActionError>::empty()) by {
            lemma_collect_none(n as nat);
        }
    }
    Ok(())
}

/// Collecting over outcomes without failures yields no errors.
proof fn lemma_collect_none(n: nat)
    ensures
        crate::action::collect_errs(Seq::new(n, |j: int| None::<ActionError>)) =~= Seq::<
            ActionError,
        >::empty(),
    decreases n,
{
    if n > 0 {
        lemma_collect_none((n - 1) as nat);
        assert(Seq::new(n, |j: int| None::<ActionError>).drop_last() =~= Seq::new(
            (n - 1) as nat,
            |j: int| None::<ActionError>,
        ));
    }
}

/// Revert a whole plan bottom-up on request: every wrapper attempted in
/// strict reverse order, failures collected in attempt order.
pub fn revert_plan(plan: &mut Vec<StatefulAction<Operation>>, sys: &mut System) -> (errs: Vec<
    ActionError,
>)
    requires
        all_inv(old(plan)@),
        old(sys).inv(),
    ensures
        all_inv(final(plan)@),
        final(sys).inv(),
        revert_all_rel(old(plan)@, final(plan)@, old(sys)@, final(sys)@, errs@),
{
    revert_group(plan, sys)
}

/// Render the whole plan's planned effects without mutating anything:
/// the dry-run surface.
pub fn describe_plan(plan: &Vec<StatefulAction<Operation>>) -> Vec<ActionDescription> {
    let mut out: Vec<ActionDescription> = Vec::new();
    let n = plan.len();
    let mut i: usize = 0;
    while i < n
        invariant
            n == plan@.len(),
            0 <= i <= n,
        decreases n - i,
    {
        let mut descs = plan[i].describe_execute();
        out.append(&mut descs);
        i += 1;
    }
    out
}

} // verus!
