//! The action capability and the engine around it.
//!
//! Every operation implements [`Action`]: four contractual phases (a
//! planning constructor on the concrete type, describe, execute, revert)
//! over the modelled host state.  A [`StatefulAction`] wraps one operation
//! with its persisted completion state and enforces idempotent re-entry;
//! groups of wrappers are run by the helpers at the bottom, which attempt
//! every sibling, never cancel the rest on a failure, and collect every
//! failure in order.

use vstd::prelude::*;
use crate::errors::{ActionError, ActionTag};
use crate::system::{System, SystemView};

verus! {

/// The persisted completion marker that makes every unit idempotent and
/// resumable.
#[derive(Clone, Copy, Debug, PartialEq, Eq, Structural)]
pub enum ActionState {
    Uncompleted,
    Completed,
}

/// One human-readable planned-effect entry for dry-run output.
#[derive(Clone, Debug)]
pub struct ActionDescription {
    pub description: String,
    pub explanation: Vec<String>,
}

impl ActionDescription {
    pub fn new(description: String, explanation: Vec<String>) -> (r: ActionDescription)
        ensures
            r.description == description,
            r.explanation == explanation,
    {
        ActionDescription { description, explanation }
    }
}

/// The capability contract every concrete operation implements.
///
/// `execute` and `revert` mutate the modelled host; what a successful or
/// failed call did is pinned down by the implementor's four relation
/// functions, so that composites and the driver can reason uniformly about
/// heterogeneous children.
pub trait Action: Sized {
    /// Well-formedness of the operation's own data.
    spec fn inv(&self) -> bool;

    /// What a successful `execute` did to the operation and the host.
    spec fn execute_ok(pre: Self, sys0: SystemView, post: Self, sys1: SystemView) -> bool;

    /// What holds after a failed `execute`, whatever was attempted.
    spec fn execute_err(
        pre: Self,
        sys0: SystemView,
        post: Self,
        sys1: SystemView,
        e: ActionError,
    ) -> bool;

    /// What a successful `revert` did to the operation and the host.
    spec fn revert_ok(pre: Self, sys0: SystemView, post: Self, sys1: SystemView) -> bool;

    /// What holds after a failed `revert`, whatever was attempted.
    spec fn revert_err(
        pre: Self,
        sys0: SystemView,
        post: Self,
        sys1: SystemView,
        e: ActionError,
    ) -> bool;

    /// The unique tag naming the variant for diagnostics and
    /// serialization.
    fn action_tag(&self) -> ActionTag;

    /// A one-line human-readable synopsis; pure.
    fn tracing_synopsis(&self) -> String;

    /// Planned-effect descriptions for dry-run output; pure.
    fn execute_description(&self) -> Vec<ActionDescription>;

    /// Planned-compensation descriptions for dry-run output; pure.
    fn revert_description(&self) -> Vec<ActionDescription>;

    /// Perform the declared mutation.
    fn execute(&mut self, sys: &mut System) -> (r: Result<(), ActionError>)
        requires
            old(self).inv(),
            old(sys).inv(),
        ensures
            final(self).inv(),
            final(sys).inv(),
            match r {
                Ok(()) => Self::execute_ok(*old(self), old(sys)@, *final(self), final(sys)@),
                Err(e) => Self::execute_err(*old(self), old(sys)@, *final(self), final(sys)@, e),
            },
    ;

    /// Best-effort compensation for a completed `execute`.
    fn revert(&mut self, sys: &mut System) -> (r: Result<(), ActionError>)
        requires
            old(self).inv(),
            old(sys).inv(),
        ensures
            final(self).inv(),
            final(sys).inv(),
            match r {
                Ok(()) => Self::revert_ok(*old(self), old(sys)@, *final(self), final(sys)@),
                Err(e) => Self::revert_err(*old(self), old(sys)@, *final(self), final(sys)@, e),
            },
    ;
}

/// One concrete operation together with its persisted completion state.
#[derive(Debug)]
pub struct StatefulAction<A> {
    pub action: A,
    pub state: ActionState,
}

impl<A> StatefulAction<A> {
    /// A wrapper whose planning found the goal already satisfied.
    pub fn completed(action: A) -> (r: Self)
        ensures
            r.action == action,
            r.state == ActionState::Completed,
    {
        StatefulAction { action, state: ActionState::Completed }
    }

    /// A wrapper whose planning found work left to do.
    pub fn uncompleted(action: A) -> (r: Self)
        ensures
            r.action == action,
            r.state == ActionState::Uncompleted,
    {
        StatefulAction { action, state: ActionState::Uncompleted }
    }
}

impl<A: Action> StatefulAction<A> {
    pub open spec fn inv(&self) -> bool {
        self.action.inv()
    }

    /// Everything `try_execute` guarantees, as one relation between the
    /// wrapper and host before and after the call.
    ///
    /// A completed wrapper is skipped outright; success from an
    /// uncompleted one is the inner operation's successful execute and
    /// flips the state; failure leaves the state untouched.
    pub open spec fn try_execute_rel(
        pre: Self,
        sys0: SystemView,
        post: Self,
        sys1: SystemView,
        r: Result<(), ActionError>,
    ) -> bool {
        match r {
            Ok(()) => post.state == ActionState::Completed && if pre.state
                == ActionState::Completed {
                post == pre && sys1 == sys0
            } else {
                A::execute_ok(pre.action, sys0, post.action, sys1)
            },
            Err(e) => pre.state == ActionState::Uncompleted && post.state
                == ActionState::Uncompleted && A::execute_err(pre.action, sys0, post.action, sys1, e),
        }
    }

    /// Everything `try_revert` guarantees, symmetrically gated on the
    /// uncompleted state.
    pub open spec fn try_revert_rel(
        pre: Self,
        sys0: SystemView,
        post: Self,
        sys1: SystemView,
        r: Result<(), ActionError>,
    ) -> bool {
        match r {
            Ok(()) => post.state == ActionState::Uncompleted && if pre.state
                == ActionState::Uncompleted {
                post == pre && sys1 == sys0
            } else {
                A::revert_ok(pre.action, sys0, post.action, sys1)
            },
            Err(e) => pre.state == ActionState::Completed && post.state == ActionState::Completed
                && A::revert_err(pre.action, sys0, post.action, sys1, e),
        }
    }

    /// Run the operation unless its goal is already recorded as reached;
    /// flip to `Completed` only on success.
    pub fn try_execute(&mut self, sys: &mut System) -> (r: Result<(), ActionError>)
        requires
            old(self).inv(),
            old(sys).inv(),
        ensures
            final(self).inv(),
            final(sys).inv(),
            Self::try_execute_rel(*old(self), old(sys)@, *final(self), final(sys)@, r),
    {
        match self.state {
            ActionState::Completed => Ok(()),
            ActionState::Uncompleted => {
                match self.action.execute(sys) {
                    Ok(()) => {
                        self.state = ActionState::Completed;
                        Ok(())
                    },
                    Err(e) => Err(e),
                }
            },
        }
    }

    /// Undo the operation unless it is recorded as never having run; flip
    /// to `Uncompleted` only on success.
    pub fn try_revert(&mut self, sys: &mut System) -> (r: Result<(), ActionError>)
        requires
            old(self).inv(),
            old(sys).inv(),
        ensures
            final(self).inv(),
            final(sys).inv(),
            Self::try_revert_rel(*old(self), old(sys)@, *final(self), final(sys)@, r),
    {
        match self.state {
            ActionState::Uncompleted => Ok(()),
            ActionState::Completed => {
                match self.action.revert(sys) {
                    Ok(()) => {
                        self.state = ActionState::Uncompleted;
                        Ok(())
                    },
                    Err(e) => Err(e),
                }
            },
        }
    }

    /// The wrapped operation's planned-effect descriptions; pure.
    pub fn describe_execute(&self) -> Vec<ActionDescription> {
        self.action.execute_description()
    }

    /// The wrapped operation's planned-compensation descriptions; pure.
    pub fn describe_revert(&self) -> Vec<ActionDescription> {
        self.action.revert_description()
    }
}

/// Idempotent execute: when planning already determined the goal to be
/// satisfied, `try_execute` succeeds with zero observable effect on the
/// host and leaves the wrapper untouched.
pub proof fn lemma_execute_idempotent<A: Action>(
    w0: StatefulAction<A>,
    s0: SystemView,
    w1: StatefulAction<A>,
    s1: SystemView,
    r: Result<(), ActionError>,
)
    requires
        w0.state == ActionState::Completed,
        StatefulAction::try_execute_rel(w0, s0, w1, s1, r),
    ensures
        r is Ok,
        w1 == w0,
        s1 == s0,
{
}

/// Re-entrant execute: after one successful `try_execute`, a second call
/// succeeds, performs no mutation, and leaves the same end state as the
/// first call alone.
pub proof fn lemma_execute_reentrant<A: Action>(
    w0: StatefulAction<A>,
    s0: SystemView,
    w1: StatefulAction<A>,
    s1: SystemView,
    r1: Result<(), ActionError>,
    w2: StatefulAction<A>,
    s2: SystemView,
    r2: Result<(), ActionError>,
)
    requires
        StatefulAction::try_execute_rel(w0, s0, w1, s1, r1),
        r1 is Ok,
        StatefulAction::try_execute_rel(w1, s1, w2, s2, r2),
    ensures
        r2 is Ok,
        w2 == w1,
        s2 == s1,
{
}

/// Re-entrant revert: after one successful `try_revert`, a second call
/// succeeds and performs no mutation.
pub proof fn lemma_revert_reentrant<A: Action>(
    w0: StatefulAction<A>,
    s0: SystemView,
    w1: StatefulAction<A>,
    s1: SystemView,
    r1: Result<(), ActionError>,
    w2: StatefulAction<A>,
    s2: SystemView,
    r2: Result<(), ActionError>,
)
    requires
        StatefulAction::try_revert_rel(w0, s0, w1, s1, r1),
        r1 is Ok,
        StatefulAction::try_revert_rel(w1, s1, w2, s2, r2),
    ensures
        r2 is Ok,
        w2 == w1,
        s2 == s1,
{
}

/// Every wrapper in a group is well-formed.
pub open spec fn all_inv<A: Action>(s: Seq<StatefulAction<A>>) -> bool {
    forall|i: int| 0 <= i < s.len() ==> (#[trigger] s[i]).inv()
}

/// A child's outcome as the result its `try_execute` or `try_revert`
/// returned.
pub open spec fn out_to_result(o: Option<ActionError>) -> Result<(), ActionError> {
    match o {
        None => Ok(()),
        Some(e) => Err(e),
    }
}

/// The error an outcome contributes to the collected failures.
pub open spec fn opt_err(o: Option<ActionError>) -> Seq<ActionError> {
    match o {
        None => Seq::empty(),
        Some(e) => seq![e],
    }
}

/// The failures among a group's outcomes, one per failing child, in the
/// order of the attempts from index 0 upward.
pub open spec fn collect_errs(outs: Seq<Option<ActionError>>) -> Seq<ActionError>
    decreases outs.len(),
{
    if outs.len() == 0 {
        Seq::empty()
    } else {
        collect_errs(outs.drop_last()) + opt_err(outs.last())
    }
}

/// The failures among a group's outcomes, in the order of the attempts
/// from the last index downward.
pub open spec fn collect_errs_rev(outs: Seq<Option<ActionError>>) -> Seq<ActionError>
    decreases outs.len(),
{
    if outs.len() == 0 {
        Seq::empty()
    } else {
        collect_errs_rev(outs.skip(1)) + opt_err(outs[0])
    }
}

/// A whole group was attempted through `try_execute`, one wrapper after
/// another from index 0, no sibling cancelled by an earlier failure.
/// `states` carries the host state between the attempts: the attempt on
/// child `i` took the host from `states[i]` to `states[i + 1]`.
pub open spec fn exec_all_steps<A: Action>(
    pre: Seq<StatefulAction<A>>,
    post: Seq<StatefulAction<A>>,
    states: Seq<SystemView>,
    outs: Seq<Option<ActionError>>,
) -> bool {
    &&& post.len() == pre.len()
    &&& states.len() == pre.len() + 1
    &&& outs.len() == pre.len()
    &&& forall|i: int|
        0 <= i < pre.len() ==> #[trigger] StatefulAction::try_execute_rel(
            pre[i],
            states[i],
            post[i],
            states[i + 1],
            out_to_result(outs[i]),
        )
}

/// A whole group was attempted through `try_revert` in strict reverse
/// order: the last wrapper first, the first wrapper last.  The attempt on
/// child `i` took the host from `states[i + 1]` to `states[i]`, so the
/// temporal order runs from the end of `states` to its front.
pub open spec fn revert_all_steps<A: Action>(
    pre: Seq<StatefulAction<A>>,
    post: Seq<StatefulAction<A>>,
    states: Seq<SystemView>,
    outs: Seq<Option<ActionError>>,
) -> bool {
    &&& post.len() == pre.len()
    &&& states.len() == pre.len() + 1
    &&& outs.len() == pre.len()
    &&& forall|i: int|
        0 <= i < pre.len() ==> #[trigger] StatefulAction::try_revert_rel(
            pre[i],
            states[i + 1],
            post[i],
            states[i],
            out_to_result(outs[i]),
        )
}

/// A group execute from host `s0` to host `s1` with the failures `errs`
/// collected in attempt order.
pub open spec fn exec_all_rel<A: Action>(
    pre: Seq<StatefulAction<A>>,
    post: Seq<StatefulAction<A>>,
    s0: SystemView,
    s1: SystemView,
    errs: Seq<ActionError>,
) -> bool {
    exists|states: Seq<SystemView>, outs: Seq<Option<ActionError>>|
        #[trigger] exec_all_steps(pre, post, states, outs) && states[0] == s0
            && states[pre.len() as int] == s1 && errs == collect_errs(outs)
}

/// A group revert from host `s0` to host `s1`, children attempted in
/// strict reverse order, the failures `errs` collected in attempt order.
pub open spec fn revert_all_rel<A: Action>(
    pre: Seq<StatefulAction<A>>,
    post: Seq<StatefulAction<A>>,
    s0: SystemView,
    s1: SystemView,
    errs: Seq<ActionError>,
) -> bool {
    exists|states: Seq<SystemView>, outs: Seq<Option<ActionError>>|
        #[trigger] revert_all_steps(pre, post, states, outs) && states[pre.len() as int] == s0
            && states[0] == s1 && errs == collect_errs_rev(outs)
}

/// How many wrappers of a group stand uncompleted.
pub open spec fn count_uncompleted<A: Action>(s: Seq<StatefulAction<A>>) -> int
    decreases s.len(),
{
    if s.len() == 0 {
        0
    } else {
        count_uncompleted(s.drop_last()) + if s.last().state == ActionState::Uncompleted {
            1int
        } else {
            0int
        }
    }
}

proof fn lemma_steps_accounting<A: Action>(
    pre: Seq<StatefulAction<A>>,
    post: Seq<StatefulAction<A>>,
    states: Seq<SystemView>,
    outs: Seq<Option<ActionError>>,
)
    requires
        exec_all_steps(pre, post, states, outs),
    ensures
        collect_errs(outs).len() == count_uncompleted(post),
    decreases pre.len(),
{
    if pre.len() > 0 {
        assert(exec_all_steps(pre.drop_last(), post.drop_last(), states.drop_last(), outs.drop_last())) by {
            assert forall|i: int| 0 <= i < pre.drop_last().len() implies
                #[trigger] StatefulAction::try_execute_rel(
                    pre.drop_last()[i],
                    states.drop_last()[i],
                    post.drop_last()[i],
                    states.drop_last()[i + 1],
                    out_to_result(outs.drop_last()[i]),
                ) by {
                assert(StatefulAction::try_execute_rel(
                    pre[i],
                    states[i],
                    post[i],
                    states[i + 1],
                    out_to_result(outs[i]),
                ));
            }
        }
        lemma_steps_accounting(pre.drop_last(), post.drop_last(), states.drop_last(), outs.drop_last());
        let k = pre.len() - 1;
        assert(StatefulAction::try_execute_rel(
            pre[k],
            states[k],
            post[k],
            states[k + 1],
            out_to_result(outs[k]),
        ));
        assert(outs.last() is Some <==> post.last().state == ActionState::Uncompleted);
    }
}

/// Aggregate error completeness for a group execute: every sibling was
/// attempted; the collected failures are exactly one per child left
/// uncompleted, with none lost and none duplicated; children that began
/// completed are untouched; with no failure every child stands completed.
pub proof fn lemma_exec_all_accounting<A: Action>(
    pre: Seq<StatefulAction<A>>,
    post: Seq<StatefulAction<A>>,
    s0: SystemView,
    s1: SystemView,
    errs: Seq<ActionError>,
)
    requires
        exec_all_rel(pre, post, s0, s1, errs),
    ensures
        post.len() == pre.len(),
        errs.len() == count_uncompleted(post),
        forall|i: int|
            0 <= i < pre.len() && (#[trigger] pre[i]).state == ActionState::Completed ==> post[i]
                == pre[i],
        forall|i: int|
            0 <= i < post.len() && (#[trigger] post[i]).state == ActionState::Uncompleted
                ==> pre[i].state == ActionState::Uncompleted,
        errs.len() == 0 ==> forall|i: int|
            0 <= i < post.len() ==> (#[trigger] post[i]).state == ActionState::Completed,
{
    let (states, outs) = choose|states: Seq<SystemView>, outs: Seq<Option<ActionError>>|
        #[trigger] exec_all_steps(pre, post, states, outs) && states[0] == s0
            && states[pre.len() as int] == s1 && errs == collect_errs(outs);
    lemma_steps_accounting(pre, post, states, outs);
    assert forall|i: int|
        0 <= i < pre.len() && (#[trigger] pre[i]).state == ActionState::Completed implies post[i]
        == pre[i] by {
        assert(StatefulAction::try_execute_rel(
            pre[i],
            states[i],
            post[i],
            states[i + 1],
            out_to_result(outs[i]),
        ));
    }
    assert forall|i: int|
        0 <= i < post.len() && (#[trigger] post[i]).state == ActionState::Uncompleted
        implies pre[i].state == ActionState::Uncompleted by {
        assert(StatefulAction::try_execute_rel(
            pre[i],
            states[i],
            post[i],
            states[i + 1],
            out_to_result(outs[i]),
        ));
    }
    if errs.len() == 0 {
        assert forall|i: int| 0 <= i < post.len() implies (#[trigger] post[i]).state
            == ActionState::Completed by {
            lemma_count_uncompleted_nonneg(post, i);
            assert(StatefulAction::try_execute_rel(
                pre[i],
                states[i],
                post[i],
                states[i + 1],
                out_to_result(outs[i]),
            ));
        }
    }
}

/// Each uncompleted wrapper contributes one to the count.
proof fn lemma_count_uncompleted_nonneg<A: Action>(s: Seq<StatefulAction<A>>, i: int)
    requires
        0 <= i < s.len(),
    ensures
        count_uncompleted(s) >= 0,
        s[i].state == ActionState::Uncompleted ==> count_uncompleted(s) >= 1,
    decreases s.len(),
{
    if s.len() > 0 {
        if s.len() == 1 {
            assert(s.drop_last().len() == 0);
            assert(count_uncompleted(s.drop_last()) == 0);
        } else if i < s.len() - 1 {
            lemma_count_uncompleted_nonneg(s.drop_last(), i);
            assert(s.drop_last()[i] == s[i]);
        } else {
            lemma_count_uncompleted_nonneg(s.drop_last(), 0);
        }
    }
}

/// Attempt every wrapper of an independent group in order, never
/// cancelling the rest when one fails; hand back the failures in order.
pub fn execute_group<A: Action>(children: &mut Vec<StatefulAction<A>>, sys: &mut System) -> (errs:
    Vec<ActionError>)
    requires
        all_inv(old(children)@),
        old(sys).inv(),
    ensures
        all_inv(final(children)@),
        final(sys).inv(),
        exec_all_rel(old(children)@, final(children)@, old(sys)@, final(sys)@, errs@),
{
    let ghost pre = children@;
    let ghost s0 = sys@;
    let ghost mut states: Seq<SystemView> = seq![s0];
    let ghost mut outs: Seq<Option<ActionError>> = Seq::empty();
    let mut errs: Vec<ActionError> = Vec::new();
    let n = children.len();
    let mut i: usize = 0;
    while i < n
        invariant
            all_inv(children@),
            sys.inv(),
            n == children@.len(),
            pre.len() == n,
            0 <= i <= n,
            forall|j: int| i <= j < n ==> children@[j] == pre[j],
            states.len() == i + 1,
            outs.len() == i,
            states[0] == s0,
            states.last() == sys@,
            exec_all_steps(pre.take(i as int), children@.take(i as int), states, outs),
            errs@ == collect_errs(outs),
        decreases n - i,
    {
        let ghost prev_children = children@;
        let ghost prev_outs = outs;
        let ghost prev_states = states;
        let r = children[i].try_execute(sys);
        proof {
            states = states.push(sys@);
            outs = outs.push(match r {
                Ok(()) => None,
                Err(ref e) => Some(*e),
            });
            assert(outs.drop_last() =~= prev_outs);
            assert(states[i as int] == prev_states.last());
            assert(exec_all_steps(pre.take(i + 1), children@.take(i + 1), states, outs)) by {
                assert forall|j: int| 0 <= j < i + 1 implies
                    #[trigger] StatefulAction::try_execute_rel(
                        pre.take(i + 1)[j],
                        states[j],
                        children@.take(i + 1)[j],
                        states[j + 1],
                        out_to_result(outs[j]),
                    ) by {
                    if j < i {
                        assert(StatefulAction::try_execute_rel(
                            pre.take(i as int)[j],
                            prev_states[j],
                            prev_children.take(i as int)[j],
                            prev_states[j + 1],
                            out_to_result(prev_outs[j]),
                        ));
                        assert(children@.take(i + 1)[j] == prev_children.take(i as int)[j]);
                    } else {
                        assert(children@.take(i + 1)[j] == children@[i as int]);
                    }
                }
            }
        }
        match r {
            Ok(()) => {
                proof {
                    assert(errs@ =~= collect_errs(outs));
                }
            },
            Err(e) => {
                errs.push(e);
                proof {
                    assert(errs@ =~= collect_errs(outs));
                }
            },
        }
        i += 1;
    }
    proof {
        assert(pre.take(n as int) =~= pre);
        assert(children@.take(n as int) =~= children@);
        assert(states[pre.len() as int] == sys@);
    }
    errs
}

/// Attempt every wrapper of a group through `try_revert`, in strict
/// reverse order, never cancelling the rest when one fails; hand back the
/// failures in the order of the attempts.
pub fn revert_group<A: Action>(children: &mut Vec<StatefulAction<A>>, sys: &mut System) -> (errs:
    Vec<ActionError>)
    requires
        all_inv(old(children)@),
        old(sys).inv(),
    ensures
        all_inv(final(children)@),
        final(sys).inv(),
        revert_all_rel(old(children)@, final(children)@, old(sys)@, final(sys)@, errs@),
{
    let ghost pre = children@;
    let ghost s0 = sys@;
    let ghost mut states: Seq<SystemView> = seq![s0];
    let ghost mut outs: Seq<Option<ActionError>> = Seq::empty();
    let mut errs: Vec<ActionError> = Vec::new();
    let n = children.len();
    let mut i: usize = n;
    while i > 0
        invariant
            all_inv(children@),
            sys.inv(),
            n == children@.len(),
            pre.len() == n,
            0 <= i <= n,
            forall|j: int| 0 <= j < i ==> children@[j] == pre[j],
            states.len() == n - i + 1,
            states.last() == s0,
            states[0] == sys@,
            outs.len() == n - i,
            revert_all_steps(pre.skip(i as int), children@.skip(i as int), states, outs),
            errs@ == collect_errs_rev(outs),
        decreases i,
    {
        i -= 1;
        let ghost prev_children = children@;
        let ghost prev_outs = outs;
        let ghost prev_states = states;
        let r = children[i].try_revert(sys);
        proof {
            states = seq![sys@] + states;
            outs = seq![match r {
                Ok(()) => None,
                Err(ref e) => Some(*e),
            }] + outs;
            assert(outs.skip(1) =~= prev_outs);
            assert(states.skip(1) =~= prev_states);
            assert(states.last() == s0);
            assert(revert_all_steps(pre.skip(i as int), children@.skip(i as int), states, outs)) by {
                assert forall|j: int| 0 <= j < pre.skip(i as int).len() implies
                    #[trigger] StatefulAction::try_revert_rel(
                        pre.skip(i as int)[j],
                        states[j + 1],
                        children@.skip(i as int)[j],
                        states[j],
                        out_to_result(outs[j]),
                    ) by {
                    if j >= 1 {
                        assert(StatefulAction::try_revert_rel(
                            pre.skip(i + 1)[j - 1],
                            prev_states[j],
                            prev_children.skip(i + 1)[j - 1],
                            prev_states[j - 1],
                            out_to_result(prev_outs[j - 1]),
                        ));
                        assert(pre.skip(i as int)[j] == pre.skip(i + 1)[j - 1]);
                        assert(children@.skip(i as int)[j] == prev_children.skip(i + 1)[j - 1]);
                    } else {
                        assert(pre.skip(i as int)[0] == pre[i as int]);
                        assert(children@.skip(i as int)[0] == children@[i as int]);
                    }
                }
            }
        }
        match r {
            Ok(()) => {
                proof {
                    assert(errs@ =~= collect_errs_rev(outs));
                }
            },
            Err(e) => {
                errs.push(e);
                proof {
                    assert(errs@ =~= collect_errs_rev(outs));
                }
            },
        }
    }
    proof {
        assert(pre.skip(0) =~= pre);
        assert(children@.skip(0) =~= children@);
        assert(states[pre.len() as int] == s0);
    }
    errs
}


/// The attempt a group execute made at index `i`.
pub proof fn lemma_exec_step_at<A: Action>(
    pre: Seq<StatefulAction<A>>,
    post: Seq<StatefulAction<A>>,
    states: Seq<SystemView>,
    outs: Seq<Option<ActionError>>,
    i: int,
)
    requires
        exec_all_steps(pre, post, states, outs),
        0 <= i < pre.len(),
    ensures
        StatefulAction::try_execute_rel(
            pre[i],
            states[i],
            post[i],
            states[i + 1],
            out_to_result(outs[i]),
        ),
{
}

/// Every collected failure is some attempt's outcome.
pub proof fn lemma_collect_errs_membership(outs: Seq<Option<ActionError>>, j: int)
    requires
        0 <= j < collect_errs(outs).len(),
    ensures
        exists|t: int| 0 <= t < outs.len() && (#[trigger] outs[t]) == Some(collect_errs(outs)[j]),
    decreases outs.len(),
{
    if outs.len() > 0 {
        assert(collect_errs(outs) == collect_errs(outs.drop_last()) + opt_err(outs.last()));
        if j < collect_errs(outs.drop_last()).len() {
            lemma_collect_errs_membership(outs.drop_last(), j);
            let t = choose|t: int|
                0 <= t < outs.drop_last().len() && (#[trigger] outs.drop_last()[t]) == Some(
                    collect_errs(outs.drop_last())[j],
                );
            assert(outs[t] == outs.drop_last()[t]);
            assert(collect_errs(outs)[j] == collect_errs(outs.drop_last())[j]);
        } else {
            assert(outs.last() is Some);
            assert(outs[outs.len() - 1] == Some(collect_errs(outs)[j]));
        }
    }
}

/// The attempt a group revert made at index `i`.
pub proof fn lemma_revert_step_at<A: Action>(
    pre: Seq<StatefulAction<A>>,
    post: Seq<StatefulAction<A>>,
    states: Seq<SystemView>,
    outs: Seq<Option<ActionError>>,
    i: int,
)
    requires
        revert_all_steps(pre, post, states, outs),
        0 <= i < pre.len(),
    ensures
        StatefulAction::try_revert_rel(
            pre[i],
            states[i + 1],
            post[i],
            states[i],
            out_to_result(outs[i]),
        ),
{
}

/// No collected failure means no attempt failed.
proof fn lemma_collect_rev_empty(outs: Seq<Option<ActionError>>)
    requires
        collect_errs_rev(outs).len() == 0,
    ensures
        forall|i: int| 0 <= i < outs.len() ==> (#[trigger] outs[i]) is None,
    decreases outs.len(),
{
    if outs.len() > 0 {
        assert(collect_errs_rev(outs) == collect_errs_rev(outs.skip(1)) + opt_err(outs[0]));
        lemma_collect_rev_empty(outs.skip(1));
        assert(forall|i: int| 1 <= i < outs.len() ==> outs.skip(1)[i - 1] == outs[i]);
    }
}

/// Reverse-order revert: a clean revert of the group [A, B, C], executed
/// in that order, attempts C's revert first, then B's, then A's; the
/// intermediate host states witness the order of the attempts.
pub proof fn lemma_revert_three_in_reverse_order<A: Action>(
    pre: Seq<StatefulAction<A>>,
    post: Seq<StatefulAction<A>>,
    s0: SystemView,
    s1: SystemView,
)
    requires
        pre.len() == 3,
        revert_all_rel(pre, post, s0, s1, Seq::<ActionError>::empty()),
    ensures
        exists|m1: SystemView, m2: SystemView|
            #[trigger] StatefulAction::try_revert_rel(pre[2], s0, post[2], m1, Ok(()))
                && #[trigger] StatefulAction::try_revert_rel(pre[1], m1, post[1], m2, Ok(()))
                && StatefulAction::try_revert_rel(pre[0], m2, post[0], s1, Ok(())),
{
    let (states, outs) = choose|states: Seq<SystemView>, outs: Seq<Option<ActionError>>|
        #[trigger] revert_all_steps(pre, post, states, outs) && states[pre.len() as int] == s0
            && states[0] == s1 && Seq::<ActionError>::empty() == collect_errs_rev(outs);
    assert(revert_all_steps(pre, post, states, outs));
    assert(states.len() == 4);
    assert(outs.len() == 3);
    assert(states[3] == s0);
    assert(states[0] == s1);
    lemma_collect_rev_empty(outs);
    assert(outs[0] is None && outs[1] is None && outs[2] is None);
    lemma_revert_step_at(pre, post, states, outs, 2);
    lemma_revert_step_at(pre, post, states, outs, 1);
    lemma_revert_step_at(pre, post, states, outs, 0);
    assert(StatefulAction::try_revert_rel(pre[2], s0, post[2], states[2], Ok(())));
    assert(StatefulAction::try_revert_rel(pre[1], states[2], post[1], states[1], Ok(())));
    assert(StatefulAction::try_revert_rel(pre[0], states[1], post[0], s1, Ok(())));
}

/// How a sequential run over dependent children ends: success ran every
/// child in order with no failure; failure ran a prefix, stopped at the
/// first failing child, and never touched the rest.
pub open spec fn exec_sequential_rel<A: Action>(
    pre: Seq<StatefulAction<A>>,
    post: Seq<StatefulAction<A>>,
    s0: SystemView,
    s1: SystemView,
    r: Result<(), ActionError>,
) -> bool {
    match r {
        Ok(()) => exec_all_rel(pre, post, s0, s1, Seq::empty()),
        Err(e) => post.len() == pre.len() && exists|k: int, mid: SystemView|
            0 <= k < pre.len() && #[trigger] exec_all_rel(
                pre.take(k),
                post.take(k),
                s0,
                mid,
                Seq::empty(),
            ) && StatefulAction::try_execute_rel(pre[k], mid, post[k], s1, Err(e)) && post.skip(
                k + 1,
            ) == pre.skip(k + 1),
    }
}

/// Run dependent children in order, stopping at the first failure.
pub fn execute_sequential<A: Action>(
    children: &mut Vec<StatefulAction<A>>,
    sys: &mut System,
) -> (r: Result<(), ActionError>)
    requires
        all_inv(old(children)@),
        old(sys).inv(),
    ensures
        all_inv(final(children)@),
        final(sys).inv(),
        exec_sequential_rel(old(children)@, final(children)@, old(sys)@, final(sys)@, r),
{
    let ghost pre = children@;
    let ghost s0 = sys@;
    let ghost mut states: Seq<SystemView> = seq![s0];
    let ghost mut outs: Seq<Option<ActionError>> = Seq::empty();
    let n = children.len();
    let mut i: usize = 0;
    while i < n
        invariant
            pre == old(children)@,
            s0 == old(sys)@,
            all_inv(children@),
            sys.inv(),
            n == children@.len(),
            pre.len() == n,
            0 <= i <= n,
            forall|j: int| i <= j < n ==> children@[j] == pre[j],
            states.len() == i + 1,
            outs.len() == i,
            states[0] == s0,
            states.last() == sys@,
            exec_all_steps(pre.take(i as int), children@.take(i as int), states, outs),
            collect_errs(outs) == Seq::<ActionError>::empty(),
        decreases n - i,
    {
        let ghost prev_children = children@;
        let ghost prev_outs = outs;
        let ghost prev_states = states;
        let r = children[i].try_execute(sys);
        match r {
            Ok(()) => {
                proof {
                    states = states.push(sys@);
                    outs = outs.push(None);
                    assert(outs.drop_last() =~= prev_outs);
                    assert(collect_errs(outs) =~= Seq::<ActionError>::empty());
                    assert(exec_all_steps(pre.take(i + 1), children@.take(i + 1), states, outs))
                        by {
                        assert forall|j: int| 0 <= j < i + 1 implies
                            #[trigger] StatefulAction::try_execute_rel(
                                pre.take(i + 1)[j],
                                states[j],
                                children@.take(i + 1)[j],
                                states[j + 1],
                                out_to_result(outs[j]),
                            ) by {
                            if j < i {
                                assert(StatefulAction::try_execute_rel(
                                    pre.take(i as int)[j],
                                    prev_states[j],
                                    prev_children.take(i as int)[j],
                                    prev_states[j + 1],
                                    out_to_result(prev_outs[j]),
                                ));
                                assert(children@.take(i + 1)[j] == prev_children.take(
                                    i as int,
                                )[j]);
                            } else {
                                assert(children@.take(i + 1)[j] == children@[i as int]);
                            }
                        }
                    }
                }
            },
            Err(e) => {
                proof {
                    assert(children@.take(i as int) =~= prev_children.take(i as int));
                    assert(exec_all_rel(
                        pre.take(i as int),
                        children@.take(i as int),
                        s0,
                        prev_states.last(),
                        Seq::<ActionError>::empty(),
                    ));
                    assert(StatefulAction::try_execute_rel(
                        pre[i as int],
                        prev_states.last(),
                        children@[i as int],
                        sys@,
                        Err(e),
                    ));
                    assert(children@.skip(i + 1) =~= pre.skip(i + 1));
                    assert(children@.len() == pre.len());
                    assert(exists|k: int, mid: SystemView|
                        0 <= k < pre.len() && #[trigger] exec_all_rel(
                            pre.take(k),
                            children@.take(k),
                            s0,
                            mid,
                            Seq::empty(),
                        ) && StatefulAction::try_execute_rel(
                            pre[k],
                            mid,
                            children@[k],
                            sys@,
                            Err(e),
                        ) && children@.skip(k + 1) == pre.skip(k + 1));
                    assert(exec_sequential_rel(pre, children@, s0, sys@, Err(e)));
                }
                return Err(e);
            },
        }
        i += 1;
    }
    proof {
        assert(pre.take(n as int) =~= pre);
        assert(children@.take(n as int) =~= children@);
        assert(states[pre.len() as int] == sys@);
    }
    Ok(())
}

} // verus!
