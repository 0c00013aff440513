//! Whole-run behaviour of the job state machine.
//!
//! A run is the sequence of actions a driver obtains by stepping the machine
//! from `Idle` to `Done`, feeding back each action's completion event.
//! `job_trace` is that sequence in closed form, and `lemma_step_extends_trace`
//! shows that every step appends exactly its action to it, so any complete
//! run issues exactly the actions of `job_trace`. The hook-lifecycle laws are
//! then proved of `job_trace` itself.

use vstd::prelude::*;

use crate::config::BackupJob;
use crate::runner::Action;
use crate::runner::Event;
use crate::runner::Phase;
use crate::runner::Stage;
use crate::runner::branch_stage;
use crate::runner::group_of;
use crate::runner::spec_step;

verus! {

broadcast use vstd::std_specs::vec::axiom_spec_len;

/// The first `n` hook actions of a stage, in order.
pub open spec fn hook_actions(stage: Stage, n: nat) -> Seq<Action> {
    Seq::new(n, |i: int| Action::RunHook { stage, index: i as usize })
}

/// Every action of a whole job run whose invocation classifies onto branch
/// `sb`: the `before` hooks, the invocation, the `after` hooks, the branch's
/// closing hooks, then finishing.
pub open spec fn job_trace(job: BackupJob, sb: bool) -> Seq<Action> {
    hook_actions(Stage::Before, group_of(job, Stage::Before).len()) + seq![Action::Invoke]
        + hook_actions(Stage::After, group_of(job, Stage::After).len()) + hook_actions(
        branch_stage(sb),
        group_of(job, branch_stage(sb)).len(),
    ) + seq![Action::Finish]
}

/// The actions already issued when the machine stands at a phase, in a run
/// classified onto branch `sb`.
pub open spec fn emitted(job: BackupJob, p: Phase, sb: bool) -> Seq<Action> {
    let pre = hook_actions(Stage::Before, group_of(job, Stage::Before).len()) + seq![
        Action::Invoke,
    ];
    match p {
        Phase::Idle => Seq::empty(),
        Phase::RunningBefore { next } => hook_actions(Stage::Before, next as nat),
        Phase::Invoking => pre,
        Phase::RunningAfter { succeeded, next } => pre + hook_actions(Stage::After, next as nat),
        Phase::RunningFinal { succeeded, next } => pre + hook_actions(
            Stage::After,
            group_of(job, Stage::After).len(),
        ) + hook_actions(branch_stage(succeeded), next as nat),
        Phase::Done => job_trace(job, sb),
    }
}

/// A phase's hook counter stays within its group.
pub open spec fn phase_wf(job: BackupJob, p: Phase) -> bool {
    match p {
        Phase::RunningBefore { next } => next <= group_of(job, Stage::Before).len(),
        Phase::RunningAfter { next, .. } => next <= group_of(job, Stage::After).len(),
        Phase::RunningFinal { succeeded, next } => next <= group_of(
            job,
            branch_stage(succeeded),
        ).len(),
        _ => true,
    }
}

/// The branch a phase has committed to agrees with the run's branch.
pub open spec fn phase_on_branch(p: Phase, sb: bool) -> bool {
    match p {
        Phase::RunningAfter { succeeded, .. } => succeeded == sb,
        Phase::RunningFinal { succeeded, .. } => succeeded == sb,
        _ => true,
    }
}

/// The event kind that resolves a phase.
pub open spec fn event_fits(p: Phase, ev: Event) -> bool {
    match (p, ev) {
        (Phase::Idle, Event::Begin) => true,
        (Phase::RunningBefore { .. }, Event::HookDone { .. }) => true,
        (Phase::Invoking, Event::InvocationDone { .. }) => true,
        (Phase::RunningAfter { .. }, Event::HookDone { .. }) => true,
        (Phase::RunningFinal { .. }, Event::HookDone { .. }) => true,
        _ => false,
    }
}

/// Each step of a run appends exactly the action it issues: stepping a
/// well-formed, unfinished phase with its fitting event keeps the phase
/// well-formed, keeps it on the run's branch, and extends the issued actions
/// by the one returned action. At `Done` the issued actions are the whole
/// `job_trace`.
pub proof fn lemma_step_extends_trace(job: BackupJob, p: Phase, ev: Event, sb: bool)
    requires
        phase_wf(job, p),
        !(p is Done),
        event_fits(p, ev),
        phase_on_branch(p, sb),
        ev matches Event::InvocationDone { succeeded } ==> succeeded == sb,
    ensures
        phase_wf(job, spec_step(job, p, ev).0),
        phase_on_branch(spec_step(job, p, ev).0, sb),
        emitted(job, spec_step(job, p, ev).0, sb) == emitted(job, p, sb).push(
            spec_step(job, p, ev).1,
        ),
{
    lemma_group_len_bound(job, Stage::Before);
    lemma_group_len_bound(job, Stage::After);
    lemma_group_len_bound(job, branch_stage(sb));
    let blen = group_of(job, Stage::Before).len();
    let alen = group_of(job, Stage::After).len();
    let flen = group_of(job, branch_stage(sb)).len();
    let p2 = spec_step(job, p, ev).0;
    let a = spec_step(job, p, ev).1;
    let pre = hook_actions(Stage::Before, blen) + seq![Action::Invoke];
    match (p, ev) {
        (Phase::Idle, Event::Begin) => {
            if blen > 0 {
                assert(emitted(job, p2, sb) =~= emitted(job, p, sb).push(a));
            } else {
                assert(emitted(job, p2, sb) =~= emitted(job, p, sb).push(a));
            }
        },
        (Phase::RunningBefore { next }, Event::HookDone { .. }) => {
            if next < blen {
                assert(hook_actions(Stage::Before, (next + 1) as nat) =~= hook_actions(
                    Stage::Before,
                    next as nat,
                ).push(Action::RunHook { stage: Stage::Before, index: next }));
            } else {
                assert(hook_actions(Stage::Before, next as nat) =~= hook_actions(
                    Stage::Before,
                    blen,
                ));
                assert(emitted(job, p2, sb) =~= emitted(job, p, sb).push(a));
            }
        },
        (Phase::Invoking, Event::InvocationDone { succeeded }) => {
            if alen > 0 {
                assert(emitted(job, p2, sb) =~= emitted(job, p, sb).push(a));
            } else if flen > 0 {
                assert(hook_actions(Stage::After, 0) =~= Seq::<Action>::empty());
                assert(emitted(job, p2, sb) =~= pre + hook_actions(Stage::After, 0)
                    + hook_actions(branch_stage(sb), 1));
                assert(emitted(job, p2, sb) =~= emitted(job, p, sb).push(a));
            } else {
                assert(emitted(job, p2, sb) =~= emitted(job, p, sb).push(a));
            }
        },
        (Phase::RunningAfter { succeeded, next }, Event::HookDone { .. }) => {
            if next < alen {
                assert(hook_actions(Stage::After, (next + 1) as nat) =~= hook_actions(
                    Stage::After,
                    next as nat,
                ).push(Action::RunHook { stage: Stage::After, index: next }));
                assert(emitted(job, p2, sb) =~= emitted(job, p, sb).push(a));
            } else {
                assert(hook_actions(Stage::After, next as nat) =~= hook_actions(
                    Stage::After,
                    alen,
                ));
                if flen > 0 {
                    assert(emitted(job, p2, sb) =~= pre + hook_actions(Stage::After, alen)
                        + hook_actions(branch_stage(sb), 1));
                    assert(emitted(job, p2, sb) =~= emitted(job, p, sb).push(a));
                } else {
                    assert(emitted(job, p2, sb) =~= emitted(job, p, sb).push(a));
                }
            }
        },
        (Phase::RunningFinal { succeeded, next }, Event::HookDone { .. }) => {
            if next < flen {
                assert(hook_actions(branch_stage(sb), (next + 1) as nat) =~= hook_actions(
                    branch_stage(sb),
                    next as nat,
                ).push(Action::RunHook { stage: branch_stage(sb), index: next }));
                assert(emitted(job, p2, sb) =~= emitted(job, p, sb).push(a));
            } else {
                assert(hook_actions(branch_stage(sb), next as nat) =~= hook_actions(
                    branch_stage(sb),
                    flen,
                ));
                assert(emitted(job, p2, sb) =~= emitted(job, p, sb).push(a));
            }
        },
        _ => {
            // excluded by `event_fits`
            assert(false);
        },
    }
}

/// How often an action occurs in a sequence.
pub open spec fn count_matching(s: Seq<Action>, a: Action) -> nat
    decreases s.len(),
{
    if s.len() == 0 {
        0
    } else {
        count_matching(s.drop_last(), a) + if s.last() == a {
            1nat
        } else {
            0nat
        }
    }
}

pub proof fn lemma_count_concat(s: Seq<Action>, t: Seq<Action>, a: Action)
    ensures
        count_matching(s + t, a) == count_matching(s, a) + count_matching(t, a),
    decreases t.len(),
{
    if t.len() == 0 {
        assert(s + t =~= s);
    } else {
        assert((s + t).drop_last() =~= s + t.drop_last());
        lemma_count_concat(s, t.drop_last(), a);
        assert((s + t).last() == t.last());
    }
}

pub proof fn lemma_count_single(x: Action, a: Action)
    ensures
        count_matching(seq![x], a) == if x == a {
            1nat
        } else {
            0nat
        },
{
    assert(count_matching(Seq::<Action>::empty(), a) == 0);
    assert(seq![x].drop_last() =~= Seq::<Action>::empty());
    assert(seq![x].last() == x);
}

/// Whether an action is a hook of the given stage with index below `n`.
pub open spec fn hook_action_in(st: Stage, n: nat, a: Action) -> bool {
    a matches Action::RunHook { stage, index } && stage == st && (index as nat) < n
}

/// Whether an action is a hook of the given stage.
pub open spec fn is_stage_hook(a: Action, st: Stage) -> bool {
    a matches Action::RunHook { stage, .. } && stage == st
}

pub proof fn lemma_count_hook_actions(st: Stage, n: nat, a: Action)
    requires
        n <= usize::MAX,
    ensures
        count_matching(hook_actions(st, n), a) == if hook_action_in(st, n, a) {
            1nat
        } else {
            0nat
        },
    decreases n,
{
    if n == 0 {
        assert(hook_actions(st, 0) =~= Seq::<Action>::empty());
    } else {
        assert(hook_actions(st, n).drop_last() =~= hook_actions(st, (n - 1) as nat));
        lemma_count_hook_actions(st, (n - 1) as nat, a);
        assert(hook_actions(st, n).last() == (Action::RunHook {
            stage: st,
            index: (n - 1) as usize,
        }));
    }
}

/// A hook group's length fits the machine's hook counters.
pub proof fn lemma_group_len_bound(job: BackupJob, st: Stage)
    ensures
        group_of(job, st).len() <= usize::MAX,
{
    let g = match st {
        Stage::Before => job.before,
        Stage::After => job.after,
        Stage::Success => job.success,
        Stage::Failure => job.failure,
    };
    match g {
        Some(v) => {
            assert(v@.len() == vstd::std_specs::vec::spec_vec_len(&v));
        },
        None => {},
    }
}

/// The count of an action over a whole run, segment by segment.
pub proof fn lemma_trace_count(job: BackupJob, sb: bool, a: Action)
    ensures
        count_matching(job_trace(job, sb), a) == count_matching(
            hook_actions(Stage::Before, group_of(job, Stage::Before).len()),
            a,
        ) + count_matching(seq![Action::Invoke], a) + count_matching(
            hook_actions(Stage::After, group_of(job, Stage::After).len()),
            a,
        ) + count_matching(
            hook_actions(branch_stage(sb), group_of(job, branch_stage(sb)).len()),
            a,
        ) + count_matching(seq![Action::Finish], a),
{
    let b = hook_actions(Stage::Before, group_of(job, Stage::Before).len());
    let iv = seq![Action::Invoke];
    let af = hook_actions(Stage::After, group_of(job, Stage::After).len());
    let fl = hook_actions(branch_stage(sb), group_of(job, branch_stage(sb)).len());
    let fi = seq![Action::Finish];
    lemma_count_concat(b, iv, a);
    lemma_count_concat(b + iv, af, a);
    lemma_count_concat(b + iv + af, fl, a);
    lemma_count_concat(b + iv + af + fl, fi, a);
}

/// In every complete run, whatever the outcome branch, each `after` hook is
/// issued exactly once, and no `after` hook outside the group is ever
/// issued.
pub proof fn lemma_after_hooks_exactly_once(job: BackupJob, sb: bool)
    ensures
        forall|i: usize|
            (i as nat) < group_of(job, Stage::After).len() ==> count_matching(
                job_trace(job, sb),
                (Action::RunHook { stage: Stage::After, index: i }),
            ) == 1,
        forall|i: usize|
            (i as nat) >= group_of(job, Stage::After).len() ==> count_matching(
                job_trace(job, sb),
                (Action::RunHook { stage: Stage::After, index: i }),
            ) == 0,
{
    lemma_group_len_bound(job, Stage::Before);
    lemma_group_len_bound(job, Stage::After);
    lemma_group_len_bound(job, branch_stage(sb));
    assert forall|i: usize|
        count_matching(job_trace(job, sb), (Action::RunHook { stage: Stage::After, index: i }))
            == if (i as nat) < group_of(job, Stage::After).len() {
            1nat
        } else {
            0nat
        } by {
        let a = Action::RunHook { stage: Stage::After, index: i };
        lemma_trace_count(job, sb, a);
        lemma_count_hook_actions(Stage::Before, group_of(job, Stage::Before).len(), a);
        lemma_count_hook_actions(Stage::After, group_of(job, Stage::After).len(), a);
        lemma_count_hook_actions(branch_stage(sb), group_of(job, branch_stage(sb)).len(), a);
        lemma_count_single(Action::Invoke, a);
        lemma_count_single(Action::Finish, a);
    }
}

/// In every complete run, each `before` hook is issued at most once, the
/// action right after the `before` group is the invocation itself, and no
/// `before` hook is issued from the invocation on.
pub proof fn lemma_before_hooks_precede_invocation(job: BackupJob, sb: bool)
    ensures
        forall|i: usize|
            count_matching(
                job_trace(job, sb),
                (Action::RunHook { stage: Stage::Before, index: i }),
            ) <= 1,
        job_trace(job, sb)[group_of(job, Stage::Before).len() as int] == Action::Invoke,
        forall|j: int|
            0 <= j < job_trace(job, sb).len() && is_stage_hook(job_trace(job, sb)[j], Stage::Before)
                ==> j < group_of(job, Stage::Before).len(),
{
    let blen = group_of(job, Stage::Before).len();
    let alen = group_of(job, Stage::After).len();
    let flen = group_of(job, branch_stage(sb)).len();
    lemma_group_len_bound(job, Stage::Before);
    lemma_group_len_bound(job, Stage::After);
    lemma_group_len_bound(job, branch_stage(sb));
    assert forall|i: usize|
        count_matching(job_trace(job, sb), (Action::RunHook { stage: Stage::Before, index: i }))
            <= 1 by {
        let a = Action::RunHook { stage: Stage::Before, index: i };
        lemma_trace_count(job, sb, a);
        lemma_count_hook_actions(Stage::Before, blen, a);
        lemma_count_hook_actions(Stage::After, alen, a);
        lemma_count_hook_actions(branch_stage(sb), flen, a);
        lemma_count_single(Action::Invoke, a);
        lemma_count_single(Action::Finish, a);
    }
    let t = job_trace(job, sb);
    assert(t[blen as int] == Action::Invoke);
    assert forall|j: int|
        0 <= j < t.len() && is_stage_hook(t[j], Stage::Before) implies j < blen by {
        if j >= blen {
            if j == blen {
                assert(t[j] == Action::Invoke);
            } else if j < blen + 1 + alen {
                assert(t[j] == hook_actions(Stage::After, alen)[j - blen - 1]);
            } else if j < blen + 1 + alen + flen {
                assert(t[j] == hook_actions(branch_stage(sb), flen)[j - blen - 1 - alen]);
            } else {
                assert(t[j] == Action::Finish);
            }
        }
    }
}

/// On the success branch every `success` hook is issued exactly once and no
/// `failure` hook is ever issued.
pub proof fn lemma_success_branch_hooks(job: BackupJob)
    ensures
        forall|i: usize|
            (i as nat) < group_of(job, Stage::Success).len() ==> count_matching(
                job_trace(job, true),
                (Action::RunHook { stage: Stage::Success, index: i }),
            ) == 1,
        forall|i: usize|
            count_matching(
                job_trace(job, true),
                (Action::RunHook { stage: Stage::Failure, index: i }),
            ) == 0,
{
    lemma_group_len_bound(job, Stage::Before);
    lemma_group_len_bound(job, Stage::After);
    lemma_group_len_bound(job, Stage::Success);
    assert forall|i: usize, st: Stage|
        st == Stage::Success || st == Stage::Failure implies count_matching(
        job_trace(job, true),
        (Action::RunHook { stage: st, index: i }),
    ) == if st == Stage::Success && (i as nat) < group_of(job, Stage::Success).len() {
        1nat
    } else {
        0nat
    } by {
        let a = Action::RunHook { stage: st, index: i };
        lemma_trace_count(job, true, a);
        lemma_count_hook_actions(Stage::Before, group_of(job, Stage::Before).len(), a);
        lemma_count_hook_actions(Stage::After, group_of(job, Stage::After).len(), a);
        lemma_count_hook_actions(Stage::Success, group_of(job, Stage::Success).len(), a);
        lemma_count_single(Action::Invoke, a);
        lemma_count_single(Action::Finish, a);
    }
}

/// On the failure branch every `failure` hook is issued exactly once and no
/// `success` hook is ever issued.
pub proof fn lemma_failure_branch_hooks(job: BackupJob)
    ensures
        forall|i: usize|
            (i as nat) < group_of(job, Stage::Failure).len() ==> count_matching(
                job_trace(job, false),
                (Action::RunHook { stage: Stage::Failure, index: i }),
            ) == 1,
        forall|i: usize|
            count_matching(
                job_trace(job, false),
                (Action::RunHook { stage: Stage::Success, index: i }),
            ) == 0,
{
    lemma_group_len_bound(job, Stage::Before);
    lemma_group_len_bound(job, Stage::After);
    lemma_group_len_bound(job, Stage::Failure);
    assert forall|i: usize, st: Stage|
        st == Stage::Success || st == Stage::Failure implies count_matching(
        job_trace(job, false),
        (Action::RunHook { stage: st, index: i }),
    ) == if st == Stage::Failure && (i as nat) < group_of(job, Stage::Failure).len() {
        1nat
    } else {
        0nat
    } by {
        let a = Action::RunHook { stage: st, index: i };
        lemma_trace_count(job, false, a);
        lemma_count_hook_actions(Stage::Before, group_of(job, Stage::Before).len(), a);
        lemma_count_hook_actions(Stage::After, group_of(job, Stage::After).len(), a);
        lemma_count_hook_actions(Stage::Failure, group_of(job, Stage::Failure).len(), a);
        lemma_count_single(Action::Invoke, a);
        lemma_count_single(Action::Finish, a);
    }
}

/// How a hook run went never changes the machine's course: the transition on
/// a finished hook is the same whether the hook succeeded or failed, so a
/// failing hook can never skip the hooks after it.
pub proof fn lemma_hook_result_never_changes_flow(job: BackupJob, p: Phase, ok1: bool, ok2: bool)
    ensures
        spec_step(job, p, (Event::HookDone { ok: ok1 })) == spec_step(
            job,
            p,
            (Event::HookDone { ok: ok2 }),
        ),
{
}

} // verus!
