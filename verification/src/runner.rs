//! The per-job execution protocol, as a verified state machine.
//!
//! A job moves through `Idle`, the `before` hooks, the backup invocation,
//! the unconditional `after` hooks, then either the `success` or the
//! `failure` hooks, and ends `Done`. The machine only decides; performing a
//! hook or the invocation is the caller's work. Each `step` consumes the
//! event that resolves the current phase and returns the next phase together
//! with the one action to perform in it. The outcome of a hook never
//! influences the machine; only the invocation's classification picks the
//! closing hook branch.

use vstd::prelude::*;
use vstd::string::*;

use crate::config::BackupJob;
use crate::config::opt_strings;

verus! {

/// A lifecycle stage a hook can belong to.
#[derive(Clone, Copy, PartialEq, Eq, Structural, Debug)]
pub enum Stage {
    Before,
    After,
    Success,
    Failure,
}

/// Where a job stands. The `next` counters say how many hooks of the current
/// group have been issued; `succeeded` carries the hook branch picked by the
/// classification.
#[derive(Clone, Copy, PartialEq, Eq, Structural, Debug)]
pub enum Phase {
    Idle,
    RunningBefore { next: usize },
    Invoking,
    RunningAfter { succeeded: bool, next: usize },
    RunningFinal { succeeded: bool, next: usize },
    Done,
}

/// The one thing to do after a step: run a hook, run the backup invocation,
/// or finish the job.
#[derive(Clone, Copy, PartialEq, Eq, Structural, Debug)]
pub enum Action {
    RunHook { stage: Stage, index: usize },
    Invoke,
    Finish,
}

/// What resolved the current phase: the job began, the issued hook finished
/// (well or not), or the invocation finished and was classified onto the
/// success or failure branch.
#[derive(Clone, Copy, PartialEq, Eq, Structural, Debug)]
pub enum Event {
    Begin,
    HookDone { ok: bool },
    InvocationDone { succeeded: bool },
}

/// The hook group of a stage.
pub open spec fn group_of(job: BackupJob, stage: Stage) -> Seq<String> {
    match stage {
        Stage::Before => opt_strings(job.before),
        Stage::After => opt_strings(job.after),
        Stage::Success => opt_strings(job.success),
        Stage::Failure => opt_strings(job.failure),
    }
}

/// The closing stage of a branch: `success` hooks after a clean exit,
/// `failure` hooks otherwise.
pub open spec fn branch_stage(succeeded: bool) -> Stage {
    if succeeded {
        Stage::Success
    } else {
        Stage::Failure
    }
}

/// Entering the `before` group, or skipping straight to the invocation when
/// it is empty.
pub open spec fn begin_before(job: BackupJob) -> (Phase, Action) {
    if group_of(job, Stage::Before).len() > 0 {
        (Phase::RunningBefore { next: 1 }, Action::RunHook { stage: Stage::Before, index: 0 })
    } else {
        (Phase::Invoking, Action::Invoke)
    }
}

/// Entering the closing group of a branch, or finishing when it is empty.
pub open spec fn begin_branch(job: BackupJob, succeeded: bool) -> (Phase, Action) {
    if group_of(job, branch_stage(succeeded)).len() > 0 {
        (
            Phase::RunningFinal { succeeded, next: 1 },
            Action::RunHook { stage: branch_stage(succeeded), index: 0 },
        )
    } else {
        (Phase::Done, Action::Finish)
    }
}

/// Entering the unconditional `after` group, or skipping to the branch group
/// when it is empty.
pub open spec fn begin_after(job: BackupJob, succeeded: bool) -> (Phase, Action) {
    if group_of(job, Stage::After).len() > 0 {
        (
            Phase::RunningAfter { succeeded, next: 1 },
            Action::RunHook { stage: Stage::After, index: 0 },
        )
    } else {
        begin_branch(job, succeeded)
    }
}

/// The transition relation: what phase follows, and which action it issues.
/// An event that does not belong to the phase ends the job.
pub open spec fn spec_step(job: BackupJob, p: Phase, ev: Event) -> (Phase, Action) {
    match (p, ev) {
        (Phase::Idle, Event::Begin) => begin_before(job),
        (Phase::RunningBefore { next }, Event::HookDone { .. }) => {
            if next < group_of(job, Stage::Before).len() {
                (
                    Phase::RunningBefore { next: (next + 1) as usize },
                    Action::RunHook { stage: Stage::Before, index: next },
                )
            } else {
                (Phase::Invoking, Action::Invoke)
            }
        },
        (Phase::Invoking, Event::InvocationDone { succeeded }) => begin_after(job, succeeded),
        (Phase::RunningAfter { succeeded, next }, Event::HookDone { .. }) => {
            if next < group_of(job, Stage::After).len() {
                (
                    Phase::RunningAfter { succeeded, next: (next + 1) as usize },
                    Action::RunHook { stage: Stage::After, index: next },
                )
            } else {
                begin_branch(job, succeeded)
            }
        },
        (Phase::RunningFinal { succeeded, next }, Event::HookDone { .. }) => {
            if next < group_of(job, branch_stage(succeeded)).len() {
                (
                    Phase::RunningFinal { succeeded, next: (next + 1) as usize },
                    Action::RunHook { stage: branch_stage(succeeded), index: next },
                )
            } else {
                (Phase::Done, Action::Finish)
            }
        },
        _ => (Phase::Done, Action::Finish),
    }
}

/// The length of a stage's hook group.
pub fn group_len(job: &BackupJob, stage: Stage) -> (n: usize)
    ensures
        n == group_of(*job, stage).len(),
{
    let g = match stage {
        Stage::Before => &job.before,
        Stage::After => &job.after,
        Stage::Success => &job.success,
        Stage::Failure => &job.failure,
    };
    match g {
        Some(v) => v.len(),
        None => 0,
    }
}

/// One transition of the job's state machine.
pub fn step(job: &BackupJob, p: Phase, ev: Event) -> (r: (Phase, Action))
    ensures
        r == spec_step(*job, p, ev),
{
    match (p, ev) {
        (Phase::Idle, Event::Begin) => {
            if group_len(job, Stage::Before) > 0 {
                (
                    Phase::RunningBefore { next: 1 },
                    Action::RunHook { stage: Stage::Before, index: 0 },
                )
            } else {
                (Phase::Invoking, Action::Invoke)
            }
        },
        (Phase::RunningBefore { next }, Event::HookDone { .. }) => {
            if next < group_len(job, Stage::Before) {
                (
                    Phase::RunningBefore { next: next + 1 },
                    Action::RunHook { stage: Stage::Before, index: next },
                )
            } else {
                (Phase::Invoking, Action::Invoke)
            }
        },
        (Phase::Invoking, Event::InvocationDone { succeeded }) => {
            if group_len(job, Stage::After) > 0 {
                (
                    Phase::RunningAfter { succeeded, next: 1 },
                    Action::RunHook { stage: Stage::After, index: 0 },
                )
            } else {
                enter_branch(job, succeeded)
            }
        },
        (Phase::RunningAfter { succeeded, next }, Event::HookDone { .. }) => {
            if next < group_len(job, Stage::After) {
                (
                    Phase::RunningAfter { succeeded, next: next + 1 },
                    Action::RunHook { stage: Stage::After, index: next },
                )
            } else {
                enter_branch(job, succeeded)
            }
        },
        (Phase::RunningFinal { succeeded, next }, Event::HookDone { .. }) => {
            let st = if succeeded {
                Stage::Success
            } else {
                Stage::Failure
            };
            if next < group_len(job, st) {
                (
                    Phase::RunningFinal { succeeded, next: next + 1 },
                    Action::RunHook { stage: st, index: next },
                )
            } else {
                (Phase::Done, Action::Finish)
            }
        },
        _ => (Phase::Done, Action::Finish),
    }
}

/// Enters the closing branch group.
fn enter_branch(job: &BackupJob, succeeded: bool) -> (r: (Phase, Action))
    ensures
        r == begin_branch(*job, succeeded),
{
    let st = if succeeded {
        Stage::Success
    } else {
        Stage::Failure
    };
    if group_len(job, st) > 0 {
        (Phase::RunningFinal { succeeded, next: 1 }, Action::RunHook { stage: st, index: 0 })
    } else {
        (Phase::Done, Action::Finish)
    }
}

/// The command a hook action names, or `None` when the index is outside the
/// stage's group.
pub fn hook_command<'a>(job: &'a BackupJob, stage: Stage, index: usize) -> (r: Option<&'a String>)
    ensures
        match r {
            Some(c) => (index as int) < group_of(*job, stage).len() && *c == group_of(
                *job,
                stage,
            )[index as int],
            None => (index as int) >= group_of(*job, stage).len(),
        },
{
    let g = match stage {
        Stage::Before => &job.before,
        Stage::After => &job.after,
        Stage::Success => &job.success,
        Stage::Failure => &job.failure,
    };
    match g {
        Some(v) => {
            if index < v.len() {
                Some(&v[index])
            } else {
                None
            }
        },
        None => None,
    }
}

/// One hook to run: its command and the stage label it is logged under.
pub struct HookCall {
    pub cmd: String,
    pub stage: Stage,
}

/// The full schedule of one optional hook group: every command, in the given
/// order, labelled with the stage.
pub fn run_hook_group(hooks: &Option<Vec<String>>, stage: Stage) -> (r: Vec<HookCall>)
    ensures
        r@.len() == opt_strings(*hooks).len(),
        forall|i: int| 0 <= i < r@.len() ==> r@[i].cmd == opt_strings(*hooks)[i],
        forall|i: int| 0 <= i < r@.len() ==> r@[i].stage == stage,
{
    match hooks {
        None => Vec::new(),
        Some(v) => {
            let mut r: Vec<HookCall> = Vec::new();
            let mut i: usize = 0;
            while i < v.len()
                invariant
                    i <= v@.len(),
                    r@.len() == i,
                    forall|j: int| 0 <= j < i ==> r@[j].cmd == v@[j],
                    forall|j: int| 0 <= j < i ==> r@[j].stage == stage,
                decreases v@.len() - i,
            {
                let c = v[i].clone();
                let ghost prev = r@;
                r.push(HookCall { cmd: c, stage });
                proof {
                    assert forall|j: int| 0 <= j < i + 1 implies r@[j].cmd == v@[j] by {
                        if j == i as int {
                            assert(r@[j] == (HookCall { cmd: c, stage }));
                            assert(c == v@[j]);
                        } else {
                            assert(r@[j] == prev[j]);
                        }
                    }
                    assert forall|j: int| 0 <= j < i + 1 implies r@[j].stage == stage by {
                        if j == i as int {
                            assert(r@[j] == (HookCall { cmd: c, stage }));
                        } else {
                            assert(r@[j] == prev[j]);
                        }
                    }
                }
                i += 1;
            }
            r
        },
    }
}

/// The backup tool's binary name.
pub fn backup_program() -> (r: &'static str)
    ensures
        r@ == "restic"@,
{
    "restic"
}

/// The backup invocation's argument vector: repository flag and value, the
/// backup subcommand, the source path, the flag asking for line-delimited
/// JSON output, then any extra arguments appended verbatim.
pub fn backup_args(job: &BackupJob) -> (r: Vec<String>)
    ensures
        r@.len() == 5 + opt_strings(job.extra_args).len(),
        r@[0]@ == "-r"@,
        r@[1] == job.repository,
        r@[2]@ == "backup"@,
        r@[3] == job.source,
        r@[4]@ == "--json"@,
        forall|i: int|
            0 <= i < opt_strings(job.extra_args).len() ==> r@[5 + i] == opt_strings(
                job.extra_args,
            )[i],
{
    let mut r: Vec<String> = Vec::new();
    r.push(String::from_str("-r"));
    r.push(job.repository.clone());
    r.push(String::from_str("backup"));
    r.push(job.source.clone());
    r.push(String::from_str("--json"));
    match &job.extra_args {
        None => {},
        Some(extra) => {
            let mut i: usize = 0;
            while i < extra.len()
                invariant
                    i <= extra@.len(),
                    r@.len() == 5 + i,
                    r@[0]@ == "-r"@,
                    r@[1] == job.repository,
                    r@[2]@ == "backup"@,
                    r@[3] == job.source,
                    r@[4]@ == "--json"@,
                    job.extra_args matches Some(e) && e@ == extra@,
                    forall|j: int| 0 <= j < i ==> r@[5 + j] == extra@[j],
                decreases extra@.len() - i,
            {
                r.push(extra[i].clone());
                i += 1;
            }
        },
    }
    r
}

} // verus!
