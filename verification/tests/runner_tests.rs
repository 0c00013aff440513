use rrrestic::config::BackupJob;
use rrrestic::outcome::InvocationResult;
use rrrestic::outcome::classify;
use rrrestic::outcome::outcome_success_shaped;
use rrrestic::runner::Action;
use rrrestic::runner::Event;
use rrrestic::runner::Phase;
use rrrestic::runner::Stage;
use rrrestic::runner::backup_args;
use rrrestic::runner::backup_program;
use rrrestic::runner::hook_command;
use rrrestic::runner::run_hook_group;
use rrrestic::runner::step;

fn some_cmds(xs: &[&str]) -> Option<Vec<String>> {
    if xs.is_empty() {
        None
    } else {
        Some(xs.iter().map(|s| s.to_string()).collect())
    }
}

fn job(before: &[&str], after: &[&str], success: &[&str], failure: &[&str]) -> BackupJob {
    BackupJob {
        name: "nightly".to_string(),
        repository: "s3:bucket/repo".to_string(),
        source: "/home".to_string(),
        env: None,
        before: some_cmds(before),
        after: some_cmds(after),
        failure: some_cmds(failure),
        success: some_cmds(success),
        extra_args: None,
    }
}

/// Steps the machine through one whole job, answering every hook with
/// `hook_ok` and the invocation with `succeeded`, and collects the actions.
fn drive(job: &BackupJob, succeeded: bool, hook_ok: bool) -> Vec<Action> {
    let mut actions = Vec::new();
    let mut phase = Phase::Idle;
    let mut ev = Event::Begin;
    loop {
        let (next_phase, action) = step(job, phase, ev);
        actions.push(action);
        phase = next_phase;
        match action {
            Action::RunHook { stage, index } => {
                assert!(hook_command(job, stage, index).is_some());
                ev = Event::HookDone { ok: hook_ok };
            },
            Action::Invoke => {
                ev = Event::InvocationDone { succeeded };
            },
            Action::Finish => break,
        }
    }
    assert_eq!(phase, Phase::Done);
    actions
}

fn hook(stage: Stage, index: usize) -> Action {
    Action::RunHook { stage, index }
}

#[test]
fn success_run_issues_every_stage_in_order() {
    let j = job(&["b0", "b1"], &["a0"], &["s0", "s1"], &["f0"]);
    let actions = drive(&j, true, true);
    assert_eq!(
        actions,
        vec![
            hook(Stage::Before, 0),
            hook(Stage::Before, 1),
            Action::Invoke,
            hook(Stage::After, 0),
            hook(Stage::Success, 0),
            hook(Stage::Success, 1),
            Action::Finish,
        ]
    );
}

#[test]
fn failed_run_takes_the_failure_branch() {
    let j = job(&["b0"], &["a0", "a1"], &["s0"], &["f0"]);
    let actions = drive(&j, false, true);
    assert_eq!(
        actions,
        vec![
            hook(Stage::Before, 0),
            Action::Invoke,
            hook(Stage::After, 0),
            hook(Stage::After, 1),
            hook(Stage::Failure, 0),
            Action::Finish,
        ]
    );
}

#[test]
fn empty_groups_are_skipped() {
    let j = job(&[], &[], &[], &[]);
    assert_eq!(drive(&j, true, true), vec![Action::Invoke, Action::Finish]);
    assert_eq!(drive(&j, false, true), vec![Action::Invoke, Action::Finish]);
}

#[test]
fn failing_hooks_skip_nothing() {
    let j = job(&["b0", "b1"], &["a0"], &["s0"], &["f0"]);
    assert_eq!(drive(&j, true, false), drive(&j, true, true));
    assert_eq!(drive(&j, false, false), drive(&j, false, true));
}

#[test]
fn after_hooks_run_once_on_every_branch() {
    let j = job(&[], &["a0", "a1"], &["s0"], &["f0"]);
    for succeeded in [true, false] {
        let actions = drive(&j, succeeded, true);
        let after_count = actions
            .iter()
            .filter(|a| matches!(a, Action::RunHook { stage: Stage::After, .. }))
            .count();
        assert_eq!(after_count, 2);
    }
}

#[test]
fn three_jobs_run_fully_when_the_middle_launch_fails() {
    let jobs = vec![
        job(&["b"], &["a"], &["s"], &["f"]),
        job(&["b"], &["a"], &["s"], &["f"]),
        job(&["b"], &["a"], &["s"], &["f"]),
    ];
    let results = vec![
        InvocationResult::Exited {
            exit_zero: true,
            status: "exit status: 0".to_string(),
            stdout: b"{}".to_vec(),
            stderr: Vec::new(),
        },
        InvocationResult::LaunchFailed { message: "no such binary".to_string() },
        InvocationResult::Exited {
            exit_zero: true,
            status: "exit status: 0".to_string(),
            stdout: b"{}".to_vec(),
            stderr: Vec::new(),
        },
    ];
    let mut branches = Vec::new();
    let mut traces = Vec::new();
    for (j, r) in jobs.iter().zip(results.into_iter()) {
        let succeeded = outcome_success_shaped(&classify(r));
        branches.push(succeeded);
        traces.push(drive(j, succeeded, true));
    }
    assert_eq!(branches, vec![true, false, true]);
    let success_trace = vec![
        hook(Stage::Before, 0),
        Action::Invoke,
        hook(Stage::After, 0),
        hook(Stage::Success, 0),
        Action::Finish,
    ];
    let failure_trace = vec![
        hook(Stage::Before, 0),
        Action::Invoke,
        hook(Stage::After, 0),
        hook(Stage::Failure, 0),
        Action::Finish,
    ];
    assert_eq!(traces[0], success_trace);
    assert_eq!(traces[1], failure_trace);
    assert_eq!(traces[2], success_trace);
}

#[test]
fn hook_groups_expand_in_order() {
    let hooks = some_cmds(&["first", "second"]);
    let calls = run_hook_group(&hooks, Stage::After);
    assert_eq!(calls.len(), 2);
    assert_eq!(calls[0].cmd, "first");
    assert_eq!(calls[0].stage, Stage::After);
    assert_eq!(calls[1].cmd, "second");
    assert_eq!(calls[1].stage, Stage::After);
    assert_eq!(run_hook_group(&None, Stage::Before).len(), 0);
}

#[test]
fn hook_commands_are_looked_up_by_stage_and_index() {
    let j = job(&["b0"], &[], &["s0"], &[]);
    assert_eq!(hook_command(&j, Stage::Before, 0).map(String::as_str), Some("b0"));
    assert_eq!(hook_command(&j, Stage::Before, 1), None);
    assert_eq!(hook_command(&j, Stage::Success, 0).map(String::as_str), Some("s0"));
    assert_eq!(hook_command(&j, Stage::After, 0), None);
}

#[test]
fn backup_invocation_arguments_are_exact() {
    let mut j = job(&[], &[], &[], &[]);
    j.extra_args = some_cmds(&["--tag", "nightly"]);
    assert_eq!(backup_program(), "restic");
    assert_eq!(
        backup_args(&j),
        vec!["-r", "s3:bucket/repo", "backup", "/home", "--json", "--tag", "nightly"]
    );
}
