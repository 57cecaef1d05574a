use concurrently::config::{
    CargoTaskOptions, Command, ShellTaskOptions, TaskOptions, TaskTypeOptions,
};
use concurrently::executor::ExitOutcome;
use concurrently::schedule::{exit_code, Event, Phase, PrepareOutcome, Scheduled, SpinnerEnd};
use concurrently::style::Hue;
use concurrently::task::{PrepareStep, Task, Verdict};

fn task(prepare: Option<&str>, cargo: bool, retries: usize) -> Task {
    colored::control::set_override(false);
    let task_options = if cargo {
        TaskTypeOptions::Cargo(CargoTaskOptions { release: false, features: vec![] })
    } else {
        TaskTypeOptions::Shell(ShellTaskOptions { command: Command::String("true".to_string()) })
    };
    let options =
        TaskOptions { task_options, prepare: prepare.map(|p| p.to_string()), delay: None, retries };
    Task::from_options("t".to_string(), Hue::Green, 0, options, "/x".to_string())
}

#[test]
fn phases_follow_the_diagram() {
    let edges = [
        (Phase::Pending, Event::PrepareStarted, Phase::Preparing),
        (Phase::Preparing, Event::PrepareFinished { passed: true }, Phase::Prepared),
        (Phase::Preparing, Event::PrepareFinished { passed: false }, Phase::PrepareFailed),
        (Phase::Pending, Event::RunStarted, Phase::Running),
        (Phase::Prepared, Event::RunStarted, Phase::Running),
        (Phase::Retrying, Event::RunStarted, Phase::Running),
        (Phase::Running, Event::RunFinished { succeeded: true }, Phase::Succeeded),
        (Phase::Running, Event::RunFinished { succeeded: false }, Phase::Failed),
        (Phase::Failed, Event::RetryGranted, Phase::Retrying),
        (Phase::Failed, Event::RetryDenied, Phase::Aborted),
    ];
    let phases =
        [Phase::Pending, Phase::Preparing, Phase::PrepareFailed, Phase::Prepared, Phase::Running, Phase::Succeeded, Phase::Failed, Phase::Retrying, Phase::Aborted];
    let events = [
        Event::PrepareStarted,
        Event::PrepareFinished { passed: true },
        Event::PrepareFinished { passed: false },
        Event::RunStarted,
        Event::RunFinished { succeeded: true },
        Event::RunFinished { succeeded: false },
        Event::RetryGranted,
        Event::RetryDenied,
    ];
    for phase in phases {
        for event in events {
            let expected =
                edges.iter().find(|(p, e, _)| *p == phase && *e == event).map(|(_, _, n)| *n);
            assert_eq!(phase.next(event), expected);
        }
    }
}

#[test]
fn terminal_phases_have_no_way_out() {
    for phase in [Phase::PrepareFailed, Phase::Succeeded, Phase::Aborted] {
        assert!(phase.is_terminal());
    }
    for phase in [Phase::Pending, Phase::Preparing, Phase::Prepared, Phase::Running, Phase::Failed, Phase::Retrying] {
        assert!(!phase.is_terminal());
    }
}

#[test]
fn a_task_without_preparation_goes_from_pending_to_running_to_succeeded() {
    let mut scheduled = Scheduled::new(task(None, false, 0));
    assert_eq!(scheduled.phase, Phase::Pending);
    assert_eq!(scheduled.start_prepare(), None);
    assert_eq!(scheduled.phase, Phase::Pending);
    let line = scheduled.start_run().unwrap();
    assert_eq!(line, vec!["/x", "--fake-tty", "sh", "-c", "true"]);
    assert_eq!(scheduled.phase, Phase::Running);
    assert_eq!(scheduled.finish_run(true, true), Some(Verdict::Succeeded));
    assert_eq!(scheduled.phase, Phase::Succeeded);
    assert_eq!(exit_code(&vec![scheduled.phase]), 0);
}

#[test]
fn a_run_of_successes_exits_with_zero() {
    let mut phases = Vec::new();
    for _ in 0..4 {
        let mut scheduled = Scheduled::new(task(None, false, 0));
        assert!(scheduled.start_run().is_some());
        assert_eq!(scheduled.finish_run(true, true), Some(Verdict::Succeeded));
        phases.push(scheduled.phase);
    }
    assert_eq!(phases, vec![Phase::Succeeded; 4]);
    assert_eq!(exit_code(&phases), 0);
    assert_eq!(exit_code(&Vec::new()), 0);
}

#[test]
fn a_prepared_task_passes_through_preparing() {
    let mut scheduled = Scheduled::new(task(Some("make"), false, 0));
    let first = scheduled.start_prepare();
    assert_eq!(
        first,
        Some(PrepareStep::Command(
            ["/x", "--fake-tty", "sh", "-c", "make"].iter().map(|w| w.to_string()).collect()
        ))
    );
    assert_eq!(scheduled.phase, Phase::Preparing);
    assert_eq!(scheduled.start_prepare(), None);
    assert_eq!(scheduled.start_run(), None);
    assert!(scheduled.finish_prepare(PrepareOutcome::Finished(ExitOutcome::Success)));
    assert_eq!(scheduled.phase, Phase::Prepared);
    assert!(scheduled.start_run().is_some());
    assert_eq!(scheduled.phase, Phase::Running);
}

#[test]
fn a_failed_preparation_is_final() {
    for outcome in [
        PrepareOutcome::Finished(ExitOutcome::Failed(2)),
        PrepareOutcome::Finished(ExitOutcome::Signaled),
        PrepareOutcome::SpawnFailed,
    ] {
        let mut scheduled = Scheduled::new(task(None, true, 3));
        assert!(matches!(scheduled.start_prepare(), Some(PrepareStep::Build(_))));
        assert!(!scheduled.finish_prepare(outcome));
        assert_eq!(scheduled.phase, Phase::PrepareFailed);
        assert_eq!(scheduled.start_run(), None);
        assert_eq!(scheduled.finish_run(false, true), None);
        assert_eq!(exit_code(&vec![Phase::Succeeded, scheduled.phase]), 1);
    }
}

#[test]
fn a_preparation_result_outside_preparing_changes_no_phase() {
    let mut scheduled = Scheduled::new(task(None, false, 0));
    assert!(!scheduled.finish_prepare(PrepareOutcome::SpawnFailed));
    assert_eq!(scheduled.phase, Phase::Pending);
    assert!(scheduled.finish_prepare(PrepareOutcome::Skipped));
    assert_eq!(scheduled.phase, Phase::Pending);
}

#[test]
fn a_failing_task_is_retried_and_then_aborted() {
    let mut scheduled = Scheduled::new(task(None, false, 1));
    let mut pauses = Vec::new();
    let mut attempts = 0;
    loop {
        assert!(scheduled.start_run().is_some());
        attempts += 1;
        match scheduled.finish_run(false, true).unwrap() {
            Verdict::Retry { sleep_secs } => {
                assert_eq!(scheduled.phase, Phase::Retrying);
                pauses.push(sleep_secs);
            }
            verdict => {
                assert_eq!(verdict, Verdict::Abort { exit_code: 1 });
                break;
            }
        }
    }
    assert_eq!(attempts, 3);
    assert_eq!(pauses, vec![1, 2]);
    assert_eq!(scheduled.phase, Phase::Aborted);
    assert_eq!(scheduled.task.retries, 2);
    assert_eq!(exit_code(&vec![scheduled.phase]), 1);
}

#[test]
fn a_task_that_recovers_succeeds() {
    let mut scheduled = Scheduled::new(task(None, false, 3));
    assert!(scheduled.start_run().is_some());
    assert_eq!(scheduled.finish_run(false, true), Some(Verdict::Retry { sleep_secs: 1 }));
    assert!(scheduled.start_run().is_some());
    assert_eq!(scheduled.finish_run(true, true), Some(Verdict::Succeeded));
    assert_eq!(scheduled.phase, Phase::Succeeded);
    assert_eq!(scheduled.task.retries, 1);
}

#[test]
fn nothing_is_decided_for_a_task_that_is_not_running() {
    let mut scheduled = Scheduled::new(task(None, false, 3));
    let before = scheduled.task.clone();
    assert_eq!(scheduled.finish_run(false, true), None);
    assert_eq!(scheduled.phase, Phase::Pending);
    assert_eq!(scheduled.task, before);
    scheduled.task.retries = usize::MAX;
    assert!(scheduled.start_run().is_some());
    assert_eq!(scheduled.finish_run(false, true), None);
    assert_eq!(scheduled.phase, Phase::Running);
}

#[test]
fn without_fail_fast_an_exhausted_task_is_given_up() {
    let mut scheduled = Scheduled::new(task(None, false, 0));
    assert!(scheduled.start_run().is_some());
    assert_eq!(scheduled.finish_run(false, false), Some(Verdict::Retry { sleep_secs: 1 }));
    assert!(scheduled.start_run().is_some());
    assert_eq!(scheduled.finish_run(false, false), Some(Verdict::GiveUp));
    assert_eq!(scheduled.phase, Phase::Aborted);
}

#[test]
fn preparation_outcomes_pass_or_fail() {
    assert!(PrepareOutcome::Skipped.passed());
    assert!(PrepareOutcome::Finished(ExitOutcome::Success).passed());
    assert!(!PrepareOutcome::Finished(ExitOutcome::Failed(1)).passed());
    assert!(!PrepareOutcome::Finished(ExitOutcome::Signaled).passed());
    assert!(!PrepareOutcome::SpawnFailed.passed());
    assert_eq!(PrepareOutcome::from_result(None), PrepareOutcome::Skipped);
    assert_eq!(
        PrepareOutcome::from_result(Some(ExitOutcome::Failed(3))),
        PrepareOutcome::Finished(ExitOutcome::Failed(3))
    );
}

#[test]
fn status_lines_are_closed_by_outcome() {
    assert_eq!(PrepareOutcome::Skipped.spinner_end(), SpinnerEnd::Clear);
    assert_eq!(
        PrepareOutcome::Finished(ExitOutcome::Success).spinner_end(),
        SpinnerEnd::Message("done".to_string())
    );
    assert_eq!(
        PrepareOutcome::Finished(ExitOutcome::Failed(101)).spinner_end(),
        SpinnerEnd::Message("failed with exit code 101".to_string())
    );
    assert_eq!(
        PrepareOutcome::Finished(ExitOutcome::Failed(-2)).spinner_end(),
        SpinnerEnd::Message("failed with exit code -2".to_string())
    );
    assert_eq!(
        PrepareOutcome::Finished(ExitOutcome::Signaled).spinner_end(),
        SpinnerEnd::Message("failed".to_string())
    );
    assert_eq!(PrepareOutcome::SpawnFailed.spinner_end(), SpinnerEnd::Plain);
}

#[test]
fn the_exit_code_is_one_after_any_failure() {
    assert_eq!(exit_code(&vec![Phase::Succeeded, Phase::Aborted, Phase::Succeeded]), 1);
    assert_eq!(exit_code(&vec![Phase::PrepareFailed]), 1);
    assert_eq!(exit_code(&vec![Phase::Succeeded, Phase::Running, Phase::Pending]), 0);
}
