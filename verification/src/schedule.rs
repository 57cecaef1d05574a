//! The life of a task within a run: the phases it passes through, what the
//! end of a preparation or of an attempt leads to, and how the run ends.

use crate::executor::ExitOutcome;
use crate::task::{verdict_of, PrepareStage, PrepareStep, Task, Verdict};
use crate::text::{signed_decimal, signed_decimal_string, views};
use vstd::prelude::*;

verus! {

/// Where a task stands.
#[derive(Clone, Copy, Debug, PartialEq, Eq, Structural)]
pub enum Phase {
    Pending,
    Preparing,
    PrepareFailed,
    Prepared,
    Running,
    Succeeded,
    Failed,
    Retrying,
    Aborted,
}

/// What happens to a task.
#[derive(Clone, Copy, Debug, PartialEq, Eq, Structural)]
pub enum Event {
    /// Its preparation was started.
    PrepareStarted,
    /// Its preparation ended, well or not.
    PrepareFinished { passed: bool },
    /// It was started.
    RunStarted,
    /// The attempt ended, with success or without.
    RunFinished { succeeded: bool },
    /// After a failure, another attempt was granted.
    RetryGranted,
    /// After a failure, no attempt was left.
    RetryDenied,
}

/// The phase that `event` leads to from `phase`, where it can happen there.
/// A task with nothing to prepare goes from `Pending` straight to `Running`.
pub open spec fn step(phase: Phase, event: Event) -> Option<Phase> {
    match (phase, event) {
        (Phase::Pending, Event::PrepareStarted) => Some(Phase::Preparing),
        (Phase::Preparing, Event::PrepareFinished { passed }) => Some(
            if passed {
                Phase::Prepared
            } else {
                Phase::PrepareFailed
            },
        ),
        (Phase::Pending, Event::RunStarted) => Some(Phase::Running),
        (Phase::Prepared, Event::RunStarted) => Some(Phase::Running),
        (Phase::Retrying, Event::RunStarted) => Some(Phase::Running),
        (Phase::Running, Event::RunFinished { succeeded }) => Some(
            if succeeded {
                Phase::Succeeded
            } else {
                Phase::Failed
            },
        ),
        (Phase::Failed, Event::RetryGranted) => Some(Phase::Retrying),
        (Phase::Failed, Event::RetryDenied) => Some(Phase::Aborted),
        _ => None,
    }
}

/// The phases that a task passes through from `start` as `events` happen, one
/// after another; an event that cannot happen changes nothing.
pub open spec fn history(start: Phase, events: Seq<Event>) -> Seq<Phase>
    decreases events.len(),
{
    if events.len() == 0 {
        seq![start]
    } else {
        let before = history(start, events.drop_last());
        match step(before.last(), events.last()) {
            Some(next) => before.push(next),
            None => before,
        }
    }
}

/// The events that the end of an attempt stands for, given the verdict on it.
pub open spec fn run_events(verdict: Verdict) -> Seq<Event> {
    match verdict {
        Verdict::Succeeded => seq![Event::RunFinished { succeeded: true }],
        Verdict::Retry { .. } => seq![Event::RunFinished { succeeded: false }, Event::RetryGranted],
        _ => seq![Event::RunFinished { succeeded: false }, Event::RetryDenied],
    }
}

/// The phase in which the verdict on an attempt leaves a running task.
pub open spec fn phase_after_run(verdict: Verdict) -> Phase {
    match verdict {
        Verdict::Succeeded => Phase::Succeeded,
        Verdict::Retry { .. } => Phase::Retrying,
        _ => Phase::Aborted,
    }
}

/// The exit code of a run whose tasks have ended in `phases`: one where a
/// preparation failed or a task was aborted, else zero.
pub open spec fn run_exit_code(phases: Seq<Phase>) -> int {
    if exists|i: int|
        0 <= i < phases.len() && (#[trigger] phases[i] == Phase::PrepareFailed || phases[i]
            == Phase::Aborted) {
        1
    } else {
        0
    }
}

/// How many attempts a task makes that has `retries` retries behind it, when
/// its attempts end as `outcomes` say, `true` for a success.
pub open spec fn attempts(retries: nat, max_retries: nat, outcomes: Seq<bool>) -> nat
    decreases outcomes.len(),
{
    if outcomes.len() == 0 {
        0
    } else if verdict_of(retries, max_retries, outcomes[0], true) is Retry {
        1 + attempts(retries + 1, max_retries, outcomes.drop_first())
    } else {
        1
    }
}

impl Phase {
    pub open spec fn is_final(self) -> bool {
        self == Phase::PrepareFailed || self == Phase::Succeeded || self == Phase::Aborted
    }

    /// Whether nothing can happen to a task in this phase any more.
    #[verifier::when_used_as_spec(is_final)]
    pub fn is_terminal(self) -> (b: bool)
        ensures
            b == self.is_final(),
    {
        match self {
            Phase::PrepareFailed => true,
            Phase::Succeeded => true,
            Phase::Aborted => true,
            _ => false,
        }
    }

    /// The phase that `event` leads to, `None` where it cannot happen in this phase.
    pub fn next(self, event: Event) -> (next: Option<Phase>)
        ensures
            next == step(self, event),
    {
        match (self, event) {
            (Phase::Pending, Event::PrepareStarted) => Some(Phase::Preparing),
            (Phase::Preparing, Event::PrepareFinished { passed }) => Some(
                if passed {
                    Phase::Prepared
                } else {
                    Phase::PrepareFailed
                },
            ),
            (Phase::Pending, Event::RunStarted) => Some(Phase::Running),
            (Phase::Prepared, Event::RunStarted) => Some(Phase::Running),
            (Phase::Retrying, Event::RunStarted) => Some(Phase::Running),
            (Phase::Running, Event::RunFinished { succeeded }) => Some(
                if succeeded {
                    Phase::Succeeded
                } else {
                    Phase::Failed
                },
            ),
            (Phase::Failed, Event::RetryGranted) => Some(Phase::Retrying),
            (Phase::Failed, Event::RetryDenied) => Some(Phase::Aborted),
            _ => None,
        }
    }
}

/// How the preparation of a task ended.
#[derive(Clone, Copy, Debug, PartialEq, Eq, Structural)]
pub enum PrepareOutcome {
    /// There was nothing to prepare.
    Skipped,
    /// The last child of the preparation ended like this.
    Finished(ExitOutcome),
    /// A child could not be started.
    SpawnFailed,
}

/// How the status line of a task is closed once its preparation has ended.
#[derive(Debug, PartialEq, Eq)]
pub enum SpinnerEnd {
    /// The line is removed.
    Clear,
    /// The line stays, with this message.
    Message(String),
    /// The line stays as it is; the error has been printed above it.
    Plain,
}

/// The closing of a status line, as plain text.
pub enum SpinnerEndView {
    Clear,
    Message(Seq<char>),
    Plain,
}

impl View for SpinnerEnd {
    type V = SpinnerEndView;

    open spec fn view(&self) -> SpinnerEndView {
        match self {
            SpinnerEnd::Clear => SpinnerEndView::Clear,
            SpinnerEnd::Message(text) => SpinnerEndView::Message(text@),
            SpinnerEnd::Plain => SpinnerEndView::Plain,
        }
    }
}

impl PrepareOutcome {
    /// A preparation has passed when nothing had to run or the last child succeeded.
    pub open spec fn is_passed(self) -> bool {
        match self {
            PrepareOutcome::Skipped => true,
            PrepareOutcome::Finished(outcome) => outcome.is_success(),
            PrepareOutcome::SpawnFailed => false,
        }
    }

    /// Whether the run may go on after this preparation.
    #[verifier::when_used_as_spec(is_passed)]
    pub fn passed(self) -> (b: bool)
        ensures
            b == self.is_passed(),
    {
        match self {
            PrepareOutcome::Skipped => true,
            PrepareOutcome::Finished(outcome) => outcome.success(),
            PrepareOutcome::SpawnFailed => false,
        }
    }

    /// The outcome of a preparation whose last step reported `result`.
    pub fn from_result(result: Option<ExitOutcome>) -> (outcome: PrepareOutcome)
        ensures
            outcome == match result {
                Some(exit) => PrepareOutcome::Finished(exit),
                None => PrepareOutcome::Skipped,
            },
    {
        match result {
            Some(exit) => PrepareOutcome::Finished(exit),
            None => PrepareOutcome::Skipped,
        }
    }

    /// How the status line is closed after this outcome.
    pub open spec fn closing(self) -> SpinnerEndView {
        match self {
            PrepareOutcome::Skipped => SpinnerEndView::Clear,
            PrepareOutcome::Finished(ExitOutcome::Success) => SpinnerEndView::Message("done"@),
            PrepareOutcome::Finished(ExitOutcome::Failed(code)) => SpinnerEndView::Message(
                "failed with exit code "@ + signed_decimal(code as int),
            ),
            PrepareOutcome::Finished(ExitOutcome::Signaled) => SpinnerEndView::Message("failed"@),
            PrepareOutcome::SpawnFailed => SpinnerEndView::Plain,
        }
    }

    /// How the status line of the task is closed.
    pub fn spinner_end(self) -> (end: SpinnerEnd)
        ensures
            end@ == self.closing(),
    {
        match self {
            PrepareOutcome::Skipped => SpinnerEnd::Clear,
            PrepareOutcome::Finished(ExitOutcome::Success) => SpinnerEnd::Message(
                "done".to_owned(),
            ),
            PrepareOutcome::Finished(ExitOutcome::Failed(code)) => {
                let mut text = "failed with exit code ".to_owned();
                text.append(signed_decimal_string(code as i64).as_str());
                SpinnerEnd::Message(text)
            },
            PrepareOutcome::Finished(ExitOutcome::Signaled) => SpinnerEnd::Message(
                "failed".to_owned(),
            ),
            PrepareOutcome::SpawnFailed => SpinnerEnd::Plain,
        }
    }
}

/// A task on its way through a run.
#[derive(Debug, PartialEq, Eq)]
pub struct Scheduled {
    pub task: Task,
    pub phase: Phase,
}

impl Scheduled {
    /// The task before anything has happened to it.
    pub fn new(task: Task) -> (scheduled: Scheduled)
        ensures
            scheduled.task == task,
            scheduled.phase == Phase::Pending,
    {
        Scheduled { task, phase: Phase::Pending }
    }

    /// Starts the preparation of a pending task and says what it runs first.
    /// A task with nothing to prepare stays pending: `None` is returned, as it
    /// is for a task in any other phase.
    pub fn start_prepare(&mut self) -> (first: Option<PrepareStep>)
        ensures
            final(self).task == old(self).task,
            match first {
                Some(run) => old(self).phase == Phase::Pending && run@ == old(
                    self,
                ).task.prepare_step_at(PrepareStage::Start) && !(run@ is Done)
                    && Some(final(self).phase) == step(Phase::Pending, Event::PrepareStarted),
                None => final(self).phase == old(self).phase && (old(self).phase
                    == Phase::Pending ==> old(self).task.prepare_step_at(PrepareStage::Start)
                    is Done),
            },
    {
        match self.phase {
            Phase::Pending => {
                let first = self.task.prepare_step(PrepareStage::Start);
                match first {
                    PrepareStep::Done { .. } => None,
                    _ => {
                        self.phase = Phase::Preparing;
                        Some(first)
                    },
                }
            },
            _ => None,
        }
    }

    /// Records how the preparation ended and says whether the run may go on.
    /// Only a task that is being prepared changes phase.
    pub fn finish_prepare(&mut self, outcome: PrepareOutcome) -> (passed: bool)
        ensures
            passed == outcome.is_passed(),
            final(self).task == old(self).task,
            final(self).phase == (match step(
                old(self).phase,
                Event::PrepareFinished { passed },
            ) {
                Some(next) if old(self).phase == Phase::Preparing => next,
                _ => old(self).phase,
            }),
    {
        let passed = outcome.passed();
        if let Phase::Preparing = self.phase {
            self.phase = if passed {
                Phase::Prepared
            } else {
                Phase::PrepareFailed
            };
        }
        passed
    }

    /// Starts an attempt and gives the command line to run: for a task that
    /// is pending, prepared or waiting for its retry. `None` for any other.
    pub fn start_run(&mut self) -> (line: Option<Vec<String>>)
        ensures
            final(self).task == old(self).task,
            match line {
                Some(words) => views(words@) == old(self).task.run_line() && step(
                    old(self).phase,
                    Event::RunStarted,
                ) == Some(final(self).phase),
                None => step(old(self).phase, Event::RunStarted) is None && final(self).phase
                    == old(self).phase,
            },
    {
        match self.phase {
            Phase::Pending | Phase::Prepared | Phase::Retrying => {
                self.phase = Phase::Running;
                Some(self.task.run_command())
            },
            _ => None,
        }
    }

    /// Records the end of the running attempt and gives the verdict on it.
    /// `None`, and nothing changes, where the task is not running or its
    /// count of retries cannot go up any more.
    pub fn finish_run(&mut self, succeeded: bool, fail_fast: bool) -> (verdict: Option<Verdict>)
        ensures
            match verdict {
                Some(v) => {
                    &&& old(self).phase == Phase::Running
                    &&& old(self).task.retries < usize::MAX
                    &&& v == verdict_of(
                        old(self).task.retries as nat,
                        old(self).task.max_retries as nat,
                        succeeded,
                        fail_fast,
                    )
                    &&& final(self).phase == phase_after_run(v)
                    &&& final(self).phase == history(Phase::Running, run_events(v)).last()
                    &&& final(self).task == (Task {
                        retries: if v is Retry {
                            (old(self).task.retries + 1) as usize
                        } else {
                            old(self).task.retries
                        },
                        ..old(self).task
                    })
                },
                None => {
                    &&& !(old(self).phase == Phase::Running && old(self).task.retries
                        < usize::MAX)
                    &&& *final(self) == *old(self)
                },
            },
    {
        match self.phase {
            Phase::Running => {
                if self.task.retries == usize::MAX {
                    return None;
                }
                let v = self.task.after_attempt(succeeded, fail_fast);
                self.phase = match v {
                    Verdict::Succeeded => Phase::Succeeded,
                    Verdict::Retry { .. } => Phase::Retrying,
                    _ => Phase::Aborted,
                };
                proof {
                    lemma_run_events(v);
                }
                Some(v)
            },
            _ => None,
        }
    }
}

/// The exit code of a run whose tasks stand in `phases`.
pub fn exit_code(phases: &Vec<Phase>) -> (code: i32)
    ensures
        code == run_exit_code(phases@),
{
    let mut i: usize = 0;
    while i < phases.len()
        invariant
            i <= phases.len(),
            forall|j: int|
                0 <= j < i ==> !(#[trigger] phases@[j] == Phase::PrepareFailed || phases@[j]
                    == Phase::Aborted),
        decreases phases.len() - i,
    {
        match phases[i] {
            Phase::PrepareFailed => {
                return 1;
            },
            Phase::Aborted => {
                return 1;
            },
            _ => {},
        }
        i += 1;
    }
    0
}

/// The end of an attempt takes a running task along the edges of the phase
/// diagram: to `Succeeded`, or through `Failed` to `Retrying` or `Aborted`.
pub proof fn lemma_run_events(verdict: Verdict)
    ensures
        history(Phase::Running, run_events(verdict)) == (match verdict {
            Verdict::Succeeded => seq![Phase::Running, Phase::Succeeded],
            Verdict::Retry { .. } => seq![Phase::Running, Phase::Failed, Phase::Retrying],
            _ => seq![Phase::Running, Phase::Failed, Phase::Aborted],
        }),
        history(Phase::Running, run_events(verdict)).last() == phase_after_run(verdict),
{
    reveal_with_fuel(history, 3);
}

/// A task whose retries are used up is not run again: with fail-fast its
/// next failure aborts the run with exit code 1, and no retry is announced.
/// For a task that allows no retry this holds once the count of retries is
/// above zero.
pub proof fn lemma_exhausted_task_aborts(retries: nat, max_retries: nat)
    requires
        max_retries == 0,
        retries > 0,
    ensures
        verdict_of(retries, max_retries, false, true) == (Verdict::Abort { exit_code: 1 }),
        !(verdict_of(retries, max_retries, false, true) is Retry),
        run_exit_code(seq![phase_after_run(verdict_of(retries, max_retries, false, true))]) == 1,
{
    let phases = seq![phase_after_run(verdict_of(retries, max_retries, false, true))];
    assert(phases[0] == Phase::Aborted);
}

/// A task that starts with `retries` retries behind it makes no more than
/// `max_retries + 2 - retries` attempts, however they end.
pub proof fn lemma_attempts_bounded(retries: nat, max_retries: nat, outcomes: Seq<bool>)
    requires
        retries <= max_retries + 1,
    ensures
        attempts(retries, max_retries, outcomes) <= max_retries + 2 - retries,
    decreases outcomes.len(),
{
    if outcomes.len() > 0 && verdict_of(retries, max_retries, outcomes[0], true) is Retry {
        lemma_attempts_bounded(retries + 1, max_retries, outcomes.drop_first());
    }
}

/// A fresh task with `max_retries = N` is attempted at most `N + 1` times,
/// unless each of its first `N + 1` attempts fails and it is tried once more.
pub proof fn lemma_attempts_within_budget(max_retries: nat, outcomes: Seq<bool>)
    requires
        outcomes.len() <= max_retries + 1 || exists|i: int|
            0 <= i <= max_retries && i < outcomes.len() && #[trigger] outcomes[i],
    ensures
        attempts(0, max_retries, outcomes) <= max_retries + 1,
{
    lemma_attempts_from(0, max_retries, outcomes);
}

/// The same for a task that has `retries` retries behind it.
proof fn lemma_attempts_from(retries: nat, max_retries: nat, outcomes: Seq<bool>)
    requires
        retries <= max_retries,
        outcomes.len() <= max_retries + 1 - retries || exists|i: int|
            0 <= i <= max_retries - retries && i < outcomes.len() && #[trigger] outcomes[i],
    ensures
        attempts(retries, max_retries, outcomes) <= max_retries + 1 - retries,
    decreases outcomes.len(),
{
    if outcomes.len() > 0 && verdict_of(retries, max_retries, outcomes[0], true) is Retry {
        let rest = outcomes.drop_first();
        if outcomes.len() <= max_retries + 1 - retries {
            if retries == max_retries {
                assert(attempts(retries + 1, max_retries, rest) == 0);
            } else {
                lemma_attempts_from(retries + 1, max_retries, rest);
            }
        } else {
            let i = choose|i: int|
                0 <= i <= max_retries - retries && i < outcomes.len() && #[trigger] outcomes[i];
            assert(rest[i - 1] == outcomes[i]);
            lemma_attempts_from(retries + 1, max_retries, rest);
        }
    }
}

/// The pause before attempt `k` of a task, for `k` from two on, is `k - 1` seconds.
pub proof fn lemma_backoff_is_linear(k: nat, max_retries: nat, fail_fast: bool)
    requires
        k >= 2,
        k - 2 <= max_retries,
        k - 1 <= u64::MAX,
    ensures
        verdict_of((k - 2) as nat, max_retries, false, fail_fast) == (Verdict::Retry {
            sleep_secs: (k - 1) as u64,
        }),
{
}

/// A task that is started without preparation and succeeds at once passes
/// through `Pending`, `Running` and `Succeeded`, whatever its budget; a run
/// in which every task ends like that exits with code zero.
pub proof fn lemma_success_path(max_retries: nat, fail_fast: bool, tasks: nat)
    ensures
        verdict_of(0, max_retries, true, fail_fast) == Verdict::Succeeded,
        history(Phase::Pending, seq![Event::RunStarted] + run_events(Verdict::Succeeded)) == seq![
            Phase::Pending,
            Phase::Running,
            Phase::Succeeded,
        ],
        run_exit_code(Seq::new(tasks, |i: int| Phase::Succeeded)) == 0,
{
    reveal_with_fuel(history, 3);
}

} // verus!
