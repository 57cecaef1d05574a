//! What the terminal proxy decides. The proxy gives a command two
//! pseudo-terminals, one for its standard output and one for its standard
//! error, and relays what arrives on them. The system calls are made by the
//! caller; here stand the order of the steps and what follows each result.

use vstd::prelude::*;

verus! {

/// The rows of the terminal that the command sees.
pub const TERMINAL_ROWS: u16 = 24;

/// The columns of the terminal that the command sees.
pub const TERMINAL_COLUMNS: u16 = 80;

/// The steps of the proxy, in the order in which the surviving process takes them.
#[derive(Clone, Copy, Debug, PartialEq, Eq, Structural)]
pub enum Step {
    /// Duplicate the real standard input, closed on exec.
    KeepStdin,
    /// Duplicate the real standard error, closed on exec.
    KeepStderr,
    /// Fork with a new pseudo-terminal that stands for standard output.
    ForkForStdout,
    /// Duplicate standard output, which is now the first pseudo-terminal.
    KeepStdout,
    /// Fork with a second pseudo-terminal that stands for standard error.
    ForkForStderr,
    /// Make descriptor 0 the real standard input again.
    RestoreStdin,
    /// Make descriptor 1 the duplicate of the first pseudo-terminal.
    RestoreStdout,
    /// Replace the process by the command.
    Exec,
}

/// Where a relaying parent writes what its pseudo-terminal delivers.
#[derive(Clone, Copy, Debug, PartialEq, Eq, Structural)]
pub enum Sink {
    /// Descriptor 1 of the parent.
    Stdout,
    /// The duplicate of the real standard error.
    SavedStderr,
}

/// What a step resulted in.
#[derive(Clone, Copy, Debug, PartialEq, Eq, Structural)]
pub enum StepResult {
    /// The call succeeded; for a fork, this is the child.
    Done,
    /// The fork succeeded and this is the parent.
    Parent,
    /// The operating system refused the call.
    Failed,
}

/// What the proxy does after a step.
#[derive(Clone, Copy, Debug, PartialEq, Eq, Structural)]
pub enum Next {
    /// Take this step.
    Take(Step),
    /// Copy from the master of the new pseudo-terminal to the sink until it is
    /// exhausted, then wait for the child and exit as it did.
    Relay(Sink),
    /// Report the error on the real standard error and exit with code 1.
    GiveUp,
}

/// How a child of the proxy ended.
#[derive(Clone, Copy, Debug, PartialEq, Eq, Structural)]
pub enum ChildEnd {
    /// It exited with this code.
    Exited(i32),
    /// It ended in another way, or waiting for it failed.
    Other,
}

/// What is done with the result of a read from a pseudo-terminal.
#[derive(Clone, Copy, Debug, PartialEq, Eq, Structural)]
pub enum Relayed {
    /// Write the first `n` bytes of the buffer, then read again.
    Forward(usize),
    /// Stop copying.
    Stop,
}

/// What the proxy does after `step` has resulted in `result`. Each fork
/// leaves a parent that relays and a child that goes on; any failure ends
/// the proxy, as does a result that the step cannot have.
pub open spec fn next_after(step: Step, result: StepResult) -> Next {
    match (step, result) {
        (Step::KeepStdin, StepResult::Done) => Next::Take(Step::KeepStderr),
        (Step::KeepStderr, StepResult::Done) => Next::Take(Step::ForkForStdout),
        (Step::ForkForStdout, StepResult::Parent) => Next::Relay(Sink::Stdout),
        (Step::ForkForStdout, StepResult::Done) => Next::Take(Step::KeepStdout),
        (Step::KeepStdout, StepResult::Done) => Next::Take(Step::ForkForStderr),
        (Step::ForkForStderr, StepResult::Parent) => Next::Relay(Sink::SavedStderr),
        (Step::ForkForStderr, StepResult::Done) => Next::Take(Step::RestoreStdin),
        (Step::RestoreStdin, StepResult::Done) => Next::Take(Step::RestoreStdout),
        (Step::RestoreStdout, StepResult::Done) => Next::Take(Step::Exec),
        _ => Next::GiveUp,
    }
}

/// The exit code of a relaying parent: that of its child, and zero where the
/// child left none, as after a signal.
pub open spec fn relayed_code(end: ChildEnd) -> i32 {
    match end {
        ChildEnd::Exited(code) => code,
        ChildEnd::Other => 0,
    }
}

/// The command and its arguments among the arguments of the proxy: all but
/// the program's own name and the flag that asked for the proxy.
pub open spec fn command_of<T>(args: Seq<T>) -> Seq<T> {
    if args.len() >= 2 {
        args.skip(2)
    } else {
        Seq::empty()
    }
}

/// The step that the proxy begins with.
pub fn first_step() -> (step: Step)
    ensures
        step == Step::KeepStdin,
{
    Step::KeepStdin
}

/// What the proxy does after `step` has resulted in `result`.
pub fn next_step(step: Step, result: StepResult) -> (next: Next)
    ensures
        next == next_after(step, result),
{
    match (step, result) {
        (Step::KeepStdin, StepResult::Done) => Next::Take(Step::KeepStderr),
        (Step::KeepStderr, StepResult::Done) => Next::Take(Step::ForkForStdout),
        (Step::ForkForStdout, StepResult::Parent) => Next::Relay(Sink::Stdout),
        (Step::ForkForStdout, StepResult::Done) => Next::Take(Step::KeepStdout),
        (Step::KeepStdout, StepResult::Done) => Next::Take(Step::ForkForStderr),
        (Step::ForkForStderr, StepResult::Parent) => Next::Relay(Sink::SavedStderr),
        (Step::ForkForStderr, StepResult::Done) => Next::Take(Step::RestoreStdin),
        (Step::RestoreStdin, StepResult::Done) => Next::Take(Step::RestoreStdout),
        (Step::RestoreStdout, StepResult::Done) => Next::Take(Step::Exec),
        _ => Next::GiveUp,
    }
}

/// The exit code of a relaying parent whose child ended as `end` says.
pub fn exit_code(end: ChildEnd) -> (code: i32)
    ensures
        code == relayed_code(end),
{
    match end {
        ChildEnd::Exited(code) => code,
        ChildEnd::Other => 0,
    }
}

/// What follows a read from a pseudo-terminal that delivered `read` bytes,
/// `None` standing for an error: an empty read or an error ends the copying.
pub fn after_read(read: Option<usize>) -> (relayed: Relayed)
    ensures
        relayed == match read {
            Some(n) => if n == 0 {
                Relayed::Stop
            } else {
                Relayed::Forward(n)
            },
            None => Relayed::Stop,
        },
{
    match read {
        Some(n) => if n == 0 {
            Relayed::Stop
        } else {
            Relayed::Forward(n)
        },
        None => Relayed::Stop,
    }
}

/// How many bytes are still to be written after a write took `written` of
/// the `pending` ones. `None` where the write failed, which ends the writing
/// of this buffer, or took more than was offered.
pub fn after_write(pending: usize, written: Option<usize>) -> (left: Option<usize>)
    ensures
        left == match written {
            Some(n) => if n <= pending {
                Some((pending - n) as usize)
            } else {
                None
            },
            None => None,
        },
{
    match written {
        Some(n) => if n <= pending {
            Some(pending - n)
        } else {
            None
        },
        None => None,
    }
}

/// The command that the proxy runs, with its arguments.
pub fn command_line<T>(args: Vec<T>) -> (command: Vec<T>)
    ensures
        command@ == command_of(args@),
{
    let mut command = args;
    if command.len() >= 2 {
        command.remove(0);
        command.remove(0);
    } else {
        command.clear();
    }
    command
}

/// Whatever the step, a refused call ends the proxy.
pub proof fn lemma_failure_is_final(step: Step)
    ensures
        next_after(step, StepResult::Failed) == Next::GiveUp,
{
}

} // verus!
