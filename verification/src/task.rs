//! The task descriptor: what a task is called, how it is prepared and run,
//! and how often it may be tried again.

use crate::config::{Command, ShellTaskOptions, TaskOptions, TaskTypeOptions};
use crate::executor::{tag_line, tagged, ExitOutcome};
use crate::style::{bold_in, is_plain, is_styled, Hue};
use crate::text::{decimal, decimal_string, join, join_strings, push_spaces, repeat, views};
use std::time::Duration;
use vstd::prelude::*;

verus! {

/// A tag as it is laid out: the task's name, padding, a bar and a space. The
/// name and the bar come in as they were styled.
pub open spec fn tag_layout(label: Seq<char>, padding: nat, bar: Seq<char>) -> Seq<char> {
    label + repeat(' ', padding + 2) + bar + seq![' ']
}

/// The width of a tag on screen: that of its layout without any styling.
pub open spec fn tag_width(name: Seq<char>, padding: nat) -> nat {
    tag_layout(name, padding, seq!['|']).len()
}

/// The line that reports how a child ended.
pub open spec fn exit_text(status: Seq<char>) -> Seq<char> {
    "process exited with status code "@ + status
}

/// The warning that precedes a retry.
pub open spec fn retry_text(sleep_secs: nat) -> Seq<char> {
    "task exited with non-success code, retrying again in "@ + decimal(sleep_secs)
        + " seconds..."@
}

/// The message that ends a run in which a task has used up its retries.
pub open spec fn exhausted_text(name: Seq<char>) -> Seq<char> {
    "task "@ + name + " exited with non-success code too many times, exiting."@
}

/// The warning about a shell task without a command.
pub open spec fn no_command_text(name: Seq<char>) -> Seq<char> {
    "task "@ + name + " has no command configured"@
}

/// What is decided when an attempt to run a task has ended.
#[derive(Clone, Copy, Debug, PartialEq, Eq, Structural)]
pub enum Verdict {
    /// The attempt succeeded: the task is done.
    Succeeded,
    /// The attempt failed and the task is run again, after a warning and a
    /// pause of `sleep_secs` seconds.
    Retry { sleep_secs: u64 },
    /// The attempt failed with no retry left: the whole run ends with `exit_code`.
    Abort { exit_code: i32 },
    /// The attempt failed with no retry left: the task is given up, the run goes on.
    GiveUp,
}

/// The verdict on an attempt of a task that has been retried `retries` times
/// and may be retried while that count is at most `max_retries`. The pause
/// grows by one second with each retry.
pub open spec fn verdict_of(retries: nat, max_retries: nat, succeeded: bool, fail_fast: bool)
    -> Verdict {
    if succeeded {
        Verdict::Succeeded
    } else if retries <= max_retries {
        Verdict::Retry { sleep_secs: (retries + 1) as u64 }
    } else if fail_fast {
        Verdict::Abort { exit_code: 1 }
    } else {
        Verdict::GiveUp
    }
}

/// How far the preparation of a task has come.
#[derive(Clone, Copy, Debug, PartialEq, Eq, Structural)]
pub enum PrepareStage {
    /// Nothing has run yet.
    Start,
    /// The build has ended.
    Built(ExitOutcome),
    /// The prepare command has ended.
    Prepared(ExitOutcome),
}

/// What the preparation of a task does next.
#[derive(Debug, PartialEq, Eq)]
pub enum PrepareStep {
    /// Run the build with this command line; its end leads to `PrepareStage::Built`.
    Build(Vec<String>),
    /// Run the prepare command with this command line; its end leads to
    /// `PrepareStage::Prepared`.
    Command(Vec<String>),
    /// The preparation is over. `result` is how the last child ended, `None`
    /// where there was nothing to run; `announce` says whether the failure of
    /// the prepare command is to be printed below the task's tag.
    Done { result: Option<ExitOutcome>, announce: bool },
}

/// A step of a preparation, with its command line as plain text.
pub enum PrepareStepView {
    Build(Seq<Seq<char>>),
    Command(Seq<Seq<char>>),
    Done { result: Option<ExitOutcome>, announce: bool },
}

impl View for PrepareStep {
    type V = PrepareStepView;

    open spec fn view(&self) -> PrepareStepView {
        match self {
            PrepareStep::Build(line) => PrepareStepView::Build(views(line@)),
            PrepareStep::Command(line) => PrepareStepView::Command(views(line@)),
            PrepareStep::Done { result, announce } => PrepareStepView::Done {
                result: *result,
                announce: *announce,
            },
        }
    }
}

/// One task of a run.
#[derive(Clone, Debug, PartialEq, Eq)]
pub struct Task {
    /// The name, unique within a run.
    pub name: String,
    /// The shell command that prepares the task, if any.
    pub prepare: Option<String>,
    /// How often the task has been run again after a failure.
    pub retries: usize,
    /// The task is run again after a failure while `retries` is at most this.
    pub max_retries: usize,
    /// How long to wait before the task is run.
    pub delay: Option<Duration>,
    /// The colour that the task is told apart by.
    pub color: Hue,
    /// The styled label that precedes every line of the task's output.
    pub tag: String,
    /// What kind of task it is, with the options of that kind.
    pub opts: TaskTypeOptions,
    /// The path of the running executable, through which children are started.
    pub current_exe: String,
}

impl Task {
    /// The number of the attempt that the task is at, counted from one.
    pub open spec fn attempt(&self) -> nat {
        (self.retries + 1) as nat
    }

    /// How every command line begins: the running executable, asked to give
    /// its child a terminal.
    pub open spec fn launcher(&self) -> Seq<Seq<char>> {
        seq![self.current_exe@, "--fake-tty"@]
    }

    /// The command line of the build, for a task that builds a workspace member.
    pub open spec fn build_line(&self) -> Option<Seq<Seq<char>>> {
        match self.opts {
            TaskTypeOptions::Shell(_) => None,
            TaskTypeOptions::Cargo(cargo) => Some(
                self.launcher() + seq![
                    "cargo"@,
                    "build"@,
                    "-p"@,
                    self.name@,
                    "--color=always"@,
                ] + (if cargo.release {
                    seq!["--release"@]
                } else {
                    Seq::empty()
                }) + (if cargo.features@.len() > 0 {
                    seq!["--features"@, join(views(cargo.features@), ","@)]
                } else {
                    Seq::empty()
                }),
            ),
        }
    }

    /// The command line of the prepare command, where there is one.
    pub open spec fn prepare_line(&self) -> Option<Seq<Seq<char>>> {
        match self.prepare {
            Some(command) => Some(self.launcher() + seq!["sh"@, "-c"@, command@]),
            None => None,
        }
    }

    /// The command line that runs the task: the shell with the command on one
    /// line, or the binary that the build left behind.
    pub open spec fn run_line(&self) -> Seq<Seq<char>> {
        match self.opts {
            TaskTypeOptions::Shell(shell) => self.launcher() + seq![
                "sh"@,
                "-c"@,
                shell.command.line(),
            ],
            TaskTypeOptions::Cargo(cargo) => self.launcher() + seq![
                "./target/"@ + (if cargo.release {
                    "release"@
                } else {
                    "debug"@
                }) + "/"@ + self.name@,
            ],
        }
    }

    /// What the preparation does at `stage`. A build comes first, for a task
    /// that has one; the prepare command follows unless the build failed; the
    /// result is that of the last child that ran.
    pub open spec fn prepare_step_at(&self, stage: PrepareStage) -> PrepareStepView {
        match stage {
            PrepareStage::Start => if self.build_line() is Some {
                PrepareStepView::Build(self.build_line()->0)
            } else if self.prepare_line() is Some {
                PrepareStepView::Command(self.prepare_line()->0)
            } else {
                PrepareStepView::Done { result: None, announce: false }
            },
            PrepareStage::Built(built) => if built.is_success() && self.prepare_line() is Some {
                PrepareStepView::Command(self.prepare_line()->0)
            } else {
                PrepareStepView::Done { result: Some(built), announce: false }
            },
            PrepareStage::Prepared(prepared) => PrepareStepView::Done {
                result: Some(prepared),
                announce: !prepared.is_success(),
            },
        }
    }

    /// A task with its tag laid out from the styled name and bar: the part of
    /// `from_options` that follows the styling.
    pub fn assemble(
        name: String,
        color: Hue,
        label: String,
        bar: String,
        tag_padding: usize,
        opts: TaskOptions,
        current_exe: String,
    ) -> (task: Task)
        ensures
            task.name == name,
            task.color == color,
            task.prepare == opts.prepare,
            task.retries == 0,
            task.max_retries == opts.retries,
            task.delay == opts.delay,
            task.opts == opts.task_options,
            task.current_exe == current_exe,
            task.tag@ == tag_layout(label@, tag_padding as nat, bar@),
    {
        let mut tag = label;
        push_spaces(&mut tag, tag_padding);
        tag.push(' ');
        tag.push(' ');
        tag.append(bar.as_str());
        tag.push(' ');
        Task {
            name,
            prepare: opts.prepare,
            retries: 0,
            max_retries: opts.retries,
            delay: opts.delay,
            color,
            tag,
            opts: opts.task_options,
            current_exe,
        }
    }

    /// A shell task under a tag that has been made already: it runs
    /// `command`, has nothing to prepare and starts without delay.
    pub fn shell(
        name: String,
        color: Hue,
        tag: String,
        command: String,
        max_retries: usize,
        current_exe: String,
    ) -> (task: Task)
        ensures
            task.name == name,
            task.color == color,
            task.tag == tag,
            task.prepare is None,
            task.retries == 0,
            task.max_retries == max_retries,
            task.delay is None,
            task.opts matches TaskTypeOptions::Shell(shell) && shell.command == Command::String(
                command,
            ),
            task.current_exe == current_exe,
    {
        Task {
            name,
            prepare: None,
            retries: 0,
            max_retries,
            delay: None,
            color,
            tag,
            opts: TaskTypeOptions::Shell(ShellTaskOptions { command: Command::String(command) }),
            current_exe,
        }
    }

    /// The task called `name` with the given options, not yet retried. Its
    /// tag is the name and a bar, both in bold `color` as far as the terminal
    /// takes colour, with `tag_padding + 2` spaces between them and one behind.
    pub fn from_options(
        name: String,
        color: Hue,
        tag_padding: usize,
        opts: TaskOptions,
        current_exe: String,
    ) -> (task: Task)
        ensures
            task.name == name,
            task.color == color,
            task.prepare == opts.prepare,
            task.retries == 0,
            task.max_retries == opts.retries,
            task.delay == opts.delay,
            task.opts == opts.task_options,
            task.current_exe == current_exe,
            exists|label: Seq<char>, bar: Seq<char>|
                {
                    &&& task.tag@ == #[trigger] tag_layout(label, tag_padding as nat, bar)
                    &&& is_plain(name@) ==> is_styled(label, name@)
                    &&& is_styled(bar, seq!['|'])
                },
    {
        let label = bold_in(name.as_str(), color);
        let bar = bold_in("|", color);
        proof {
            reveal_strlit("|");
            assert("|"@ =~= seq!['|']);
        }
        Task::assemble(name, color, label, bar, tag_padding, opts, current_exe)
    }

    /// The warning that a shell task without a command calls for.
    pub fn missing_command_warning(&self) -> (warning: Option<String>)
        ensures
            match warning {
                Some(text) => self.opts matches TaskTypeOptions::Shell(shell)
                    && crate::text::is_blank(shell.command.text()) && text@ == no_command_text(
                    self.name@,
                ),
                None => !(self.opts matches TaskTypeOptions::Shell(shell)
                    && crate::text::is_blank(shell.command.text())),
            },
    {
        match &self.opts {
            TaskTypeOptions::Shell(shell) => if shell.command.is_empty() {
                let mut text = "task ".to_owned();
                text.append(self.name.as_str());
                text.append(" has no command configured");
                Some(text)
            } else {
                None
            },
            TaskTypeOptions::Cargo(_) => None,
        }
    }

    /// The start of a command line.
    fn launch(&self) -> (line: Vec<String>)
        ensures
            views(line@) == self.launcher(),
    {
        let mut line: Vec<String> = Vec::new();
        line.push(self.current_exe.clone());
        line.push("--fake-tty".to_owned());
        line
    }

    /// What the preparation of the task does next, given how far it has come.
    pub fn prepare_step(&self, stage: PrepareStage) -> (step: PrepareStep)
        ensures
            step@ == self.prepare_step_at(stage),
    {
        match stage {
            PrepareStage::Start => match self.build_command() {
                Some(line) => PrepareStep::Build(line),
                None => match self.prepare_command() {
                    Some(line) => PrepareStep::Command(line),
                    None => PrepareStep::Done { result: None, announce: false },
                },
            },
            PrepareStage::Built(built) => {
                if built.success() {
                    match self.prepare_command() {
                        Some(line) => PrepareStep::Command(line),
                        None => PrepareStep::Done { result: Some(built), announce: false },
                    }
                } else {
                    PrepareStep::Done { result: Some(built), announce: false }
                }
            },
            PrepareStage::Prepared(prepared) => PrepareStep::Done {
                result: Some(prepared),
                announce: !prepared.success(),
            },
        }
    }

    /// The command line of the build, for a task that has one.
    pub fn build_command(&self) -> (line: Option<Vec<String>>)
        ensures
            match line {
                Some(words) => self.build_line() == Some(views(words@)),
                None => self.build_line() is None,
            },
    {
        match &self.opts {
            TaskTypeOptions::Shell(_) => None,
            TaskTypeOptions::Cargo(cargo) => {
                let mut line = self.launch();
                line.push("cargo".to_owned());
                line.push("build".to_owned());
                line.push("-p".to_owned());
                line.push(self.name.clone());
                line.push("--color=always".to_owned());
                let ghost fixed = self.launcher() + seq![
                    "cargo"@,
                    "build"@,
                    "-p"@,
                    self.name@,
                    "--color=always"@,
                ];
                assert(views(line@) =~= fixed);
                let ghost flag: Seq<Seq<char>> = if cargo.release {
                    seq!["--release"@]
                } else {
                    Seq::empty()
                };
                if cargo.release {
                    line.push("--release".to_owned());
                }
                assert(views(line@) =~= fixed + flag);
                if cargo.features.len() > 0 {
                    line.push("--features".to_owned());
                    line.push(join_strings(&cargo.features, ","));
                }
                Some(line)
            },
        }
    }

    /// The command line of the prepare command, where the task has one.
    pub fn prepare_command(&self) -> (line: Option<Vec<String>>)
        ensures
            match line {
                Some(words) => self.prepare_line() == Some(views(words@)),
                None => self.prepare_line() is None,
            },
    {
        match &self.prepare {
            None => None,
            Some(command) => {
                let mut line = self.launch();
                line.push("sh".to_owned());
                line.push("-c".to_owned());
                line.push(command.clone());
                Some(line)
            },
        }
    }

    /// The command line that runs the task.
    pub fn run_command(&self) -> (line: Vec<String>)
        ensures
            views(line@) == self.run_line(),
    {
        let mut line = self.launch();
        match &self.opts {
            TaskTypeOptions::Shell(shell) => {
                line.push("sh".to_owned());
                line.push("-c".to_owned());
                line.push(shell.command.to_string());
            },
            TaskTypeOptions::Cargo(cargo) => {
                let mut path = "./target/".to_owned();
                if cargo.release {
                    path.append("release");
                } else {
                    path.append("debug");
                }
                path.append("/");
                path.append(self.name.as_str());
                line.push(path);
            },
        }
        line
    }

    /// The verdict on the attempt that has just ended. Where it is a retry,
    /// the count of retries goes up by one; nothing else changes.
    pub fn after_attempt(&mut self, succeeded: bool, fail_fast: bool) -> (verdict: Verdict)
        requires
            old(self).retries < usize::MAX,
        ensures
            verdict == verdict_of(
                old(self).retries as nat,
                old(self).max_retries as nat,
                succeeded,
                fail_fast,
            ),
            *final(self) == (Task {
                retries: if verdict is Retry {
                    (old(self).retries + 1) as usize
                } else {
                    old(self).retries
                },
                ..*old(self)
            }),
            verdict matches Verdict::Retry { sleep_secs } ==> sleep_secs == final(self).attempt()
                - 1,
    {
        if succeeded {
            Verdict::Succeeded
        } else if self.retries <= self.max_retries {
            let sleep_secs = (self.retries + 1) as u64;
            self.retries = self.retries + 1;
            Verdict::Retry { sleep_secs }
        } else if fail_fast {
            Verdict::Abort { exit_code: 1 }
        } else {
            Verdict::GiveUp
        }
    }

    /// A notice below the task's tag: `text` in bold white, as far as the
    /// terminal takes colour.
    pub fn notice(&self, text: &str) -> (line: String)
        ensures
            exists|styled: Seq<char>|
                line@ == #[trigger] tagged(self.tag@, styled) && (is_plain(text@) ==> is_styled(
                    styled,
                    text@,
                )),
    {
        let styled = bold_in(text, Hue::White);
        tag_line(self.tag.as_str(), styled.as_str())
    }

    /// The line that reports, below the task's tag, how a child ended.
    /// `status` is the exit status as the platform words it. The report is
    /// in bold, white after a success and red after a failure, as far as the
    /// terminal takes colour.
    pub fn exit_line(&self, status: &str, succeeded: bool) -> (line: String)
        ensures
            exists|report: Seq<char>|
                line@ == #[trigger] tagged(self.tag@, report) && (is_plain(status@) ==> is_styled(
                    report,
                    exit_text(status@),
                )),
    {
        let text = exit_message(status);
        proof {
            reveal_strlit("process exited with status code ");
        }
        let report = bold_in(
            text.as_str(),
            if succeeded {
                Hue::White
            } else {
                Hue::Red
            },
        );
        tag_line(self.tag.as_str(), report.as_str())
    }
}

/// The report on how a child ended, before it is styled.
pub fn exit_message(status: &str) -> (text: String)
    ensures
        text@ == exit_text(status@),
{
    let mut text = "process exited with status code ".to_owned();
    text.append(status);
    text
}

/// The warning that precedes a retry after `sleep_secs` seconds.
pub fn retry_warning(sleep_secs: u64) -> (text: String)
    ensures
        text@ == retry_text(sleep_secs as nat),
{
    let mut text = "task exited with non-success code, retrying again in ".to_owned();
    text.append(decimal_string(sleep_secs).as_str());
    text.append(" seconds...");
    text
}

/// The message that names the task whose retries are used up.
pub fn exhausted_message(name: &str) -> (text: String)
    ensures
        text@ == exhausted_text(name@),
{
    let mut text = "task ".to_owned();
    text.append(name);
    text.append(" exited with non-success code too many times, exiting.");
    text
}

} // verus!
