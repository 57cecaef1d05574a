//! Runs several commands side by side, tells their output apart by a tag in
//! front of each line, and runs a failing command again after a pause.
//!
//! The library holds what such a run decides; starting processes, reading
//! their output, waiting and printing are left to the caller.

use crate::config::{CommandView, TaskTypeOptions};
use crate::plan::Entry;
use crate::style::{
    badge_color, bold_white_on, is_plain, is_styled, lemma_plain_decimal, Hue,
};
use crate::task::Task;
use crate::text::{chars_of, decimal, decimal_string, has_prefix, starts_with, string_of};
use vstd::prelude::*;

pub mod config;
pub mod executor;
pub mod fake_tty;
pub mod log;
pub mod plan;
pub mod schedule;
pub mod style;
pub mod task;
pub mod text;

verus! {

/// What a parameter of the command line stands for: `cargo:` and the name
/// of a package is short for running that package, and anything else is the
/// command itself.
pub open spec fn expanded(param: Seq<char>) -> Seq<char> {
    if starts_with(param, "cargo:"@) {
        "cargo run --color always --package "@ + param.skip(6)
    } else {
        param
    }
}

/// The text of a badge: the name with a space on either side.
pub open spec fn badge_text(name: Seq<char>) -> Seq<char> {
    seq![' '] + name + seq![' ']
}

/// The name of a task that was given none: `Task` and its number.
pub open spec fn numbered_name(number: nat) -> Seq<char> {
    "Task "@ + decimal(number)
}

/// The name of a numbered task holds no escape character.
pub proof fn lemma_plain_numbered(number: nat)
    ensures
        is_plain(numbered_name(number)),
{
    reveal_strlit("Task ");
    lemma_plain_decimal(number);
}

/// The command that `param` stands for.
pub fn expand(param: &str) -> (command: String)
    ensures
        command@ == expanded(param@),
{
    let chars = chars_of(param);
    let prefix = chars_of("cargo:");
    proof {
        reveal_strlit("cargo:");
    }
    if has_prefix(&chars, &prefix) {
        let mut command = "cargo run --color always --package ".to_owned();
        let rest = string_of(&chars, 6, chars.len());
        command.append(rest.as_str());
        command
    } else {
        param.to_owned()
    }
}

/// The text of the badge for `name`.
pub fn badge(name: &str) -> (text: String)
    ensures
        text@ == badge_text(name@),
{
    let mut text = " ".to_owned();
    text.append(name);
    text.push(' ');
    proof {
        reveal_strlit(" ");
    }
    text
}

/// Names the tasks of a run and gives each name a colour of its own, as far
/// as the palette reaches.
pub struct TaskNamer {
    count: usize,
}

impl TaskNamer {
    /// How many names have been given out.
    pub closed spec fn count(&self) -> nat {
        self.count as nat
    }

    /// A namer that has given out no name yet.
    pub fn new() -> (namer: TaskNamer)
        ensures
            namer.count() == 0,
    {
        TaskNamer { count: 0 }
    }

    /// How many names have been given out.
    pub fn issued(&self) -> (n: usize)
        ensures
            n == self.count(),
    {
        self.count
    }

    /// The background of the next badge: the palette is walked round and round.
    pub fn next_color(&self) -> (color: Hue)
        ensures
            color == crate::style::badge_palette()[self.count() as int % 9],
    {
        badge_color(self.count)
    }

    /// The name that `next` gives to the next task: `Task` and the number of
    /// the task, counted from one.
    pub fn next_name(&self) -> (name: String)
        requires
            self.count() < usize::MAX,
        ensures
            name@ == numbered_name(self.count() + 1),
    {
        let mut name = "Task ".to_owned();
        name.append(decimal_string((self.count + 1) as u64).as_str());
        name
    }

    /// Counts `badge` as given out and hands it on.
    pub fn issue(&mut self, badge: String) -> (issued: String)
        requires
            old(self).count() < usize::MAX,
        ensures
            issued == badge,
            final(self).count() == old(self).count() + 1,
    {
        self.count = self.count + 1;
        badge
    }

    /// The badge of a task without a name of its own: its number on the next
    /// background, in bold white as far as the terminal takes colour.
    pub fn next(&mut self) -> (badge: String)
        requires
            old(self).count() < usize::MAX,
        ensures
            final(self).count() == old(self).count() + 1,
            is_styled(badge@, badge_text(numbered_name(old(self).count() + 1))),
    {
        let name = self.next_name();
        proof {
            lemma_plain_numbered(self.count() + 1);
        }
        self.next_with_name(name.as_str())
    }

    /// The badge of the task called `name`: the name between two spaces on
    /// the next background, in bold white as far as the terminal takes colour.
    pub fn next_with_name(&mut self, name: &str) -> (badge: String)
        requires
            old(self).count() < usize::MAX,
        ensures
            final(self).count() == old(self).count() + 1,
            is_plain(name@) ==> is_styled(badge@, badge_text(name@)),
    {
        let styled = bold_white_on(badge(name).as_str(), self.next_color());
        self.issue(styled)
    }
}

/// How often a task that was read from a file of commands is run again.
pub const FILE_TASK_RETRIES: usize = 3;

/// The name of the task that runs before the task called `name`.
pub open spec fn before_name(name: Seq<char>) -> Seq<char> {
    "(before) "@ + name
}

/// The entries that have a command to run beforehand, in order.
pub open spec fn with_before(entries: Seq<Entry>) -> Seq<Entry> {
    entries.filter(|entry: Entry| entry.1.prepare is Some)
}

/// Whether `task` is the shell task called `name` that runs `command`, may
/// be retried `max_retries` times and is otherwise plain.
pub open spec fn is_shell_task(
    task: Task,
    name: Seq<char>,
    command: Seq<char>,
    max_retries: usize,
    current_exe: Seq<char>,
) -> bool {
    &&& task.name@ == name
    &&& task.prepare is None
    &&& task.retries == 0
    &&& task.max_retries == max_retries
    &&& task.delay is None
    &&& task.opts matches TaskTypeOptions::Shell(shell) && shell.command@ == CommandView::String(
        command,
    )
    &&& task.current_exe@ == current_exe
}

/// Whether `task` is what `entry` of a file of commands gives rise to: a
/// task of the entry's name, with the entry's command written out, `cargo:`
/// forms included; an entry that builds a workspace member keeps its kind.
pub open spec fn is_file_task(task: Task, entry: Entry, current_exe: Seq<char>) -> bool {
    &&& is_plain(entry.0@) ==> is_styled(task.tag@, badge_text(entry.0@))
    &&& match entry.1.task_options {
        TaskTypeOptions::Shell(shell) => is_shell_task(
            task,
            entry.0@,
            expanded(shell.command.line()),
            FILE_TASK_RETRIES,
            current_exe,
        ),
        TaskTypeOptions::Cargo(cargo) => {
            &&& task.name@ == entry.0@
            &&& task.prepare is None
            &&& task.retries == 0
            &&& task.max_retries == FILE_TASK_RETRIES
            &&& task.delay is None
            &&& task.opts == TaskTypeOptions::Cargo(cargo)
            &&& task.current_exe@ == current_exe
        },
    }
}

/// Whether `task` is the task that runs the command which `entry` wants run
/// beforehand.
pub open spec fn is_before_task(task: Task, entry: Entry, current_exe: Seq<char>) -> bool {
    &&& entry.1.prepare matches Some(command) && is_shell_task(
        task,
        before_name(entry.0@),
        command@,
        FILE_TASK_RETRIES,
        current_exe,
    )
    &&& is_plain(entry.0@) ==> is_styled(task.tag@, badge_text(before_name(entry.0@)))
}

/// The task for a command given on the command line. It is named by its
/// number, runs what `param` stands for, and may be retried `max_retries` times.
pub fn task_from_cli(param: &str, namer: &mut TaskNamer, max_retries: usize, current_exe: &str)
    -> (task: Task)
    requires
        old(namer).count() < usize::MAX,
    ensures
        final(namer).count() == old(namer).count() + 1,
        task.color == crate::style::badge_palette()[old(namer).count() as int % 9],
        is_styled(task.tag@, badge_text(numbered_name(old(namer).count() + 1))),
        is_shell_task(
            task,
            numbered_name(old(namer).count() + 1),
            expanded(param@),
            max_retries,
            current_exe@,
        ),
{
    let name = namer.next_name();
    let color = namer.next_color();
    proof {
        lemma_plain_numbered(namer.count() + 1);
    }
    let tag = namer.next_with_name(name.as_str());
    Task::shell(name, color, tag, expand(param), max_retries, current_exe.to_owned())
}

/// The tasks of a file of commands, added to `tasks` in the order of the
/// entries, and, added to `before_tasks`, a task for each command that an
/// entry wants run beforehand.
pub fn read_tasks_from_file(
    entries: Vec<Entry>,
    before_tasks: &mut Vec<Task>,
    tasks: &mut Vec<Task>,
    namer: &mut TaskNamer,
    current_exe: &str,
)
    requires
        old(namer).count() + 2 * entries@.len() <= usize::MAX,
    ensures
        final(tasks)@.len() == old(tasks)@.len() + entries@.len(),
        final(tasks)@.take(old(tasks)@.len() as int) == old(tasks)@,
        forall|i: int|
            0 <= i < entries@.len() ==> is_file_task(
                #[trigger] final(tasks)@[old(tasks)@.len() + i],
                entries@[i],
                current_exe@,
            ),
        final(before_tasks)@.len() == old(before_tasks)@.len() + with_before(entries@).len(),
        final(before_tasks)@.take(old(before_tasks)@.len() as int) == old(before_tasks)@,
        forall|i: int|
            0 <= i < with_before(entries@).len() ==> is_before_task(
                #[trigger] final(before_tasks)@[old(before_tasks)@.len() + i],
                with_before(entries@)[i],
                current_exe@,
            ),
        final(namer).count() == old(namer).count() + entries@.len() + with_before(
            entries@,
        ).len(),
{
    let ghost all = entries@;
    let ghost had = tasks@;
    let ghost had_before = before_tasks@;
    let ghost named = namer.count();
    for entry in it: entries
        invariant
            it.seq() == all,
            named + 2 * all.len() <= usize::MAX,
            tasks@.len() == had.len() + it.index(),
            tasks@.take(had.len() as int) == had,
            forall|i: int|
                0 <= i < it.index() ==> is_file_task(
                    #[trigger] tasks@[had.len() + i],
                    all[i],
                    current_exe@,
                ),
            with_before(all.take(it.index() as int)).len() <= it.index(),
            before_tasks@.len() == had_before.len() + with_before(
                all.take(it.index() as int),
            ).len(),
            before_tasks@.take(had_before.len() as int) == had_before,
            forall|i: int|
                0 <= i < with_before(all.take(it.index() as int)).len() ==> is_before_task(
                    #[trigger] before_tasks@[had_before.len() + i],
                    with_before(all.take(it.index() as int))[i],
                    current_exe@,
                ),
            namer.count() == named + it.index() + with_before(all.take(it.index() as int)).len(),
    {
        let ghost idx = it.index() as int;
        proof {
            reveal(Seq::filter);
            assert(all.take(idx + 1).drop_last() =~= all.take(idx));
        }
        let (name, options) = entry;
        let color = namer.next_color();
        let tag = namer.next_with_name(name.as_str());
        let before = match options.prepare {
            Some(command) => {
                let mut title = "(before) ".to_owned();
                title.append(name.as_str());
                proof {
                    reveal_strlit("(before) ");
                }
                let before_color = namer.next_color();
                let before_tag = namer.next_with_name(title.as_str());
                Some(
                    Task::shell(
                        title,
                        before_color,
                        before_tag,
                        command,
                        FILE_TASK_RETRIES,
                        current_exe.to_owned(),
                    ),
                )
            },
            None => None,
        };
        let task = match options.task_options {
            TaskTypeOptions::Shell(shell) => {
                let line = shell.command.to_string();
                Task::shell(
                    name,
                    color,
                    tag,
                    expand(line.as_str()),
                    FILE_TASK_RETRIES,
                    current_exe.to_owned(),
                )
            },
            TaskTypeOptions::Cargo(cargo) => Task {
                name,
                prepare: None,
                retries: 0,
                max_retries: FILE_TASK_RETRIES,
                delay: None,
                color,
                tag,
                opts: TaskTypeOptions::Cargo(cargo),
                current_exe: current_exe.to_owned(),
            },
        };
        tasks.push(task);
        match before {
            Some(first) => {
                before_tasks.push(first);
                assert(with_before(all.take(idx + 1)) == with_before(all.take(idx)).push(all[idx]));
            },
            None => {},
        }
    }
    assert(all.take(all.len() as int) =~= all);
}

} // verus!
