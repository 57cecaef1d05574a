//! The configuration record that tasks are made from: a list of named task
//! options, and the values that a command is read from.

use crate::text::{
    blank, chars_of, is_blank, join, join_strings, replace_char, replaced, trim, trimmed, views,
};
use std::time::Duration;
use vstd::prelude::*;

verus! {

/// A value of a configuration document, as far as the reading of a command
/// looks into it. A float is held by its bit pattern.
#[derive(Debug, PartialEq, Eq)]
pub enum Value {
    String(String),
    Integer(i64),
    Float(u64),
    Boolean(bool),
    Datetime,
    Array(Vec<Value>),
    Table,
}

/// What stood where a command was expected: the value is neither a string nor
/// an array of strings.
#[derive(Clone, Copy, Debug, PartialEq, Eq, Structural)]
pub enum Unexpected {
    Signed(i64),
    Float(u64),
    Bool(bool),
    Datetime,
    Array,
    Table,
}

/// The command of a shell task: one string, or a list of arguments.
#[derive(Clone, Debug, PartialEq, Eq)]
pub enum Command {
    String(String),
    Args(Vec<String>),
}

/// A command as plain text.
pub enum CommandView {
    String(Seq<char>),
    Args(Seq<Seq<char>>),
}

impl View for Command {
    type V = CommandView;

    open spec fn view(&self) -> CommandView {
        match self {
            Command::String(s) => CommandView::String(s@),
            Command::Args(args) => CommandView::Args(views(args@)),
        }
    }
}

/// The complaint that `value` gives rise to where a string is expected.
pub open spec fn mismatch(value: Value) -> Option<Unexpected> {
    match value {
        Value::String(_) => None,
        Value::Integer(i) => Some(Unexpected::Signed(i)),
        Value::Float(bits) => Some(Unexpected::Float(bits)),
        Value::Boolean(b) => Some(Unexpected::Bool(b)),
        Value::Datetime => Some(Unexpected::Datetime),
        Value::Array(_) => Some(Unexpected::Array),
        Value::Table => Some(Unexpected::Table),
    }
}

/// The complaint about the first of `items` that is not a string, if there is one.
pub open spec fn first_mismatch(items: Seq<Value>) -> Option<Unexpected>
    decreases items.len(),
{
    if items.len() == 0 {
        None
    } else if mismatch(items[0]) is Some {
        mismatch(items[0])
    } else {
        first_mismatch(items.drop_first())
    }
}

/// The text of each of `items`, all of which are strings.
pub open spec fn strings_of(items: Seq<Value>) -> Seq<Seq<char>> {
    Seq::new(items.len(), |i: int| items[i]->String_0@)
}

/// What a value is read as where a command is expected: a string is a command
/// line, an array of strings is an argument list, and anything else is
/// refused with the first value that is out of place.
pub open spec fn command_of(value: Value) -> Result<CommandView, Unexpected> {
    match value {
        Value::String(s) => Ok(CommandView::String(s@)),
        Value::Array(items) => match first_mismatch(items@) {
            Some(unexpected) => Err(unexpected),
            None => Ok(CommandView::Args(strings_of(items@))),
        },
        _ => Err(mismatch(value)->0),
    }
}

/// Where the first `k` items are strings, the first complaint is about item
/// `k`, if that one is out of place.
proof fn lemma_first_mismatch(items: Seq<Value>, k: int)
    requires
        0 <= k <= items.len(),
        forall|i: int| 0 <= i < k ==> mismatch(#[trigger] items[i]) is None,
    ensures
        k == items.len() ==> first_mismatch(items) is None,
        k < items.len() && mismatch(items[k]) is Some ==> first_mismatch(items) == mismatch(
            items[k],
        ),
    decreases k,
{
    if k > 0 {
        let rest = items.drop_first();
        lemma_first_mismatch(rest, k - 1);
    }
}

impl Command {
    /// The command as one text: the string itself, or the arguments with a
    /// space between neighbours.
    pub open spec fn text(&self) -> Seq<char> {
        match self {
            Command::String(s) => s@,
            Command::Args(args) => join(views(args@), seq![' ']),
        }
    }

    /// The command on one line: its text without surrounding whitespace, each
    /// line break turned into a space.
    pub open spec fn line(&self) -> Seq<char> {
        replace_char(trim(self.text()), '\n', ' ')
    }

    /// Whether the command holds nothing but whitespace.
    pub fn is_empty(&self) -> (b: bool)
        ensures
            b == is_blank(self.text()),
    {
        match self {
            Command::String(s) => blank(&chars_of(s.as_str())),
            Command::Args(args) => {
                proof {
                    reveal_strlit(" ");
                    assert(" "@ =~= seq![' ']);
                }
                let joined = join_strings(args, " ");
                blank(&chars_of(joined.as_str()))
            },
        }
    }

    /// The command on one line, as it is handed to the shell.
    pub fn to_string(&self) -> (line: String)
        ensures
            line@ == self.line(),
    {
        match self {
            Command::String(s) => replaced(trimmed(s.as_str()).as_str(), '\n', ' '),
            Command::Args(args) => {
                proof {
                    reveal_strlit(" ");
                    assert(" "@ =~= seq![' ']);
                }
                let joined = join_strings(args, " ");
                replaced(trimmed(joined.as_str()).as_str(), '\n', ' ')
            },
        }
    }

    /// Reads a command from a configuration value: see `command_of`.
    pub fn from_value(value: Value) -> (read: Result<Command, Unexpected>)
        ensures
            match read {
                Ok(command) => command_of(value) == Ok::<CommandView, Unexpected>(command@),
                Err(unexpected) => command_of(value) == Err::<CommandView, Unexpected>(unexpected),
            },
    {
        match value {
            Value::String(s) => Ok(Command::String(s)),
            Value::Array(items) => {
                let mut args: Vec<String> = Vec::new();
                let ghost all = items@;
                for item in it: items
                    invariant
                        it.seq() == all,
                        value is Array,
                        value->Array_0@ == all,
                        args.len() == it.index(),
                        forall|i: int| 0 <= i < it.index() ==> mismatch(#[trigger] all[i]) is None,
                        forall|i: int|
                            0 <= i < it.index() ==> (#[trigger] args@[i])@ == all[i]->String_0@,
                {
                    let ghost k = it.index() as int;
                    match item {
                        Value::String(s) => {
                            args.push(s);
                        },
                        Value::Integer(i) => {
                            proof {
                                lemma_first_mismatch(all, k);
                            }
                            return Err(Unexpected::Signed(i));
                        },
                        Value::Float(bits) => {
                            proof {
                                lemma_first_mismatch(all, k);
                            }
                            return Err(Unexpected::Float(bits));
                        },
                        Value::Boolean(b) => {
                            proof {
                                lemma_first_mismatch(all, k);
                            }
                            return Err(Unexpected::Bool(b));
                        },
                        Value::Datetime => {
                            proof {
                                lemma_first_mismatch(all, k);
                            }
                            return Err(Unexpected::Datetime);
                        },
                        Value::Array(_) => {
                            proof {
                                lemma_first_mismatch(all, k);
                            }
                            return Err(Unexpected::Array);
                        },
                        Value::Table => {
                            proof {
                                lemma_first_mismatch(all, k);
                            }
                            return Err(Unexpected::Table);
                        },
                    }
                }
                proof {
                    lemma_first_mismatch(all, all.len() as int);
                    assert(views(args@) =~= strings_of(all));
                }
                Ok(Command::Args(args))
            },
            Value::Integer(i) => Err(Unexpected::Signed(i)),
            Value::Float(bits) => Err(Unexpected::Float(bits)),
            Value::Boolean(b) => Err(Unexpected::Bool(b)),
            Value::Datetime => Err(Unexpected::Datetime),
            Value::Table => Err(Unexpected::Table),
        }
    }
}

/// The options of a task that runs a shell command.
#[derive(Clone, Debug, PartialEq, Eq)]
pub struct ShellTaskOptions {
    pub command: Command,
}

/// The options of a task that builds and runs a member of the workspace.
#[derive(Clone, Debug, PartialEq, Eq)]
pub struct CargoTaskOptions {
    pub release: bool,
    pub features: Vec<String>,
}

impl Default for CargoTaskOptions {
    fn default() -> (options: CargoTaskOptions)
        ensures
            !options.release,
            options.features@.len() == 0,
    {
        CargoTaskOptions { release: false, features: Vec::new() }
    }
}

/// The two kinds of task.
#[derive(Clone, Debug, PartialEq, Eq)]
pub enum TaskTypeOptions {
    Shell(ShellTaskOptions),
    Cargo(CargoTaskOptions),
}

impl TaskTypeOptions {
    /// Whether the entry `cargo` of a task's table marks a task that builds and
    /// runs a workspace member: it does when it is present and is the boolean
    /// `true`. Every other task is a shell task.
    pub fn is_cargo_marker(entry: &Option<Value>) -> (b: bool)
        ensures
            b == (*entry == Some(Value::Boolean(true))),
    {
        match entry {
            Some(Value::Boolean(flag)) => *flag,
            _ => false,
        }
    }
}

/// What the configuration says of one task.
#[derive(Clone, Debug, PartialEq, Eq)]
pub struct TaskOptions {
    pub task_options: TaskTypeOptions,
    pub prepare: Option<String>,
    pub delay: Option<Duration>,
    pub retries: usize,
}

/// The configuration: the tasks by name, and the name of an environment file.
#[derive(Debug, PartialEq, Eq)]
pub struct Config {
    pub tasks: Vec<(String, TaskOptions)>,
    pub env: Option<String>,
}

impl Default for Config {
    fn default() -> (config: Config)
        ensures
            config.tasks@.len() == 0,
            config.env is None,
            config.wf(),
    {
        Config { tasks: Vec::new(), env: None }
    }
}

impl Config {
    /// The names of the tasks, in the order in which they are held.
    pub open spec fn names(&self) -> Seq<Seq<char>> {
        Seq::new(self.tasks@.len(), |i: int| self.tasks@[i].0@)
    }

    /// No two tasks bear the same name.
    pub open spec fn wf(&self) -> bool {
        forall|i: int, j: int|
            0 <= i < j < self.tasks@.len() ==> (#[trigger] self.tasks@[i]).0@ != (
            #[trigger] self.tasks@[j]).0@
    }

    /// The place of the task called `name`, if there is one.
    pub fn position(&self, name: &str) -> (found: Option<usize>)
        ensures
            match found {
                Some(i) => i < self.tasks@.len() && self.tasks@[i as int].0@ == name@ && forall|
                    j: int,
                | 0 <= j < i ==> (#[trigger] self.tasks@[j]).0@ != name@,
                None => forall|j: int|
                    0 <= j < self.tasks@.len() ==> (#[trigger] self.tasks@[j]).0@ != name@,
            },
    {
        let wanted = name.to_owned();
        let mut i: usize = 0;
        while i < self.tasks.len()
            invariant
                i <= self.tasks@.len(),
                wanted@ == name@,
                forall|j: int| 0 <= j < i ==> (#[trigger] self.tasks@[j]).0@ != name@,
            decreases self.tasks@.len() - i,
        {
            if self.tasks[i].0 == wanted {
                return Some(i);
            }
            i += 1;
        }
        None
    }

    /// Sets the options of the task called `name`. Where a task of that name
    /// exists its options are replaced, in place, and the old ones returned;
    /// otherwise the task is added at the end.
    pub fn insert(&mut self, name: String, options: TaskOptions) -> (replaced: Option<TaskOptions>)
        requires
            old(self).wf(),
        ensures
            final(self).wf(),
            final(self).env == old(self).env,
            match replaced {
                Some(previous) => exists|i: int|
                    0 <= i < old(self).tasks@.len() && (#[trigger] old(self).tasks@[i]).0@ == name@
                        && old(self).tasks@[i].1 == previous && final(self).tasks@ == old(
                        self,
                    ).tasks@.update(i, (name, options)),
                None => !old(self).names().contains(name@) && final(self).tasks@ == old(
                    self,
                ).tasks@.push((name, options)),
            },
    {
        match self.position(name.as_str()) {
            Some(i) => {
                let (_, previous) = self.tasks.remove(i);
                self.tasks.insert(i, (name, options));
                Some(previous)
            },
            None => {
                assert(!self.names().contains(name@)) by {
                    assert forall|j: int| 0 <= j < self.names().len() implies self.names()[j]
                        != name@ by {
                        assert(self.tasks@[j].0@ != name@);
                    }
                }
                self.tasks.push((name, options));
                None
            },
        }
    }
}

} // verus!
