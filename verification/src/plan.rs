//! From the configuration to the tasks of a run: which tasks were asked for,
//! in which order they stand, and how their tags are padded and coloured.

use crate::config::TaskOptions;
use crate::style::{is_plain, is_styled, tag_color, tag_palette};
use crate::task::{tag_layout, tag_width, Task};
use crate::text::{chars_of, split, split_string, views};
use vstd::prelude::*;
use vstd::seq_lib::{to_multiset_build, to_multiset_insert};

verus! {

/// A named entry of the configuration.
pub type Entry = (String, TaskOptions);

/// Whether `a` stands before `b`, or is `b`, in the order of the dictionary:
/// the first character in which they differ decides, by its code point, and a
/// text stands before each of its extensions.
pub open spec fn lex_le(a: Seq<char>, b: Seq<char>) -> bool
    decreases a.len(),
{
    if a.len() == 0 {
        true
    } else if b.len() == 0 {
        false
    } else if (a[0] as u32) != (b[0] as u32) {
        (a[0] as u32) < (b[0] as u32)
    } else {
        lex_le(a.drop_first(), b.drop_first())
    }
}

/// The names asked for on the command line: each argument may hold several,
/// with commas between them.
pub open spec fn wanted_names(args: Seq<Seq<char>>) -> Seq<Seq<char>>
    decreases args.len(),
{
    if args.len() == 0 {
        Seq::empty()
    } else {
        wanted_names(args.drop_last()) + split(args.last(), ',')
    }
}

/// Whether the task called `name` takes part: every task does where none was
/// asked for by name.
pub open spec fn is_wanted(name: Seq<char>, wanted: Seq<Seq<char>>) -> bool {
    wanted.len() == 0 || wanted.contains(name)
}

/// The entries that take part, in the order of the configuration.
pub open spec fn chosen(entries: Seq<Entry>, wanted: Seq<Seq<char>>) -> Seq<Entry> {
    entries.filter(|entry: Entry| is_wanted(entry.0@, wanted))
}

/// The entries stand in the order of their names.
pub open spec fn sorted_by_name(entries: Seq<Entry>) -> bool {
    forall|i: int, j: int|
        0 <= i <= j < entries.len() ==> lex_le(
            (#[trigger] entries[i]).0@,
            (#[trigger] entries[j]).0@,
        )
}

/// The length of the longest name; zero where there is none.
pub open spec fn longest(entries: Seq<Entry>) -> nat
    decreases entries.len(),
{
    if entries.len() == 0 {
        0
    } else {
        let before = longest(entries.drop_last());
        if entries.last().0@.len() > before {
            entries.last().0@.len()
        } else {
            before
        }
    }
}

/// Whether `task` is what entry `index` of `entries` gives rise to: it bears
/// the entry's name and options, has not been retried, takes its colour from
/// the palette by its index, and its tag is padded to the longest name.
pub open spec fn planned(task: Task, entries: Seq<Entry>, index: int, current_exe: Seq<char>)
    -> bool {
    let entry = entries[index];
    let padding = (longest(entries) - entry.0@.len()) as nat;
    &&& task.name == entry.0
    &&& task.color == tag_palette()[index % 10]
    &&& task.prepare == entry.1.prepare
    &&& task.retries == 0
    &&& task.max_retries == entry.1.retries
    &&& task.delay == entry.1.delay
    &&& task.opts == entry.1.task_options
    &&& task.current_exe@ == current_exe
    &&& exists|label: Seq<char>, bar: Seq<char>|
        {
            &&& task.tag@ == #[trigger] tag_layout(label, padding, bar)
            &&& is_plain(entry.0@) ==> is_styled(label, entry.0@)
            &&& is_styled(bar, seq!['|'])
        }
}

/// The order of the dictionary leaves no two texts unrelated.
pub proof fn lemma_lex_total(a: Seq<char>, b: Seq<char>)
    ensures
        lex_le(a, b) || lex_le(b, a),
    decreases a.len(),
{
    if a.len() > 0 && b.len() > 0 && (a[0] as u32) == (b[0] as u32) {
        lemma_lex_total(a.drop_first(), b.drop_first());
    }
}

/// The order of the dictionary is transitive.
pub proof fn lemma_lex_transitive(a: Seq<char>, b: Seq<char>, c: Seq<char>)
    requires
        lex_le(a, b),
        lex_le(b, c),
    ensures
        lex_le(a, c),
    decreases a.len(),
{
    if a.len() > 0 && b.len() > 0 && c.len() > 0 && (a[0] as u32) == (b[0] as u32) && (
    b[0] as u32) == (c[0] as u32) {
        lemma_lex_transitive(a.drop_first(), b.drop_first(), c.drop_first());
    }
}

/// No name is longer than the longest.
pub proof fn lemma_longest_bounds(entries: Seq<Entry>, index: int)
    requires
        0 <= index < entries.len(),
    ensures
        entries[index].0@.len() <= longest(entries),
    decreases entries.len(),
{
    if index < entries.len() - 1 {
        lemma_longest_bounds(entries.drop_last(), index);
    }
}

/// Tags that are padded to the longest name are equally wide.
pub proof fn lemma_tags_align(entries: Seq<Entry>, i: int, j: int)
    requires
        0 <= i < entries.len(),
        0 <= j < entries.len(),
    ensures
        tag_width(entries[i].0@, (longest(entries) - entries[i].0@.len()) as nat) == tag_width(
            entries[j].0@,
            (longest(entries) - entries[j].0@.len()) as nat,
        ),
        tag_width(entries[i].0@, (longest(entries) - entries[i].0@.len()) as nat) == longest(
            entries,
        ) + 4,
{
    lemma_longest_bounds(entries, i);
    lemma_longest_bounds(entries, j);
}

/// Whether `a` stands before `b`, or is `b`, in the order of the dictionary.
pub fn name_precedes(a: &str, b: &str) -> (r: bool)
    ensures
        r == lex_le(a@, b@),
{
    let x = chars_of(a);
    let y = chars_of(b);
    let mut i: usize = 0;
    assert(x@.skip(0) =~= x@ && y@.skip(0) =~= y@);
    while i < x.len() && i < y.len()
        invariant
            i <= x.len(),
            i <= y.len(),
            x@ == a@,
            y@ == b@,
            lex_le(a@, b@) == lex_le(x@.skip(i as int), y@.skip(i as int)),
        decreases x.len() - i,
    {
        if (x[i] as u32) != (y[i] as u32) {
            return (x[i] as u32) < (y[i] as u32);
        }
        assert(x@.skip(i as int).drop_first() =~= x@.skip(i + 1));
        assert(y@.skip(i as int).drop_first() =~= y@.skip(i + 1));
        i += 1;
    }
    i == x.len()
}

/// The names asked for by the arguments of the command line.
pub fn split_selection(args: &Vec<String>) -> (names: Vec<String>)
    ensures
        views(names@) == wanted_names(views(args@)),
{
    let mut names: Vec<String> = Vec::new();
    let mut i: usize = 0;
    while i < args.len()
        invariant
            i <= args.len(),
            views(names@) == wanted_names(views(args@).take(i as int)),
        decreases args.len() - i,
    {
        let mut pieces = split_string(args[i].as_str(), ',');
        names.append(&mut pieces);
        i += 1;
        assert(views(args@).take(i as int).drop_last() =~= views(args@).take(i - 1));
    }
    assert(views(args@).take(i as int) =~= views(args@));
    names
}

/// Whether the task called `name` takes part, given the names asked for.
pub fn wanted(name: &String, names: &Vec<String>) -> (b: bool)
    ensures
        b == is_wanted(name@, views(names@)),
{
    if names.len() == 0 {
        return true;
    }
    let mut i: usize = 0;
    while i < names.len()
        invariant
            i <= names.len(),
            forall|j: int| 0 <= j < i ==> views(names@)[j] != name@,
        decreases names.len() - i,
    {
        if names[i] == *name {
            assert(views(names@)[i as int] == name@);
            return true;
        }
        i += 1;
    }
    false
}

/// The entries that take part, in the order of their names.
pub fn select_tasks(entries: Vec<Entry>, names: &Vec<String>) -> (selected: Vec<Entry>)
    ensures
        sorted_by_name(selected@),
        selected@.to_multiset() == chosen(entries@, views(names@)).to_multiset(),
{
    let ghost all = entries@;
    let ghost asked = views(names@);
    let mut selected: Vec<Entry> = Vec::new();
    assert(selected@ =~= chosen(all.take(0), asked));
    for entry in it: entries
        invariant
            it.seq() == all,
            asked == views(names@),
            sorted_by_name(selected@),
            selected@.to_multiset() == chosen(all.take(it.index() as int), asked).to_multiset(),
    {
        let ghost idx = it.index() as int;
        let ghost kept = chosen(all.take(idx), asked);
        proof {
            reveal(Seq::filter);
            assert(all.take(idx + 1).drop_last() =~= all.take(idx));
        }
        if wanted(&entry.0, names) {
            let mut at: usize = 0;
            while at < selected.len() && name_precedes(
                selected[at].0.as_str(),
                entry.0.as_str(),
            )
                invariant
                    at <= selected.len(),
                    forall|k: int|
                        0 <= k < at ==> lex_le((#[trigger] selected@[k]).0@, entry.0@),
                decreases selected.len() - at,
            {
                at += 1;
            }
            let ghost before = selected@;
            proof {
                assert forall|k: int| at <= k < before.len() implies lex_le(
                    entry.0@,
                    (#[trigger] before[k]).0@,
                ) by {
                    lemma_lex_total(before[at as int].0@, entry.0@);
                    lemma_lex_transitive(entry.0@, before[at as int].0@, before[k].0@);
                }
                to_multiset_insert(before, at as int, entry);
                to_multiset_build(kept, entry);
            }
            selected.insert(at, entry);
            proof {
                let after = selected@;
                assert forall|i: int, j: int| 0 <= i <= j < after.len() implies lex_le(
                    (#[trigger] after[i]).0@,
                    (#[trigger] after[j]).0@,
                ) by {
                    if i == at && j == at {
                        lemma_lex_total(entry.0@, entry.0@);
                    }
                }
            }
        }
    }
    assert(all.take(all.len() as int) =~= all);
    selected
}

/// The length of the longest name among `entries`.
pub fn longest_name(entries: &Vec<Entry>) -> (n: usize)
    ensures
        n == longest(entries@),
{
    let mut n: usize = 0;
    let mut i: usize = 0;
    while i < entries.len()
        invariant
            i <= entries.len(),
            n == longest(entries@.take(i as int)),
        decreases entries.len() - i,
    {
        let len = entries[i].0.as_str().unicode_len();
        if len > n {
            n = len;
        }
        i += 1;
        assert(entries@.take(i as int).drop_last() =~= entries@.take(i - 1));
    }
    assert(entries@.take(i as int) =~= entries@);
    n
}

/// A task for each of `entries`, in their order: see `planned`.
pub fn build_tasks(entries: Vec<Entry>, current_exe: &str) -> (tasks: Vec<Task>)
    ensures
        tasks@.len() == entries@.len(),
        forall|i: int|
            0 <= i < tasks@.len() ==> planned(#[trigger] tasks@[i], entries@, i, current_exe@),
{
    let width = longest_name(&entries);
    let ghost all = entries@;
    let mut tasks: Vec<Task> = Vec::new();
    for entry in it: entries
        invariant
            it.seq() == all,
            width == longest(all),
            tasks@.len() == it.index(),
            forall|i: int|
                0 <= i < tasks@.len() ==> planned(#[trigger] tasks@[i], all, i, current_exe@),
    {
        let ghost idx = it.index() as int;
        let (name, options) = entry;
        proof {
            lemma_longest_bounds(all, idx);
        }
        let padding = width - name.as_str().unicode_len();
        let task = Task::from_options(
            name,
            tag_color(tasks.len()),
            padding,
            options,
            current_exe.to_owned(),
        );
        proof {
            let (label, bar) = choose|label: Seq<char>, bar: Seq<char>|
                {
                    &&& task.tag@ == #[trigger] tag_layout(label, padding as nat, bar)
                    &&& is_plain(all[idx].0@) ==> is_styled(label, all[idx].0@)
                    &&& is_styled(bar, seq!['|'])
                };
            assert(task.tag@ == tag_layout(
                label,
                (longest(all) - all[idx].0@.len()) as nat,
                bar,
            ));
        }
        tasks.push(task);
    }
    tasks
}

/// The tasks of a run: the entries of the configuration that the arguments
/// ask for, all of them where none is named, in the order of their names.
pub fn plan_tasks(entries: Vec<Entry>, args: &Vec<String>, current_exe: &str) -> (tasks: Vec<Task>)
    ensures
        exists|selected: Seq<Entry>|
            {
                &&& sorted_by_name(selected)
                &&& selected.to_multiset() == chosen(
                    entries@,
                    wanted_names(views(args@)),
                ).to_multiset()
                &&& tasks@.len() == selected.len()
                &&& forall|i: int|
                    0 <= i < tasks@.len() ==> planned(
                        #[trigger] tasks@[i],
                        selected,
                        i,
                        current_exe@,
                    )
            },
{
    let names = split_selection(args);
    let selected = select_tasks(entries, &names);
    let tasks = build_tasks(selected, current_exe);
    tasks
}

} // verus!
