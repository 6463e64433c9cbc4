//! The bounded, ordered task list and its operations.

use crate::task::{Task, TaskView};
use crate::task_parser;
use crate::task_parser::{render, scan};
use vstd::prelude::*;

verus! {

/// The most tasks the list accepts through `add`.
pub const TASKS_LIST_MAX_CAPACITY: usize = 200;

#[derive(Debug, PartialEq, Eq)]
pub enum Error {
    CapacityExceeded,
    ItemNotFound,
    InvalidPattern,
}

pub struct List {
    tasks: Vec<Task>,
}

impl View for List {
    type V = Seq<TaskView>;

    closed spec fn view(&self) -> Seq<TaskView> {
        self.tasks@.map_values(|t: Task| t@)
    }
}

/// The model of replacing the text of the task at `i`.
pub open spec fn spec_alter(s: Seq<TaskView>, i: int, text: Seq<char>) -> Seq<TaskView>
    recommends
        0 <= i < s.len(),
{
    s.update(i, TaskView { text, done: s[i].done })
}

/// The model of setting the done flag of the task at `i`.
pub open spec fn spec_mark(s: Seq<TaskView>, i: int, done: bool) -> Seq<TaskView>
    recommends
        0 <= i < s.len(),
{
    s.update(i, TaskView { text: s[i].text, done })
}

impl List {
    pub fn new() -> (l: Self)
        ensures
            l@ == Seq::<TaskView>::empty(),
    {
        let l = Self { tasks: Vec::new() };
        proof {
            assert(l@ =~= Seq::<TaskView>::empty());
        }
        l
    }

    pub fn is_empty(&self) -> (r: bool)
        ensures
            r == (self@.len() == 0),
    {
        self.tasks.len() == 0
    }

    /// The number of tasks held.
    pub fn len(&self) -> (n: usize)
        ensures
            n == self@.len(),
    {
        self.tasks.len()
    }

    pub fn get(&self, index: usize) -> (r: Result<&Task, Error>)
        ensures
            index < self@.len() <==> r is Ok,
            r is Ok ==> r->Ok_0@ == self@[index as int],
            r is Err ==> r->Err_0 == Error::ItemNotFound,
    {
        if index < self.tasks.len() {
            Ok(&self.tasks[index])
        } else {
            Err(Error::ItemNotFound)
        }
    }

    /// Appends a fresh undone task, unless the list is full.
    pub fn add(&mut self, text: String) -> (r: Result<(), Error>)
        ensures
            old(self)@.len() < TASKS_LIST_MAX_CAPACITY ==> r is Ok && final (self)@ == old(
                self,
            )@.push(TaskView { text: text@, done: false }),
            old(self)@.len() >= TASKS_LIST_MAX_CAPACITY ==> r == Result::<(), Error>::Err(
                Error::CapacityExceeded,
            ) && final (self)@ == old(self)@,
    {
        if self.tasks.len() < TASKS_LIST_MAX_CAPACITY {
            self.tasks.push(Task { text, is_done: false });
            proof {
                assert(self@ =~= old(self)@.push(TaskView { text: text@, done: false }));
            }
            Ok(())
        } else {
            Err(Error::CapacityExceeded)
        }
    }

    /// Deletes the task at `index`, shifting every later task down by one.
    pub fn remove(&mut self, index: usize) -> (r: Result<(), Error>)
        ensures
            index < old(self)@.len() ==> r is Ok && final (self)@ == old(self)@.remove(
                index as int,
            ),
            index >= old(self)@.len() ==> r == Result::<(), Error>::Err(Error::ItemNotFound)
                && final (self)@ == old(self)@,
    {
        if index < self.tasks.len() {
            self.tasks.remove(index);
            proof {
                assert(self@ =~= old(self)@.remove(index as int));
            }
            Ok(())
        } else {
            Err(Error::ItemNotFound)
        }
    }

    /// Replaces the text of the task at `index`, keeping its done flag.
    pub fn alter(&mut self, index: usize, next_text: String) -> (r: Result<(), Error>)
        ensures
            index < old(self)@.len() ==> r is Ok && final (self)@ == spec_alter(
                old(self)@,
                index as int,
                next_text@,
            ),
            index >= old(self)@.len() ==> r == Result::<(), Error>::Err(Error::ItemNotFound)
                && final (self)@ == old(self)@,
    {
        if index < self.tasks.len() {
            let task = &mut self.tasks[index];
            task.text = next_text;
            proof {
                assert(self@ =~= spec_alter(old(self)@, index as int, next_text@));
            }
            Ok(())
        } else {
            Err(Error::ItemNotFound)
        }
    }

    pub fn clear(&mut self)
        ensures
            final (self)@ == Seq::<TaskView>::empty(),
    {
        self.tasks.clear();
        proof {
            assert(self@ =~= Seq::<TaskView>::empty());
        }
    }

    pub fn mark_done(&mut self, index: usize) -> (r: Result<(), Error>)
        ensures
            index < old(self)@.len() ==> r is Ok && final (self)@ == spec_mark(
                old(self)@,
                index as int,
                true,
            ),
            index >= old(self)@.len() ==> r == Result::<(), Error>::Err(Error::ItemNotFound)
                && final (self)@ == old(self)@,
    {
        if index < self.tasks.len() {
            let task = &mut self.tasks[index];
            task.is_done = true;
            proof {
                assert(self@ =~= spec_mark(old(self)@, index as int, true));
            }
            Ok(())
        } else {
            Err(Error::ItemNotFound)
        }
    }

    pub fn mark_undone(&mut self, index: usize) -> (r: Result<(), Error>)
        ensures
            index < old(self)@.len() ==> r is Ok && final (self)@ == spec_mark(
                old(self)@,
                index as int,
                false,
            ),
            index >= old(self)@.len() ==> r == Result::<(), Error>::Err(Error::ItemNotFound)
                && final (self)@ == old(self)@,
    {
        if index < self.tasks.len() {
            let task = &mut self.tasks[index];
            task.is_done = false;
            proof {
                assert(self@ =~= spec_mark(old(self)@, index as int, false));
            }
            Ok(())
        } else {
            Err(Error::ItemNotFound)
        }
    }

    /// Renders the list in the record format, one line per task.
    pub fn to_text(&self) -> (r: String)
        ensures
            r@ == render(self@),
    {
        task_parser::to_text(&self.tasks)
    }

    /// Replaces the whole list with the records found in `text`.  Fails,
    /// leaving the list unchanged, when `text` holds no record.
    pub fn from_text(&mut self, text: &str) -> (r: Result<(), Error>)
        ensures
            scan(text@).len() > 0 ==> r is Ok && final (self)@ == scan(text@),
            scan(text@).len() == 0 ==> r == Result::<(), Error>::Err(Error::InvalidPattern)
                && final (self)@ == old(self)@,
    {
        match task_parser::from_text(text) {
            Ok(tasks) => {
                self.tasks = tasks;
                Ok(())
            },
            Err(()) => Err(Error::InvalidPattern),
        }
    }
}

/// Removing the task at `i` drops the length by exactly one, keeps the
/// tasks before `i`, and shifts every later task up by one position.
pub proof fn lemma_remove_shifts(s: Seq<TaskView>, i: int)
    requires
        0 <= i < s.len(),
    ensures
        s.remove(i).len() == s.len() - 1,
        forall|k: int| 0 <= k < i ==> s.remove(i)[k] == s[k],
        forall|k: int| i <= k < s.len() - 1 ==> s.remove(i)[k] == s[k + 1],
{
}

/// Marking a task done and then undone returns an undone task to its
/// original state.
pub proof fn lemma_mark_roundtrip(s: Seq<TaskView>, i: int)
    requires
        0 <= i < s.len(),
        s[i].done == false,
    ensures
        spec_mark(spec_mark(s, i, true), i, false) == s,
{
    assert(spec_mark(spec_mark(s, i, true), i, false) =~= s);
}

/// Marking with either flag is idempotent.
pub proof fn lemma_mark_idempotent(s: Seq<TaskView>, i: int, done: bool)
    requires
        0 <= i < s.len(),
    ensures
        spec_mark(spec_mark(s, i, done), i, done) == spec_mark(s, i, done),
{
    assert(spec_mark(spec_mark(s, i, done), i, done) =~= spec_mark(s, i, done));
}

} // verus!
