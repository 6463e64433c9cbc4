//! A single todo entry: its text and whether it is done.

use vstd::prelude::*;

verus! {

/// The mathematical model of a task: its text as a character sequence and
/// its done flag.
pub struct TaskView {
    pub text: Seq<char>,
    pub done: bool,
}

pub struct Task {
    pub text: String,
    pub is_done: bool,
}

impl View for Task {
    type V = TaskView;

    open spec fn view(&self) -> TaskView {
        TaskView { text: self.text@, done: self.is_done }
    }
}

impl Task {
    /// A fresh task starts undone.
    pub fn new(text: String) -> (t: Self)
        ensures
            t@ == (TaskView { text: text@, done: false }),
    {
        Self { text, is_done: false }
    }

    pub fn done(&mut self)
        ensures
            final (self)@ == (TaskView { text: old(self)@.text, done: true }),
    {
        self.is_done = true;
    }

    pub fn undone(&mut self)
        ensures
            final (self)@ == (TaskView { text: old(self)@.text, done: false }),
    {
        self.is_done = false;
    }

    pub fn alter(&mut self, next_text: String)
        ensures
            final (self)@ == (TaskView { text: next_text@, done: old(self)@.done }),
    {
        self.text = next_text;
    }
}

} // verus!
