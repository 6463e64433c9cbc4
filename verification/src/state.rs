//! The session state: whether a command is waiting for a follow-up line,
//! and for which task.

use vstd::prelude::*;

verus! {

/// The commands that wait for a second line of input before completing.
#[derive(Clone, Copy, Debug, PartialEq, Eq, Structural)]
pub enum CommandId {
    Add,
    Edit,
    Remove,
    Clear,
    Save,
    Load,
}

/// What kind of follow-up line the pending command expects.
#[derive(Clone, Copy, Debug, PartialEq, Eq, Structural)]
pub enum Status {
    NeedPlainText,
    NeedConfirmation,
}

pub struct State {
    pub command: Option<CommandId>,
    pub status: Option<Status>,
    pub task_index: Option<usize>,
}

/// The idle session state: nothing pending.
pub open spec fn idle_state() -> State {
    State { command: None, status: None, task_index: None }
}

impl State {
    /// A fresh session starts idle.
    pub fn new() -> (s: Self)
        ensures
            s == idle_state(),
    {
        Self { command: None, status: None, task_index: None }
    }

    /// Remembers a pending command, what it waits for, and its target.
    pub fn set(&mut self, command: CommandId, status: Status, task_index: Option<usize>)
        ensures
            *final (self) == (State {
                command: Some(command),
                status: Some(status),
                task_index,
            }),
    {
        self.command = Some(command);
        self.status = Some(status);
        self.task_index = task_index;
    }

    /// Returns to the idle state.
    pub fn reset(&mut self)
        ensures
            *final (self) == idle_state(),
    {
        self.command = None;
        self.status = None;
        self.task_index = None;
    }
}

} // verus!
