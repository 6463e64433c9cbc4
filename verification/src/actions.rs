//! The action dispatcher: routes a raw input line, together with the
//! session state, to the right list operation, and reports the outcome.
//!
//! Commands that need a second line (add, edit, remove, clear, save, load)
//! first put the session into a pending state; the next raw line is then
//! consumed as free text or as a confirmation.  Saving and loading are
//! split at the file boundary: the dispatcher hands back a
//! `SaveRequested` or `LoadRequested` result carrying the path (and, for
//! saving, the rendered contents), and the caller reports the outcome of
//! the file operation through `save_done` or `load_done`.

use crate::command_parser::{
    arguments_of, command_of, is_confirm, is_confirm_token, parse, string_views, ParseResult,
};
use crate::list::{spec_alter, spec_mark, Error, List, TASKS_LIST_MAX_CAPACITY};
use crate::state::{idle_state, CommandId, State, Status};
use crate::strings::str_eq;
use crate::task::TaskView;
use crate::task_parser::{render, scan};
use crate::utils::{norm, trim_str};
use crate::validators::{is_index_token, lemma_index_token_positive, parse_index, token_num};
use vstd::prelude::*;

verus! {

#[derive(Debug, PartialEq, Eq)]
pub enum ActionResult {
    Sh,
    Okay,
    Terminate,
    ListFull,
    ListEmpty,
    TaskNotFound,
    FileReadError,
    UnknownCommand,
    InvalidArguments,
    NeedConfirm,
    NeedFilePath,
    NeedTask,
    CannotSave,
    CannotLoad,
    Feedback(String),
    SaveRequested { path: String, contents: String },
    LoadRequested { path: String },
}

/// The model of an `ActionResult`: the same outcome with its strings as
/// character sequences.
pub enum ActionView {
    Sh,
    Okay,
    Terminate,
    ListFull,
    ListEmpty,
    TaskNotFound,
    FileReadError,
    UnknownCommand,
    InvalidArguments,
    NeedConfirm,
    NeedFilePath,
    NeedTask,
    CannotSave,
    CannotLoad,
    Feedback(Seq<char>),
    SaveRequested { path: Seq<char>, contents: Seq<char> },
    LoadRequested { path: Seq<char> },
}

impl View for ActionResult {
    type V = ActionView;

    open spec fn view(&self) -> ActionView {
        match self {
            ActionResult::Sh => ActionView::Sh,
            ActionResult::Okay => ActionView::Okay,
            ActionResult::Terminate => ActionView::Terminate,
            ActionResult::ListFull => ActionView::ListFull,
            ActionResult::ListEmpty => ActionView::ListEmpty,
            ActionResult::TaskNotFound => ActionView::TaskNotFound,
            ActionResult::FileReadError => ActionView::FileReadError,
            ActionResult::UnknownCommand => ActionView::UnknownCommand,
            ActionResult::InvalidArguments => ActionView::InvalidArguments,
            ActionResult::NeedConfirm => ActionView::NeedConfirm,
            ActionResult::NeedFilePath => ActionView::NeedFilePath,
            ActionResult::NeedTask => ActionView::NeedTask,
            ActionResult::CannotSave => ActionView::CannotSave,
            ActionResult::CannotLoad => ActionView::CannotLoad,
            ActionResult::Feedback(s) => ActionView::Feedback(s@),
            ActionResult::SaveRequested { path, contents } => ActionView::SaveRequested {
                path: path@,
                contents: contents@,
            },
            ActionResult::LoadRequested { path } => ActionView::LoadRequested { path: path@ },
        }
    }
}

/// One step of the session: the tasks and state after it, and what it
/// reports.
pub struct Step {
    pub tasks: Seq<TaskView>,
    pub state: State,
    pub res: ActionView,
}

pub open spec fn help_text() -> Seq<char> {
    "exit     - Exit program
help     - View available commands
list     - View all tasks
clear    - Clear tasks
add      - Add new task
edit 2   - Edit task by index where 2 is index
remove 2 - Delete task by index where 2 is index
done 2   - Mark task as DONE where 2 is index
undone 2 - Mark task as UNDONE where 2 is index
save     - Save list to file
load     - Load list from file"@
}

// ---------- the transition function, pending continuations ----------

/// Completing `add`: append the text as a fresh undone task.
pub open spec fn step_add_text(t: Seq<char>, tasks: Seq<TaskView>) -> Step {
    if tasks.len() < TASKS_LIST_MAX_CAPACITY {
        Step {
            tasks: tasks.push(TaskView { text: t, done: false }),
            state: idle_state(),
            res: ActionView::Okay,
        }
    } else {
        Step { tasks, state: idle_state(), res: ActionView::ListFull }
    }
}

/// Completing `edit`: replace the text of the remembered task.
pub open spec fn step_edit_text(t: Seq<char>, tasks: Seq<TaskView>, st: State) -> Step {
    match st.task_index {
        Some(j) => if j < tasks.len() {
            Step { tasks: spec_alter(tasks, j as int, t), state: idle_state(), res: ActionView::Okay }
        } else {
            Step { tasks, state: idle_state(), res: ActionView::TaskNotFound }
        },
        None => Step { tasks, state: idle_state(), res: ActionView::TaskNotFound },
    }
}

/// Completing `remove`: only an affirmative token deletes the task.
pub open spec fn step_remove_confirm(t: Seq<char>, tasks: Seq<TaskView>, st: State) -> Step {
    if !is_confirm_token(t) {
        Step { tasks, state: idle_state(), res: ActionView::Sh }
    } else {
        match st.task_index {
            Some(j) => if j < tasks.len() {
                Step { tasks: tasks.remove(j as int), state: idle_state(), res: ActionView::Okay }
            } else {
                Step { tasks, state: idle_state(), res: ActionView::TaskNotFound }
            },
            None => Step { tasks, state: idle_state(), res: ActionView::TaskNotFound },
        }
    }
}

/// Completing `clear`: only an affirmative token empties the list.
pub open spec fn step_clear_confirm(t: Seq<char>, tasks: Seq<TaskView>) -> Step {
    if is_confirm_token(t) {
        Step { tasks: Seq::<TaskView>::empty(), state: idle_state(), res: ActionView::Okay }
    } else {
        Step { tasks, state: idle_state(), res: ActionView::Sh }
    }
}

/// Completing `save`: hand the path and the rendered list to the caller.
pub open spec fn step_save_text(t: Seq<char>, tasks: Seq<TaskView>) -> Step {
    Step {
        tasks,
        state: idle_state(),
        res: ActionView::SaveRequested { path: t, contents: render(tasks) },
    }
}

/// Completing `load`: hand the path to the caller.
pub open spec fn step_load_text(t: Seq<char>, tasks: Seq<TaskView>) -> Step {
    Step { tasks, state: idle_state(), res: ActionView::LoadRequested { path: t } }
}

/// A follow-up line for a pending command.  Every continuation returns
/// the session to the idle state; an unexpected pending command is
/// answered with the neutral signal.
pub open spec fn dispatch_pending(t: Seq<char>, tasks: Seq<TaskView>, st: State) -> Step {
    if st.status == Some(Status::NeedPlainText) {
        match st.command {
            Some(CommandId::Add) => step_add_text(t, tasks),
            Some(CommandId::Edit) => step_edit_text(t, tasks, st),
            Some(CommandId::Save) => step_save_text(t, tasks),
            Some(CommandId::Load) => step_load_text(t, tasks),
            _ => Step { tasks, state: idle_state(), res: ActionView::Sh },
        }
    } else {
        match st.command {
            Some(CommandId::Remove) => step_remove_confirm(t, tasks, st),
            Some(CommandId::Clear) => step_clear_confirm(t, tasks),
            _ => Step { tasks, state: idle_state(), res: ActionView::Sh },
        }
    }
}

// ---------- the transition function, idle commands ----------

/// An indexed command takes exactly one argument: a well-formed index
/// token whose value the machine can hold.
pub open spec fn index_arg_ok(args: Seq<Seq<char>>) -> bool {
    args.len() == 1 && is_index_token(args[0]) && token_num(args[0]) <= usize::MAX
}

/// The 0-based index named by a valid argument list.
pub open spec fn index_of_args(args: Seq<Seq<char>>) -> int {
    token_num(args[0]) - 1
}

/// `edit <n>`: remember the target and ask for the new text.
pub open spec fn step_edit(args: Seq<Seq<char>>, tasks: Seq<TaskView>, st: State) -> Step {
    if !index_arg_ok(args) {
        Step { tasks, state: st, res: ActionView::InvalidArguments }
    } else {
        let j = index_of_args(args);
        if j < tasks.len() {
            Step {
                tasks,
                state: State {
                    command: Some(CommandId::Edit),
                    status: Some(Status::NeedPlainText),
                    task_index: Some(j as usize),
                },
                res: ActionView::NeedTask,
            }
        } else {
            Step { tasks, state: st, res: ActionView::TaskNotFound }
        }
    }
}

/// `remove <n>`: remember the target and ask for a confirmation.
pub open spec fn step_remove(args: Seq<Seq<char>>, tasks: Seq<TaskView>, st: State) -> Step {
    if !index_arg_ok(args) {
        Step { tasks, state: st, res: ActionView::InvalidArguments }
    } else {
        let j = index_of_args(args);
        if j < tasks.len() {
            Step {
                tasks,
                state: State {
                    command: Some(CommandId::Remove),
                    status: Some(Status::NeedConfirmation),
                    task_index: Some(j as usize),
                },
                res: ActionView::NeedConfirm,
            }
        } else {
            Step { tasks, state: st, res: ActionView::TaskNotFound }
        }
    }
}

/// `done <n>` / `undone <n>`: set the done flag right away.
pub open spec fn step_set_done(
    args: Seq<Seq<char>>,
    tasks: Seq<TaskView>,
    st: State,
    done: bool,
) -> Step {
    if !index_arg_ok(args) {
        Step { tasks, state: st, res: ActionView::InvalidArguments }
    } else {
        let j = index_of_args(args);
        if j < tasks.len() {
            Step { tasks: spec_mark(tasks, j, done), state: st, res: ActionView::Okay }
        } else {
            Step { tasks, state: st, res: ActionView::TaskNotFound }
        }
    }
}

/// A fresh command arriving while the session is idle.
pub open spec fn dispatch_idle(input: Seq<char>, tasks: Seq<TaskView>, st: State) -> Step {
    let cmd = command_of(input);
    let args = arguments_of(input);
    if cmd == "exit"@ {
        Step { tasks, state: st, res: ActionView::Terminate }
    } else if cmd == "help"@ {
        Step { tasks, state: st, res: ActionView::Feedback(help_text()) }
    } else if cmd == "list"@ {
        Step { tasks, state: st, res: ActionView::Feedback(render(tasks)) }
    } else if cmd == "add"@ {
        Step {
            tasks,
            state: State {
                command: Some(CommandId::Add),
                status: Some(Status::NeedPlainText),
                task_index: None,
            },
            res: ActionView::NeedTask,
        }
    } else if cmd == "edit"@ {
        step_edit(args, tasks, st)
    } else if cmd == "remove"@ {
        step_remove(args, tasks, st)
    } else if cmd == "done"@ {
        step_set_done(args, tasks, st, true)
    } else if cmd == "undone"@ {
        step_set_done(args, tasks, st, false)
    } else if cmd == "clear"@ {
        if tasks.len() == 0 {
            Step { tasks, state: st, res: ActionView::ListEmpty }
        } else {
            Step {
                tasks,
                state: State {
                    command: Some(CommandId::Clear),
                    status: Some(Status::NeedConfirmation),
                    task_index: None,
                },
                res: ActionView::NeedConfirm,
            }
        }
    } else if cmd == "save"@ {
        if tasks.len() == 0 {
            Step { tasks, state: st, res: ActionView::ListEmpty }
        } else {
            Step {
                tasks,
                state: State {
                    command: Some(CommandId::Save),
                    status: Some(Status::NeedPlainText),
                    task_index: None,
                },
                res: ActionView::NeedFilePath,
            }
        }
    } else if cmd == "load"@ {
        Step {
            tasks,
            state: State {
                command: Some(CommandId::Load),
                status: Some(Status::NeedPlainText),
                task_index: None,
            },
            res: ActionView::NeedFilePath,
        }
    } else {
        Step { tasks, state: st, res: ActionView::UnknownCommand }
    }
}

/// The whole transition function of the session: one raw line in, the
/// next tasks, the next state, and the reported outcome.
pub open spec fn dispatch(input: Seq<char>, tasks: Seq<TaskView>, st: State) -> Step {
    if st.status is Some {
        dispatch_pending(norm(input), tasks, st)
    } else {
        dispatch_idle(input, tasks, st)
    }
}

// ---------- executable actions ----------

fn map_list_error(e: Error) -> (r: ActionResult)
    ensures
        e == Error::CapacityExceeded ==> r == ActionResult::ListFull,
        e == Error::ItemNotFound ==> r == ActionResult::TaskNotFound,
        e == Error::InvalidPattern ==> r == ActionResult::FileReadError,
{
    match e {
        Error::CapacityExceeded => ActionResult::ListFull,
        Error::ItemNotFound => ActionResult::TaskNotFound,
        Error::InvalidPattern => ActionResult::FileReadError,
    }
}

fn exit() -> (r: ActionResult)
    ensures
        r@ == ActionView::Terminate,
{
    ActionResult::Terminate
}

fn help() -> (r: ActionResult)
    ensures
        r@ == ActionView::Feedback(help_text()),
{
    ActionResult::Feedback(
        String::from_str(
            "exit     - Exit program
help     - View available commands
list     - View all tasks
clear    - Clear tasks
add      - Add new task
edit 2   - Edit task by index where 2 is index
remove 2 - Delete task by index where 2 is index
done 2   - Mark task as DONE where 2 is index
undone 2 - Mark task as UNDONE where 2 is index
save     - Save list to file
load     - Load list from file",
        ),
    )
}

fn list(l: &List) -> (r: ActionResult)
    ensures
        r@ == ActionView::Feedback(render(l@)),
{
    ActionResult::Feedback(l.to_text())
}

fn add(state: &mut State) -> (r: ActionResult)
    ensures
        *final (state) == (State {
            command: Some(CommandId::Add),
            status: Some(Status::NeedPlainText),
            task_index: None,
        }),
        r@ == ActionView::NeedTask,
{
    state.set(CommandId::Add, Status::NeedPlainText, None);
    ActionResult::NeedTask
}

fn add_text(text: String, list: &mut List, state: &mut State) -> (r: ActionResult)
    ensures
        ({
            let step = step_add_text(text@, old(list)@);
            final (list)@ == step.tasks && *final (state) == step.state && r@ == step.res
        }),
{
    state.reset();
    match list.add(text) {
        Ok(()) => ActionResult::Okay,
        Err(e) => map_list_error(e),
    }
}

/// Reads the single index argument, if the argument list is valid.
fn extract_index(arguments: &Vec<String>) -> (r: Option<usize>)
    ensures
        r is Some <==> index_arg_ok(string_views(arguments@)),
        r is Some ==> r->Some_0 == index_of_args(string_views(arguments@)),
{
    if arguments.len() != 1 {
        return None;
    }
    match parse_index(arguments[0].as_str()) {
        Some(n) => {
            proof {
                lemma_index_token_positive(arguments@[0]@);
            }
            Some(n - 1)
        },
        None => None,
    }
}

fn edit(parsed: ParseResult, list: &mut List, state: &mut State) -> (r: ActionResult)
    ensures
        ({
            let step = step_edit(string_views(parsed.arguments@), old(list)@, *old(state));
            final (list)@ == step.tasks && *final (state) == step.state && r@ == step.res
        }),
{
    match extract_index(&parsed.arguments) {
        None => ActionResult::InvalidArguments,
        Some(index) => {
            match list.get(index) {
                Ok(_) => {
                    state.set(CommandId::Edit, Status::NeedPlainText, Some(index));
                    ActionResult::NeedTask
                },
                Err(e) => map_list_error(e),
            }
        },
    }
}

fn edit_text(raw_input: String, list: &mut List, state: &mut State) -> (r: ActionResult)
    ensures
        ({
            let step = step_edit_text(raw_input@, old(list)@, *old(state));
            final (list)@ == step.tasks && *final (state) == step.state && r@ == step.res
        }),
{
    match state.task_index {
        Some(index) => {
            state.reset();
            match list.alter(index, raw_input) {
                Ok(()) => ActionResult::Okay,
                Err(e) => map_list_error(e),
            }
        },
        None => {
            state.reset();
            ActionResult::TaskNotFound
        },
    }
}

fn remove(parsed: ParseResult, list: &mut List, state: &mut State) -> (r: ActionResult)
    ensures
        ({
            let step = step_remove(string_views(parsed.arguments@), old(list)@, *old(state));
            final (list)@ == step.tasks && *final (state) == step.state && r@ == step.res
        }),
{
    match extract_index(&parsed.arguments) {
        None => ActionResult::InvalidArguments,
        Some(index) => {
            match list.get(index) {
                Ok(_) => {
                    state.set(CommandId::Remove, Status::NeedConfirmation, Some(index));
                    ActionResult::NeedConfirm
                },
                Err(e) => map_list_error(e),
            }
        },
    }
}

fn remove_confirm(raw_input: String, list: &mut List, state: &mut State) -> (r: ActionResult)
    ensures
        ({
            let step = step_remove_confirm(raw_input@, old(list)@, *old(state));
            final (list)@ == step.tasks && *final (state) == step.state && r@ == step.res
        }),
{
    if !is_confirm(raw_input.as_str()) {
        state.reset();
        return ActionResult::Sh;
    }
    match state.task_index {
        Some(index) => {
            state.reset();
            match list.remove(index) {
                Ok(()) => ActionResult::Okay,
                Err(e) => map_list_error(e),
            }
        },
        None => {
            state.reset();
            ActionResult::TaskNotFound
        },
    }
}

fn done(parsed: ParseResult, list: &mut List) -> (r: ActionResult)
    ensures
        ({
            let step = step_set_done(string_views(parsed.arguments@), old(list)@, idle_state(), true);
            final (list)@ == step.tasks && r@ == step.res
        }),
{
    match extract_index(&parsed.arguments) {
        None => ActionResult::InvalidArguments,
        Some(index) => {
            match list.mark_done(index) {
                Ok(()) => ActionResult::Okay,
                Err(e) => map_list_error(e),
            }
        },
    }
}

fn undone(parsed: ParseResult, list: &mut List) -> (r: ActionResult)
    ensures
        ({
            let step = step_set_done(
                string_views(parsed.arguments@),
                old(list)@,
                idle_state(),
                false,
            );
            final (list)@ == step.tasks && r@ == step.res
        }),
{
    match extract_index(&parsed.arguments) {
        None => ActionResult::InvalidArguments,
        Some(index) => {
            match list.mark_undone(index) {
                Ok(()) => ActionResult::Okay,
                Err(e) => map_list_error(e),
            }
        },
    }
}

fn clear(list: &mut List, state: &mut State) -> (r: ActionResult)
    ensures
        final (list)@ == old(list)@,
        old(list)@.len() == 0 ==> *final (state) == *old(state) && r@ == ActionView::ListEmpty,
        old(list)@.len() > 0 ==> *final (state) == (State {
            command: Some(CommandId::Clear),
            status: Some(Status::NeedConfirmation),
            task_index: None,
        }) && r@ == ActionView::NeedConfirm,
{
    if list.is_empty() {
        ActionResult::ListEmpty
    } else {
        state.set(CommandId::Clear, Status::NeedConfirmation, None);
        ActionResult::NeedConfirm
    }
}

fn clear_confirm(raw_input: String, list: &mut List, state: &mut State) -> (r: ActionResult)
    ensures
        ({
            let step = step_clear_confirm(raw_input@, old(list)@);
            final (list)@ == step.tasks && *final (state) == step.state && r@ == step.res
        }),
{
    state.reset();
    if is_confirm(raw_input.as_str()) {
        list.clear();
        ActionResult::Okay
    } else {
        ActionResult::Sh
    }
}

fn save(list: &List, state: &mut State) -> (r: ActionResult)
    ensures
        list@.len() == 0 ==> *final (state) == *old(state) && r@ == ActionView::ListEmpty,
        list@.len() > 0 ==> *final (state) == (State {
            command: Some(CommandId::Save),
            status: Some(Status::NeedPlainText),
            task_index: None,
        }) && r@ == ActionView::NeedFilePath,
{
    if list.is_empty() {
        ActionResult::ListEmpty
    } else {
        state.set(CommandId::Save, Status::NeedPlainText, None);
        ActionResult::NeedFilePath
    }
}

fn save_text(raw_input: String, list: &List, state: &mut State) -> (r: ActionResult)
    ensures
        ({
            let step = step_save_text(raw_input@, list@);
            *final (state) == step.state && r@ == step.res
        }),
{
    state.reset();
    let contents = list.to_text();
    ActionResult::SaveRequested { path: raw_input, contents }
}

fn load(state: &mut State) -> (r: ActionResult)
    ensures
        *final (state) == (State {
            command: Some(CommandId::Load),
            status: Some(Status::NeedPlainText),
            task_index: None,
        }),
        r@ == ActionView::NeedFilePath,
{
    state.set(CommandId::Load, Status::NeedPlainText, None);
    ActionResult::NeedFilePath
}

fn load_text(raw_input: String, state: &mut State) -> (r: ActionResult)
    ensures
        ({
            let step = step_load_text(raw_input@, Seq::<TaskView>::empty());
            *final (state) == step.state && r@ == step.res
        }),
{
    state.reset();
    ActionResult::LoadRequested { path: raw_input }
}

/// Reports the outcome of writing the requested file.
pub fn save_done(ok: bool) -> (r: ActionResult)
    ensures
        ok ==> r == ActionResult::Okay,
        !ok ==> r == ActionResult::CannotSave,
{
    if ok {
        ActionResult::Okay
    } else {
        ActionResult::CannotSave
    }
}

/// Feeds the contents of the requested file back into the list: `None`
/// when the file could not be read, otherwise whatever it held.
pub fn load_done(contents: Option<String>, list: &mut List) -> (r: ActionResult)
    ensures
        contents is None ==> r == ActionResult::CannotLoad && final (list)@ == old(list)@,
        contents is Some ==> ({
            let c = contents->Some_0@;
            if scan(c).len() > 0 {
                r == ActionResult::Okay && final (list)@ == scan(c)
            } else {
                r == ActionResult::FileReadError && final (list)@ == old(list)@
            }
        }),
{
    match contents {
        Some(c) => {
            match list.from_text(c.as_str()) {
                Ok(()) => ActionResult::Okay,
                Err(e) => map_list_error(e),
            }
        },
        None => ActionResult::CannotLoad,
    }
}

// ---------- the dispatcher ----------

/// Processes one raw input line against the list and the session state.
pub fn process(input: String, list: &mut List, state: &mut State) -> (r: ActionResult)
    ensures
        ({
            let step = dispatch(input@, old(list)@, *old(state));
            final (list)@ == step.tasks && *final (state) == step.state && r@ == step.res
        }),
{
    if state.status.is_some() {
        let raw_input = trim_str(input.as_str());
        match state.status {
            Some(Status::NeedPlainText) => match state.command {
                Some(CommandId::Add) => add_text(raw_input, list, state),
                Some(CommandId::Edit) => edit_text(raw_input, list, state),
                Some(CommandId::Save) => save_text(raw_input, list, state),
                Some(CommandId::Load) => load_text(raw_input, state),
                _ => {
                    state.reset();
                    ActionResult::Sh
                },
            },
            Some(Status::NeedConfirmation) => match state.command {
                Some(CommandId::Remove) => remove_confirm(raw_input, list, state),
                Some(CommandId::Clear) => clear_confirm(raw_input, list, state),
                _ => {
                    state.reset();
                    ActionResult::Sh
                },
            },
            None => {
                state.reset();
                ActionResult::Sh
            },
        }
    } else {
        let parsed = parse(input.as_str());
        if str_eq(parsed.command.as_str(), "exit") {
            exit()
        } else if str_eq(parsed.command.as_str(), "help") {
            help()
        } else if str_eq(parsed.command.as_str(), "list") {
            self::list(list)
        } else if str_eq(parsed.command.as_str(), "add") {
            self::add(state)
        } else if str_eq(parsed.command.as_str(), "edit") {
            edit(parsed, list, state)
        } else if str_eq(parsed.command.as_str(), "remove") {
            remove(parsed, list, state)
        } else if str_eq(parsed.command.as_str(), "done") {
            done(parsed, list)
        } else if str_eq(parsed.command.as_str(), "undone") {
            undone(parsed, list)
        } else if str_eq(parsed.command.as_str(), "clear") {
            clear(list, state)
        } else if str_eq(parsed.command.as_str(), "save") {
            save(list, state)
        } else if str_eq(parsed.command.as_str(), "load") {
            load(state)
        } else {
            ActionResult::UnknownCommand
        }
    }
}

// ---------- laws of the session ----------

/// Every step leaves a well-formed session state: a pending mode is
/// remembered exactly together with a pending command.
pub proof fn lemma_dispatch_keeps_state_wf(input: Seq<char>, tasks: Seq<TaskView>, st: State)
    requires
        st.status is Some <==> st.command is Some,
    ensures
        ({
            let next = dispatch(input, tasks, st).state;
            next.status is Some <==> next.command is Some
        }),
{
}

/// Declining a confirmation, with any token but an affirmative one,
/// leaves the list unchanged, returns the session to the idle state, and
/// reports the neutral signal.
pub proof fn lemma_decline_leaves_list(input: Seq<char>, tasks: Seq<TaskView>, st: State)
    requires
        st.status == Some(Status::NeedConfirmation),
        !is_confirm_token(norm(input)),
    ensures
        dispatch(input, tasks, st).tasks == tasks,
        dispatch(input, tasks, st).state == idle_state(),
        dispatch(input, tasks, st).res == ActionView::Sh,
{
}

} // verus!
