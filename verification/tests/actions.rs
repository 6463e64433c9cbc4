use todocli::actions::{load_done, process, save_done, ActionResult};
use todocli::list::List;
use todocli::state::{CommandId, State, Status};

#[test]
fn test_process_exit() {
    let mut list = List::new();
    let mut state = State::new();

    let result = process("exit".to_string(), &mut list, &mut state);

    assert_eq!(result, ActionResult::Terminate);
}

#[test]
fn test_process_help() {
    let mut list = List::new();
    let mut state = State::new();

    let expected = "exit     - Exit program
help     - View available commands
list     - View all tasks
clear    - Clear tasks
add      - Add new task
edit 2   - Edit task by index where 2 is index
remove 2 - Delete task by index where 2 is index
done 2   - Mark task as DONE where 2 is index
undone 2 - Mark task as UNDONE where 2 is index
save     - Save list to file
load     - Load list from file"
        .to_string();

    let result = process("help".to_string(), &mut list, &mut state);

    assert_eq!(result, ActionResult::Feedback(expected));
}

#[test]
fn test_process_list_empty() {
    let mut list = List::new();
    let mut state = State::new();

    let result = process("list".to_string(), &mut list, &mut state);

    assert_eq!(result, ActionResult::Feedback("".to_string()));
}

#[test]
fn test_process_list() {
    let mut list = List::new();
    let mut state = State::new();

    let _ = list.add("test1".to_string());
    let _ = list.add("test2".to_string());

    let expected = "1) [ ] test1;\n2) [ ] test2;\n".to_string();
    let result = process("list".to_string(), &mut list, &mut state);

    assert_eq!(result, ActionResult::Feedback(expected));
}

#[test]
fn test_process_add() {
    let mut list = List::new();
    let mut state = State::new();

    let result = process("add".to_string(), &mut list, &mut state);

    assert!(list.is_empty());
    assert_eq!(result, ActionResult::NeedTask);
    assert_eq!(state.status, Some(Status::NeedPlainText));
    assert_eq!(state.command, Some(CommandId::Add));
    assert_eq!(state.task_index, None);

    state.set(CommandId::Add, Status::NeedPlainText, None);

    let task = "test";
    let result = process(task.to_string(), &mut list, &mut state);

    assert!(list.get(0).unwrap().text == task);
    assert_eq!(result, ActionResult::Okay);
    assert!(state.status.is_none());
    assert!(state.command.is_none());
    assert!(state.task_index.is_none());
}

#[test]
fn test_process_edit() {
    let mut list = List::new();
    let mut state = State::new();

    let task_before_edit = "test";
    let task_after_edit = "new-test";

    let _ = list.add(task_before_edit.to_string());

    assert!(list.get(0).unwrap().text == task_before_edit);
    let result = process("edit 1".to_string(), &mut list, &mut state);

    assert_eq!(result, ActionResult::NeedTask);
    assert_eq!(state.status, Some(Status::NeedPlainText));
    assert_eq!(state.command, Some(CommandId::Edit));
    assert_eq!(state.task_index, Some(0));

    let result = process(task_after_edit.to_string(), &mut list, &mut state);

    assert_eq!(result, ActionResult::Okay);
    assert!(list.get(0).unwrap().text == task_after_edit);
    assert!(state.status.is_none());
    assert!(state.command.is_none());
    assert!(state.task_index.is_none());
}

#[test]
fn test_process_edit_not_found() {
    let mut list = List::new();
    let mut state = State::new();

    let result = process("edit 1".to_string(), &mut list, &mut state);

    assert_eq!(result, ActionResult::TaskNotFound);
    assert!(state.status.is_none());
    assert!(state.command.is_none());
    assert!(state.task_index.is_none());
}

#[test]
fn test_process_edit_invalid() {
    let mut list = List::new();
    let mut state = State::new();

    let result = process("edit test".to_string(), &mut list, &mut state);

    assert_eq!(result, ActionResult::InvalidArguments);
    assert!(state.status.is_none());
    assert!(state.command.is_none());
    assert!(state.task_index.is_none());
}

#[test]
fn test_process_remove() {
    let mut list = List::new();
    let mut state = State::new();

    let _ = list.add("test".to_string());

    assert!(!list.is_empty());
    let result = process("remove 1".to_string(), &mut list, &mut state);

    assert_eq!(result, ActionResult::NeedConfirm);
    assert_eq!(state.command, Some(CommandId::Remove));
    assert_eq!(state.status, Some(Status::NeedConfirmation));
    assert_eq!(state.task_index, Some(0));

    let result = process("yes".to_string(), &mut list, &mut state);

    assert_eq!(result, ActionResult::Okay);
    assert!(list.is_empty());
    assert!(state.status.is_none());
    assert!(state.command.is_none());
    assert!(state.task_index.is_none());
}

#[test]
fn test_process_remove_decline() {
    let mut list = List::new();
    let mut state = State::new();
    let task = "test";

    let _ = list.add(task.to_string());

    assert!(list.get(0).unwrap().text == task);
    let result = process("remove 1".to_string(), &mut list, &mut state);

    assert_eq!(result, ActionResult::NeedConfirm);
    assert_eq!(state.command, Some(CommandId::Remove));
    assert_eq!(state.status, Some(Status::NeedConfirmation));
    assert_eq!(state.task_index, Some(0));

    let result = process("n".to_string(), &mut list, &mut state);

    assert_eq!(result, ActionResult::Sh);
    assert!(list.get(0).unwrap().text == task);
    assert!(state.status.is_none());
    assert!(state.command.is_none());
    assert!(state.task_index.is_none());
}

#[test]
fn test_process_remove_not_found() {
    let mut list = List::new();
    let mut state = State::new();

    let result = process("remove 1".to_string(), &mut list, &mut state);

    assert_eq!(result, ActionResult::TaskNotFound);
    assert!(state.status.is_none());
    assert!(state.command.is_none());
    assert!(state.task_index.is_none());
}

#[test]
fn test_process_remove_invalid() {
    let mut list = List::new();
    let mut state = State::new();

    let result = process("remove 1 two".to_string(), &mut list, &mut state);

    assert_eq!(result, ActionResult::InvalidArguments);
    assert!(state.status.is_none());
    assert!(state.command.is_none());
    assert!(state.task_index.is_none());
}

#[test]
fn test_process_done() {
    let mut list = List::new();
    let mut state = State::new();

    let _ = list.add("test".to_string());

    assert!(!list.get(0).unwrap().is_done);

    let result = process("done 1".to_string(), &mut list, &mut state);

    assert!(list.get(0).unwrap().is_done);
    assert_eq!(result, ActionResult::Okay);
}

#[test]
fn test_process_done_not_found() {
    let mut list = List::new();
    let mut state = State::new();

    let result = process("done 1".to_string(), &mut list, &mut state);

    assert_eq!(result, ActionResult::TaskNotFound);
}

#[test]
fn test_process_undone() {
    let mut list = List::new();
    let mut state = State::new();

    let _ = list.add("test".to_string());
    let _ = list.mark_done(0);

    assert!(list.get(0).unwrap().is_done);

    let result = process("undone 1".to_string(), &mut list, &mut state);

    assert!(!list.get(0).unwrap().is_done);
    assert_eq!(result, ActionResult::Okay);
}

#[test]
fn test_process_undone_not_found() {
    let mut list = List::new();
    let mut state = State::new();

    let result = process("undone 1".to_string(), &mut list, &mut state);

    assert_eq!(result, ActionResult::TaskNotFound);
}

#[test]
fn test_process_clear() {
    let mut list = List::new();
    let mut state = State::new();

    let _ = list.add("test".to_string());

    assert!(!list.is_empty());

    let result = process("clear".to_string(), &mut list, &mut state);

    assert_eq!(result, ActionResult::NeedConfirm);
    assert_eq!(state.command, Some(CommandId::Clear));
    assert_eq!(state.status, Some(Status::NeedConfirmation));
    assert_eq!(state.task_index, None);

    let result = process("y".to_string(), &mut list, &mut state);

    assert_eq!(result, ActionResult::Okay);
    assert!(list.is_empty());
    assert!(state.status.is_none());
    assert!(state.command.is_none());
    assert!(state.task_index.is_none());
}

#[test]
fn test_process_clear_decline() {
    let mut list = List::new();
    let mut state = State::new();

    let _ = list.add("test".to_string());

    assert!(!list.is_empty());

    let result = process("clear".to_string(), &mut list, &mut state);

    assert_eq!(result, ActionResult::NeedConfirm);
    assert_eq!(state.command, Some(CommandId::Clear));
    assert_eq!(state.status, Some(Status::NeedConfirmation));
    assert_eq!(state.task_index, None);

    let result = process("no".to_string(), &mut list, &mut state);

    assert_eq!(result, ActionResult::Sh);
    assert!(!list.is_empty());
    assert!(state.status.is_none());
    assert!(state.command.is_none());
    assert!(state.task_index.is_none());
}

#[test]
fn test_process_clear_empty() {
    let mut list = List::new();
    let mut state = State::new();

    let result = process("clear".to_string(), &mut list, &mut state);

    assert_eq!(result, ActionResult::ListEmpty);
    assert!(state.status.is_none());
    assert!(state.command.is_none());
    assert!(state.task_index.is_none());
}

#[test]
fn test_process_save() {
    let mut list = List::new();
    let mut state = State::new();

    let _ = list.add("learn rust".to_string());
    let _ = list.add("learn javascript".to_string());
    let _ = list.mark_done(1);

    let result = process("save".to_string(), &mut list, &mut state);

    assert_eq!(result, ActionResult::NeedFilePath);
    assert_eq!(state.command, Some(CommandId::Save));
    assert_eq!(state.status, Some(Status::NeedPlainText));
    assert_eq!(state.task_index, None);

    let result = process("./test_process_save.txt".to_string(), &mut list, &mut state);

    match result {
        ActionResult::SaveRequested { path, contents } => {
            assert_eq!(path, "./test_process_save.txt");
            assert_eq!(contents, "1) [ ] learn rust;\n2) [+] learn javascript;\n");
        }
        other => panic!("expected a save request, got {:?}", other),
    }
    assert_eq!(save_done(true), ActionResult::Okay);
    assert!(state.status.is_none());
    assert!(state.command.is_none());
    assert!(state.task_index.is_none());
}

#[test]
fn test_process_save_empty() {
    let mut list = List::new();
    let mut state = State::new();

    let result = process("save".to_string(), &mut list, &mut state);

    assert_eq!(result, ActionResult::ListEmpty);
    assert!(state.status.is_none());
    assert!(state.command.is_none());
    assert!(state.task_index.is_none());
}

#[test]
fn test_process_load() {
    let mut list = List::new();
    let mut state = State::new();

    let result = process("load".to_string(), &mut list, &mut state);

    assert_eq!(result, ActionResult::NeedFilePath);
    assert_eq!(state.command, Some(CommandId::Load));
    assert_eq!(state.status, Some(Status::NeedPlainText));
    assert_eq!(state.task_index, None);

    let result = process("./test_process_save.txt".to_string(), &mut list, &mut state);

    match result {
        ActionResult::LoadRequested { path } => {
            assert_eq!(path, "./test_process_save.txt");
        }
        other => panic!("expected a load request, got {:?}", other),
    }
    let saved = "1) [ ] learn rust;\n2) [+] learn javascript;\n".to_string();
    let result = load_done(Some(saved), &mut list);

    assert_eq!(result, ActionResult::Okay);
    assert!(state.status.is_none());
    assert!(state.command.is_none());
    assert!(state.task_index.is_none());

    assert!(list.get(0).unwrap().text == "learn rust");
    assert!(list.get(1).unwrap().text == "learn javascript");
    assert!(!list.get(0).unwrap().is_done);
    assert!(list.get(1).unwrap().is_done);
}

#[test]
fn test_process_load_invalid() {
    let mut list = List::new();
    let mut state = State::new();

    let result = process("load".to_string(), &mut list, &mut state);

    assert_eq!(result, ActionResult::NeedFilePath);
    assert_eq!(state.command, Some(CommandId::Load));
    assert_eq!(state.status, Some(Status::NeedPlainText));
    assert_eq!(state.task_index, None);

    let result = process("./test_process_load_invalid.txt".to_string(), &mut list, &mut state);

    match result {
        ActionResult::LoadRequested { path } => {
            assert_eq!(path, "./test_process_load_invalid.txt");
        }
        other => panic!("expected a load request, got {:?}", other),
    }
    let result = load_done(Some("no records in this file".to_string()), &mut list);

    assert_eq!(result, ActionResult::FileReadError);
    assert!(state.status.is_none());
    assert!(state.command.is_none());
    assert!(state.task_index.is_none());

    assert!(list.is_empty());
}

#[test]
fn test_process_unknown_command() {
    let mut list = List::new();
    let mut state = State::new();

    let result = process("frobnicate".to_string(), &mut list, &mut state);
    assert_eq!(result, ActionResult::UnknownCommand);

    let result = process("".to_string(), &mut list, &mut state);
    assert_eq!(result, ActionResult::UnknownCommand);
}

#[test]
fn test_process_add_to_full_list() {
    let mut list = List::new();
    let mut state = State::new();

    for i in 0..200 {
        let _ = list.add(format!("task {}", i));
    }

    let result = process("add".to_string(), &mut list, &mut state);
    assert_eq!(result, ActionResult::NeedTask);

    let result = process("one more".to_string(), &mut list, &mut state);
    assert_eq!(result, ActionResult::ListFull);
    assert!(list.len() == 200);
    assert!(state.status.is_none());
    assert!(state.command.is_none());
}

#[test]
fn test_process_index_errors() {
    let mut list = List::new();
    let mut state = State::new();
    let _ = list.add("only".to_string());

    assert_eq!(process("done".to_string(), &mut list, &mut state), ActionResult::InvalidArguments);
    assert_eq!(
        process("done 0".to_string(), &mut list, &mut state),
        ActionResult::InvalidArguments
    );
    assert_eq!(
        process("done 1 2".to_string(), &mut list, &mut state),
        ActionResult::InvalidArguments
    );
    assert_eq!(process("done 2".to_string(), &mut list, &mut state), ActionResult::TaskNotFound);
    assert_eq!(process("done 1".to_string(), &mut list, &mut state), ActionResult::Okay);
}

#[test]
fn test_save_and_load_outcomes() {
    let mut list = List::new();

    assert_eq!(save_done(false), ActionResult::CannotSave);
    assert_eq!(load_done(None, &mut list), ActionResult::CannotLoad);
    assert!(list.is_empty());
}

#[test]
fn scenario_add_then_list() {
    let mut list = List::new();
    let mut state = State::new();

    assert!(list.is_empty());
    let result = process("add".to_string(), &mut list, &mut state);
    assert_eq!(result, ActionResult::NeedTask);

    let result = process("buy milk".to_string(), &mut list, &mut state);
    assert_eq!(result, ActionResult::Okay);
    assert!(list.len() == 1);
    assert!(list.get(0).unwrap().text == "buy milk");
    assert!(!list.get(0).unwrap().is_done);

    let result = process("list".to_string(), &mut list, &mut state);
    assert_eq!(result, ActionResult::Feedback("1) [ ] buy milk;\n".to_string()));
}

#[test]
fn scenario_load_two_records() {
    let mut list = List::new();
    let mut state = State::new();

    let result = process("load".to_string(), &mut list, &mut state);
    assert_eq!(result, ActionResult::NeedFilePath);

    let result = process("./two_records.txt".to_string(), &mut list, &mut state);
    assert!(matches!(result, ActionResult::LoadRequested { .. }));

    let result = load_done(Some("1) [ ] a;\n2) [+] b;\n".to_string()), &mut list);
    assert_eq!(result, ActionResult::Okay);
    assert!(list.len() == 2);
    assert!(list.get(0).unwrap().text == "a");
    assert!(!list.get(0).unwrap().is_done);
    assert!(list.get(1).unwrap().text == "b");
    assert!(list.get(1).unwrap().is_done);
}

#[test]
fn test_input_is_trimmed_before_use() {
    let mut list = List::new();
    let mut state = State::new();

    let _ = process("add".to_string(), &mut list, &mut state);
    let result = process("  tidy   the  desk \n".to_string(), &mut list, &mut state);
    assert_eq!(result, ActionResult::Okay);
    assert!(list.get(0).unwrap().text == "tidy the desk");

    let _ = process("remove 1".to_string(), &mut list, &mut state);
    let result = process(" YES \n".to_string(), &mut list, &mut state);
    assert_eq!(result, ActionResult::Okay);
    assert!(list.is_empty());
}
