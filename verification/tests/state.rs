use todocli::state::{CommandId, State, Status};

#[test]
fn state_test_init_instance() {
    let state = State::new();

    assert!(state.command.is_none());
    assert!(state.status.is_none());
    assert!(state.task_index.is_none());
}

#[test]
fn test_set() {
    let mut state = State::new();

    let command = CommandId::Add;
    let task_index = 42;

    assert!(state.command.is_none());
    assert!(state.status.is_none());
    assert!(state.task_index.is_none());

    state.set(command, Status::NeedPlainText, Some(task_index));

    assert!(state.command == Some(command));
    assert!(state.status == Some(Status::NeedPlainText));
    assert!(state.task_index == Some(task_index));
}

#[test]
fn test_reset() {
    let mut state = State::new();

    let command = CommandId::Edit;
    let task_index = 42;

    state.set(command, Status::NeedPlainText, Some(task_index));

    assert!(state.command == Some(command));
    assert!(state.status == Some(Status::NeedPlainText));
    assert!(state.task_index == Some(task_index));

    state.reset();

    assert!(state.command.is_none());
    assert!(state.status.is_none());
    assert!(state.task_index.is_none());
}
