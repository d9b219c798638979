use event_ledger::aggregate::{replay, Aggregate, CommandHandler, DomainEvent};
use event_ledger::cqrs::CqrsFramework;
use event_ledger::event_store::EventStore;
use event_ledger::task::{Task, TaskCommand, TaskError, TaskEvent, TaskService};

fn given(events: Vec<TaskEvent>) -> Task {
    replay(&events)
}

fn when(task: &Task, command: TaskCommand) -> Result<Vec<TaskEvent>, TaskError> {
    assert!(task.accepts(&command));
    task.handle(command, &TaskService)
}

#[test]
fn test_create_task_publishes_event() {
    let expected = TaskEvent::TaskCreated {
        todo_id: 1,
        description: "Example description".to_string(),
    };
    let task = given(vec![]);
    let outcome = when(
        &task,
        TaskCommand::CreateTodo { todo_id: 1, description: "Example description".to_string() },
    );
    assert_eq!(outcome, Ok(vec![expected]));
}

#[test]
fn test_change_description_publishes_event() {
    let expected = TaskEvent::DescriptionChanged { description: "New description".to_string() };
    let task = given(vec![TaskEvent::TaskCreated {
        todo_id: 1,
        description: "Example description".to_string(),
    }]);
    let outcome =
        when(&task, TaskCommand::ChangeDescription { description: "New description".to_string() });
    assert_eq!(outcome, Ok(vec![expected]));
}

#[test]
fn test_mark_as_complete_publishes_event() {
    let expected = TaskEvent::TaskMarkedAsComplete;
    let task = given(vec![TaskEvent::TaskCreated {
        todo_id: 1,
        description: "Example description".to_string(),
    }]);
    assert_eq!(when(&task, TaskCommand::MarkAsComplete), Ok(vec![expected]));
}

#[test]
fn test_mark_as_incomplete_publishes_event() {
    let task = given(vec![
        TaskEvent::TaskCreated { todo_id: 1, description: "Example description".to_string() },
        TaskEvent::TaskMarkedAsComplete,
    ]);
    assert_eq!(
        when(&task, TaskCommand::MarkAsIncomplete),
        Ok(vec![TaskEvent::TaskMarkedAsIncomplete])
    );
}

#[test]
fn test_mark_as_incomplete_returns_error_if_not_complete() {
    let task = given(vec![
        TaskEvent::TaskCreated { todo_id: 1, description: "Example description".to_string() },
        TaskEvent::TaskMarkedAsIncomplete,
    ]);
    assert_eq!(
        when(&task, TaskCommand::MarkAsIncomplete),
        Err(TaskError::new("Task is already incomplete"))
    );
}

#[test]
fn test_mark_as_complete_returns_error_if_already_complete() {
    let task = given(vec![
        TaskEvent::TaskCreated { todo_id: 1, description: "Example description".to_string() },
        TaskEvent::TaskMarkedAsComplete,
    ]);
    assert_eq!(
        when(&task, TaskCommand::MarkAsComplete),
        Err(TaskError::new("Task is already complete"))
    );
}

#[test]
fn test_event_store() {
    let event_store: EventStore<TaskEvent> = EventStore::new();
    let mut cqrs: CqrsFramework<Task, TaskService, ()> =
        CqrsFramework::new(event_store, (), TaskService);

    let aggregate_id = "aggregate-instance-A";

    cqrs.execute(
        aggregate_id,
        TaskCommand::ChangeDescription { description: "new description".to_string() },
    )
    .unwrap();

    cqrs.execute(aggregate_id, TaskCommand::MarkAsComplete).unwrap();

    let envelopes = cqrs.store().load(aggregate_id);
    assert_eq!(envelopes.len(), 2);
    assert_eq!(envelopes[0].sequence, 1);
    assert_eq!(
        envelopes[0].payload,
        TaskEvent::DescriptionChanged { description: "new description".to_string() }
    );
    assert_eq!(envelopes[1].sequence, 2);
    assert_eq!(envelopes[1].payload, TaskEvent::TaskMarkedAsComplete);

    let context = cqrs.load_aggregate(aggregate_id);
    assert_eq!(context.current_sequence, 2);
    assert_eq!(
        context.aggregate,
        Task { task_id: 0, description: "new description".to_string(), is_complete: true }
    );
}

#[test]
fn task_event_names_speak_of_todos() {
    let created = TaskEvent::TaskCreated { todo_id: 1, description: "d".to_string() };
    assert_eq!(created.event_type(), "TodoCreated");
    assert_eq!(
        TaskEvent::DescriptionChanged { description: "d".to_string() }.event_type(),
        "DescriptionChanged"
    );
    assert_eq!(TaskEvent::TaskMarkedAsComplete.event_type(), "TodoMarkedAsComplete");
    assert_eq!(TaskEvent::TaskMarkedAsIncomplete.event_type(), "TodoMarkedAsIncomplete");
    assert_eq!(created.event_version(), "1.0");
    assert_eq!(created.duplicate(), created);
}

#[test]
fn task_replay_applies_events_in_order() {
    let task = given(vec![
        TaskEvent::TaskCreated { todo_id: 7, description: "first".to_string() },
        TaskEvent::TaskMarkedAsComplete,
        TaskEvent::DescriptionChanged { description: "second".to_string() },
        TaskEvent::TaskMarkedAsIncomplete,
    ]);
    assert_eq!(task, Task { task_id: 7, description: "second".to_string(), is_complete: false });
    assert_eq!(given(vec![]), Task::default());
    assert_eq!(Task::aggregate_type(), "Todo");
}

#[test]
fn task_error_text() {
    assert_eq!(TaskError::new("nope").to_string(), "nope");
    assert_eq!(TaskError::from("nope"), TaskError::new("nope"));
}
