use vstd::prelude::*;
use crate::aggregate::{event_values, Aggregate, CommandHandler, DomainEvent};

verus! {

/// The services of a task: it consults none.
#[derive(Debug)]
pub struct TaskService;

/// A request to change one task.
#[derive(Debug)]
pub enum TaskCommand {
    CreateTodo { todo_id: i32, description: String },
    ChangeDescription { description: String },
    MarkAsComplete,
    MarkAsIncomplete,
}

/// The mathematical value of a [`TaskCommand`].
pub enum TaskCommandView {
    CreateTodo { todo_id: int, description: Seq<char> },
    ChangeDescription { description: Seq<char> },
    MarkAsComplete,
    MarkAsIncomplete,
}

impl View for TaskCommand {
    type V = TaskCommandView;

    open spec fn view(&self) -> TaskCommandView {
        match self {
            TaskCommand::CreateTodo { todo_id, description } => TaskCommandView::CreateTodo {
                todo_id: *todo_id as int,
                description: description@,
            },
            TaskCommand::ChangeDescription { description } => TaskCommandView::ChangeDescription {
                description: description@,
            },
            TaskCommand::MarkAsComplete => TaskCommandView::MarkAsComplete,
            TaskCommand::MarkAsIncomplete => TaskCommandView::MarkAsIncomplete,
        }
    }
}

/// A fact about one task.
#[derive(Debug, PartialEq)]
pub enum TaskEvent {
    TaskCreated { todo_id: i32, description: String },
    DescriptionChanged { description: String },
    TaskMarkedAsComplete,
    TaskMarkedAsIncomplete,
}

/// The mathematical value of a [`TaskEvent`].
pub enum TaskEventView {
    TaskCreated { todo_id: int, description: Seq<char> },
    DescriptionChanged { description: Seq<char> },
    TaskMarkedAsComplete,
    TaskMarkedAsIncomplete,
}

impl View for TaskEvent {
    type V = TaskEventView;

    open spec fn view(&self) -> TaskEventView {
        match self {
            TaskEvent::TaskCreated { todo_id, description } => TaskEventView::TaskCreated {
                todo_id: *todo_id as int,
                description: description@,
            },
            TaskEvent::DescriptionChanged { description } => TaskEventView::DescriptionChanged {
                description: description@,
            },
            TaskEvent::TaskMarkedAsComplete => TaskEventView::TaskMarkedAsComplete,
            TaskEvent::TaskMarkedAsIncomplete => TaskEventView::TaskMarkedAsIncomplete,
        }
    }
}

impl Clone for TaskEvent {
    fn clone(&self) -> (copy: Self)
        ensures
            copy == *self,
    {
        match self {
            TaskEvent::TaskCreated { todo_id, description } => TaskEvent::TaskCreated {
                todo_id: *todo_id,
                description: description.clone(),
            },
            TaskEvent::DescriptionChanged { description } => TaskEvent::DescriptionChanged {
                description: description.clone(),
            },
            TaskEvent::TaskMarkedAsComplete => TaskEvent::TaskMarkedAsComplete,
            TaskEvent::TaskMarkedAsIncomplete => TaskEvent::TaskMarkedAsIncomplete,
        }
    }
}

impl DomainEvent for TaskEvent {
    /// The name under which the event is recorded. It speaks of a todo, not
    /// of a task.
    open spec fn kind_name(value: TaskEventView) -> Seq<char> {
        match value {
            TaskEventView::TaskCreated { .. } => "TodoCreated"@,
            TaskEventView::DescriptionChanged { .. } => "DescriptionChanged"@,
            TaskEventView::TaskMarkedAsComplete => "TodoMarkedAsComplete"@,
            TaskEventView::TaskMarkedAsIncomplete => "TodoMarkedAsIncomplete"@,
        }
    }

    /// The same version for every event.
    open spec fn version_name(value: TaskEventView) -> Seq<char> {
        "1.0"@
    }

    fn event_type(&self) -> (name: String) {
        let event_type: &str = match self {
            TaskEvent::TaskCreated { .. } => "TodoCreated",
            TaskEvent::DescriptionChanged { .. } => "DescriptionChanged",
            TaskEvent::TaskMarkedAsComplete => "TodoMarkedAsComplete",
            TaskEvent::TaskMarkedAsIncomplete => "TodoMarkedAsIncomplete",
        };
        event_type.to_owned()
    }

    fn event_version(&self) -> (version: String) {
        "1.0".to_owned()
    }

    fn duplicate(&self) -> (copy: Self) {
        self.clone()
    }
}

/// Why a task turned a command down, as a text.
#[derive(Debug, PartialEq)]
pub struct TaskError(String);

impl View for TaskError {
    type V = Seq<char>;

    closed spec fn view(&self) -> Seq<char> {
        self.0@
    }
}

impl TaskError {
    /// The error with the text `message`.
    pub fn new(message: &str) -> (error: Self)
        ensures
            error@ == message@,
    {
        TaskError(message.to_owned())
    }

    /// The error with the text `message`.
    pub fn from(message: &str) -> (error: Self)
        ensures
            error@ == message@,
    {
        TaskError(message.to_owned())
    }

    /// The error's text.
    pub fn to_string(&self) -> (text: String)
        ensures
            text@ == self@,
    {
        self.0.clone()
    }
}

/// The state of one task, as its event history leaves it.
#[derive(Debug, PartialEq)]
pub struct Task {
    pub task_id: i32,
    pub description: String,
    pub is_complete: bool,
}

/// The mathematical value of a [`Task`].
pub struct TaskState {
    pub task_id: int,
    pub description: Seq<char>,
    pub is_complete: bool,
}

/// What a task answers to a command: the events to record, or the text of
/// the reason for turning the command down.
pub type TaskDecision = Result<Seq<TaskEventView>, Seq<char>>;

impl View for Task {
    type V = TaskState;

    open spec fn view(&self) -> TaskState {
        TaskState {
            task_id: self.task_id as int,
            description: self.description@,
            is_complete: self.is_complete,
        }
    }
}

/// The value of what `Task::handle` returned.
pub open spec fn task_decision_view(outcome: Result<Vec<TaskEvent>, TaskError>) -> TaskDecision {
    match outcome {
        Ok(events) => Ok(event_values(events@)),
        Err(error) => Err(error@),
    }
}

impl TaskState {
    /// The task before its first event: number 0, no description, not
    /// complete.
    pub open spec fn initial() -> Self {
        TaskState { task_id: 0, description: Seq::empty(), is_complete: false }
    }

    /// The state after `event`.
    pub open spec fn apply(self, event: TaskEventView) -> Self {
        match event {
            TaskEventView::TaskCreated { todo_id, description } => TaskState {
                task_id: todo_id,
                description,
                is_complete: self.is_complete,
            },
            TaskEventView::DescriptionChanged { description } => TaskState {
                task_id: self.task_id,
                description,
                is_complete: self.is_complete,
            },
            TaskEventView::TaskMarkedAsComplete => TaskState {
                task_id: self.task_id,
                description: self.description,
                is_complete: true,
            },
            TaskEventView::TaskMarkedAsIncomplete => TaskState {
                task_id: self.task_id,
                description: self.description,
                is_complete: false,
            },
        }
    }

    /// The decision on `command`. Creating and describing are always
    /// accepted; marking is refused where the task already is what the
    /// command asks for.
    pub open spec fn handle(self, command: TaskCommandView) -> TaskDecision {
        match command {
            TaskCommandView::CreateTodo { todo_id, description } => Ok(
                seq![TaskEventView::TaskCreated { todo_id, description }],
            ),
            TaskCommandView::ChangeDescription { description } => Ok(
                seq![TaskEventView::DescriptionChanged { description }],
            ),
            TaskCommandView::MarkAsComplete => if self.is_complete {
                Err("Task is already complete"@)
            } else {
                Ok(seq![TaskEventView::TaskMarkedAsComplete])
            },
            TaskCommandView::MarkAsIncomplete => if !self.is_complete {
                Err("Task is already incomplete"@)
            } else {
                Ok(seq![TaskEventView::TaskMarkedAsIncomplete])
            },
        }
    }
}

/// A task without history: it can be created, described and marked as
/// complete, each with one event; marking it as incomplete is refused,
/// because it is not complete.
pub proof fn lemma_task_commands_without_history(todo_id: int, description: Seq<char>)
    ensures
        TaskState::initial().handle(TaskCommandView::CreateTodo { todo_id, description }) == Ok::<
            Seq<TaskEventView>,
            Seq<char>,
        >(seq![TaskEventView::TaskCreated { todo_id, description }]),
        TaskState::initial().handle(TaskCommandView::ChangeDescription { description }) == Ok::<
            Seq<TaskEventView>,
            Seq<char>,
        >(seq![TaskEventView::DescriptionChanged { description }]),
        TaskState::initial().handle(TaskCommandView::MarkAsComplete) == Ok::<
            Seq<TaskEventView>,
            Seq<char>,
        >(seq![TaskEventView::TaskMarkedAsComplete]),
        TaskState::initial().handle(TaskCommandView::MarkAsIncomplete) == Err::<
            Seq<TaskEventView>,
            Seq<char>,
        >("Task is already incomplete"@),
{
}

impl Default for Task {
    fn default() -> (task: Self)
        ensures
            task@ == TaskState::initial(),
    {
        Task { task_id: 0, description: String::new(), is_complete: false }
    }
}

impl Aggregate for Task {
    type Command = TaskCommand;

    type Event = TaskEvent;

    type Error = TaskError;

    open spec fn initial() -> TaskState {
        TaskState::initial()
    }

    open spec fn applied(state: TaskState, event: TaskEventView) -> TaskState {
        state.apply(event)
    }

    /// A task computes no number.
    open spec fn in_range(state: TaskState, command: TaskCommand) -> bool {
        true
    }


    fn aggregate_type() -> (name: String)
        ensures
            name@ == "Todo"@,
    {
        "Todo".to_owned()
    }

    fn fresh() -> (aggregate: Self) {
        Task::default()
    }

    fn accepts(&self, command: &TaskCommand) -> (ok: bool) {
        true
    }

    fn apply(&mut self, event: TaskEvent) {
        match event {
            TaskEvent::TaskCreated { todo_id, description } => {
                self.task_id = todo_id;
                self.description = description;
            },
            TaskEvent::DescriptionChanged { description } => {
                self.description = description;
            },
            TaskEvent::TaskMarkedAsComplete => {
                self.is_complete = true;
            },
            TaskEvent::TaskMarkedAsIncomplete => {
                self.is_complete = false;
            },
        }
    }
}

impl CommandHandler<TaskService> for Task {
    open spec fn decides(
        state: TaskState,
        command: TaskCommand,
        services: TaskService,
        outcome: Result<Vec<TaskEvent>, TaskError>,
    ) -> bool {
        task_decision_view(outcome) == state.handle(command@)
    }

    fn handle(&self, command: TaskCommand, _services: &TaskService) -> (outcome: Result<
        Vec<TaskEvent>,
        TaskError,
    >) {
        match command {
            TaskCommand::CreateTodo { todo_id, description } => {
                let event = TaskEvent::TaskCreated { todo_id, description };
                let events = vec![event];
                assert(event_values(events@) =~= seq![event@]);
                Ok(events)
            },
            TaskCommand::ChangeDescription { description } => {
                let event = TaskEvent::DescriptionChanged { description };
                let events = vec![event];
                assert(event_values(events@) =~= seq![event@]);
                Ok(events)
            },
            TaskCommand::MarkAsComplete => {
                if self.is_complete {
                    return Err(TaskError::new("Task is already complete"));
                }
                let event = TaskEvent::TaskMarkedAsComplete;
                let events = vec![event];
                assert(event_values(events@) =~= seq![event@]);
                Ok(events)
            },
            TaskCommand::MarkAsIncomplete => {
                if !self.is_complete {
                    return Err(TaskError::new("Task is already incomplete"));
                }
                let event = TaskEvent::TaskMarkedAsIncomplete;
                let events = vec![event];
                assert(event_values(events@) =~= seq![event@]);
                Ok(events)
            },
        }
    }
}

} // verus!
