use vstd::prelude::*;
use crate::error::Error;
use crate::text::same_text;

verus! {

/// How far a piece of work has come.
#[derive(Debug, PartialEq, Eq, Clone, Copy)]
pub enum Status {
    Complete,
    InProgress,
    NotStarted,
}

impl Default for Status {
    fn default() -> (status: Self)
        ensures
            status == Status::NotStarted,
    {
        Status::NotStarted
    }
}

impl Status {
    /// The status that `name` stands for.
    pub open spec fn named(name: Seq<char>) -> Status {
        if name == "Complete"@ {
            Status::Complete
        } else if name == "InProgress"@ {
            Status::InProgress
        } else {
            Status::NotStarted
        }
    }

    /// The name of this status.
    pub open spec fn name(self) -> Seq<char> {
        match self {
            Status::Complete => "Complete"@,
            Status::InProgress => "InProgress"@,
            Status::NotStarted => "NotStarted"@,
        }
    }

    /// The status that `status` names; a text that names none stands for
    /// work not started.
    pub fn from(status: &str) -> (named: Self)
        ensures
            named == Status::named(status@),
    {
        if same_text(status, "Complete") {
            Status::Complete
        } else if same_text(status, "InProgress") {
            Status::InProgress
        } else {
            Status::NotStarted
        }
    }

    /// The name of this status.
    pub fn to_string(&self) -> (name: String)
        ensures
            name@ == self.name(),
    {
        match self {
            Status::Complete => "Complete".to_owned(),
            Status::InProgress => "InProgress".to_owned(),
            Status::NotStarted => "NotStarted".to_owned(),
        }
    }
}

/// Every status is the one that its own name stands for.
pub proof fn lemma_status_name_round_trip(status: Status)
    ensures
        Status::named(status.name()) == status,
{
    reveal_strlit("Complete");
    reveal_strlit("InProgress");
    reveal_strlit("NotStarted");
    assert("InProgress"@.len() != "Complete"@.len());
    assert("NotStarted"@[0] != "Complete"@[0]);
    assert("NotStarted"@[0] != "InProgress"@[0]);
}

/// One thing to do.
#[derive(Debug, PartialEq)]
pub struct Todo {
    pub id: i32,
    pub description: String,
    pub done: bool,
}

/// The mathematical value of a [`Todo`].
pub struct TodoValue {
    pub id: int,
    pub description: Seq<char>,
    pub done: bool,
}

impl View for Todo {
    type V = TodoValue;

    open spec fn view(&self) -> TodoValue {
        TodoValue { id: self.id as int, description: self.description@, done: self.done }
    }
}

/// The values of `todos`, in the same order.
pub open spec fn todo_values(todos: Seq<Todo>) -> Seq<TodoValue> {
    todos.map_values(|todo: Todo| todo@)
}

impl Clone for Todo {
    fn clone(&self) -> (copy: Self)
        ensures
            copy == *self,
    {
        Todo { id: self.id, description: self.description.clone(), done: self.done }
    }
}

impl Default for Todo {
    fn default() -> (todo: Self)
        ensures
            todo@ == (TodoValue { id: 0, description: "Default description"@, done: false }),
    {
        Todo::new(0, "Default description".to_owned(), false)
    }
}

impl Todo {
    pub fn new(id: i32, description: String, status: bool) -> (todo: Self)
        ensures
            todo@ == (TodoValue { id: id as int, description: description@, done: status }),
    {
        Self { id, description, done: status }
    }

    pub fn set_description(&mut self, description: String)
        ensures
            final(self)@ == (TodoValue { description: description@, ..old(self)@ }),
    {
        self.description = description;
    }

    pub fn set_status(&mut self, status: bool)
        ensures
            final(self)@ == (TodoValue { done: status, ..old(self)@ }),
    {
        self.done = status;
    }
}

/// A store of todos. What each operation does is the implementation's to
/// say: for each there is a relation between the store before, the store
/// after and the outcome, which the implementation defines and keeps.
pub trait TodoRepository: Sized {
    /// True if `todos` may be what `store` lists.
    spec fn listed(store: Self, todos: Vec<Todo>) -> bool;

    /// True if `outcome` may be what looking up `id` in `store` gives.
    spec fn found(store: Self, id: i32, outcome: Result<Todo, Error>) -> bool;

    /// True if creating `todo` may lead from `before` to `after` with
    /// `outcome`.
    spec fn created(before: Self, after: Self, todo: Todo, outcome: Result<Todo, Error>) -> bool;

    /// True if deleting `id` may lead from `before` to `after` with
    /// `outcome`.
    spec fn deleted(before: Self, after: Self, id: i32, outcome: Result<(), Error>) -> bool;

    /// True if updating `todo` may lead from `before` to `after` with
    /// `outcome`.
    spec fn updated(before: Self, after: Self, todo: Todo, outcome: Result<Todo, Error>) -> bool;

    fn get_all(&self) -> (todos: Vec<Todo>)
        ensures
            Self::listed(*self, todos),
    ;

    fn get_todo_by_id(&self, id: &i32) -> (outcome: Result<Todo, Error>)
        ensures
            Self::found(*self, *id, outcome),
    ;

    fn create_todo(&mut self, todo: &Todo) -> (outcome: Result<Todo, Error>)
        ensures
            Self::created(*old(self), *final(self), *todo, outcome),
    ;

    fn delete_todo(&mut self, id: &i32) -> (outcome: Result<(), Error>)
        ensures
            Self::deleted(*old(self), *final(self), *id, outcome),
    ;

    fn update_todo(&mut self, todo: &Todo) -> (outcome: Result<Todo, Error>)
        ensures
            Self::updated(*old(self), *final(self), *todo, outcome),
    ;
}

} // verus!
