use vstd::prelude::*;
use crate::error::Error;
use crate::todo::{Todo, TodoRepository, TodoValue};

verus! {

/// What the application offers on todos. What each operation does is the
/// implementation's to say: for each there is a relation between the
/// service before, the service after and the outcome, which the
/// implementation defines and keeps.
pub trait TodoService: Sized {
    /// True if `todos` may be what `service` lists.
    spec fn listed(service: Self, todos: Vec<Todo>) -> bool;

    /// True if `outcome` may be what looking up `id` gives.
    spec fn found(service: Self, id: i32, outcome: Result<Todo, Error>) -> bool;

    /// True if creating `todo` may lead from `before` to `after` with
    /// `outcome`.
    spec fn created(before: Self, after: Self, todo: Todo, outcome: Result<Todo, Error>) -> bool;

    /// True if deleting `id` may lead from `before` to `after` with
    /// `outcome`.
    spec fn deleted(before: Self, after: Self, id: i32, outcome: Result<(), Error>) -> bool;

    /// True if marking `id` as completed may lead from `before` to `after`
    /// with `outcome`.
    spec fn completed(before: Self, after: Self, id: i32, outcome: Result<Todo, Error>) -> bool;

    fn get_all(&self) -> (todos: Vec<Todo>)
        ensures
            Self::listed(*self, todos),
    ;

    fn create_todo(&mut self, todo: &Todo) -> (outcome: Result<Todo, Error>)
        ensures
            Self::created(*old(self), *final(self), *todo, outcome),
    ;

    fn delete_todo(&mut self, id: &i32) -> (outcome: Result<(), Error>)
        ensures
            Self::deleted(*old(self), *final(self), *id, outcome),
    ;

    fn get_todo_by_id(&self, id: &i32) -> (outcome: Result<Todo, Error>)
        ensures
            Self::found(*self, *id, outcome),
    ;

    fn mark_todo_as_completed(&mut self, id: &i32) -> (outcome: Result<Todo, Error>)
        ensures
            Self::completed(*old(self), *final(self), *id, outcome),
    ;
}

/// The todo service over a repository: it hands each request on to the
/// repository, and completes a todo by reading it, setting its status and
/// writing it back.
pub struct TodoServiceImpl<R: TodoRepository> {
    repository: R,
}

impl<R: TodoRepository> TodoServiceImpl<R> {
    /// The repository that the service works on.
    pub closed spec fn repository(self) -> R {
        self.repository
    }

    pub fn new(repository: R) -> (service: Self)
        ensures
            service.repository() == repository,
    {
        Self { repository }
    }
}

impl<R: TodoRepository> TodoService for TodoServiceImpl<R> {
    open spec fn listed(service: Self, todos: Vec<Todo>) -> bool {
        R::listed(service.repository(), todos)
    }

    open spec fn found(service: Self, id: i32, outcome: Result<Todo, Error>) -> bool {
        R::found(service.repository(), id, outcome)
    }

    open spec fn created(
        before: Self,
        after: Self,
        todo: Todo,
        outcome: Result<Todo, Error>,
    ) -> bool {
        R::created(before.repository(), after.repository(), todo, outcome)
    }

    open spec fn deleted(before: Self, after: Self, id: i32, outcome: Result<(), Error>) -> bool {
        R::deleted(before.repository(), after.repository(), id, outcome)
    }

    /// If the repository does not find the todo, its reason is the outcome
    /// and nothing changes. Otherwise the todo as found, with its status
    /// set, is written back, and the outcome is that of the update.
    open spec fn completed(
        before: Self,
        after: Self,
        id: i32,
        outcome: Result<Todo, Error>,
    ) -> bool {
        exists|looked_up: Result<Todo, Error>|
            {
                &&& #[trigger] R::found(before.repository(), id, looked_up)
                &&& match looked_up {
                    Err(error) => outcome == Err::<Todo, Error>(error) && after.repository()
                        == before.repository(),
                    Ok(todo) => exists|marked: Todo|
                        {
                            &&& marked@ == (TodoValue { done: true, ..todo@ })
                            &&& #[trigger] R::updated(
                                before.repository(),
                                after.repository(),
                                marked,
                                outcome,
                            )
                        },
                }
            }
    }

    fn get_all(&self) -> (todos: Vec<Todo>) {
        self.repository.get_all()
    }

    fn create_todo(&mut self, todo: &Todo) -> (outcome: Result<Todo, Error>) {
        self.repository.create_todo(todo)
    }

    fn delete_todo(&mut self, id: &i32) -> (outcome: Result<(), Error>) {
        self.repository.delete_todo(id)
    }

    fn get_todo_by_id(&self, id: &i32) -> (outcome: Result<Todo, Error>) {
        self.repository.get_todo_by_id(id)
    }

    fn mark_todo_as_completed(&mut self, id: &i32) -> (outcome: Result<Todo, Error>) {
        let looked_up = self.repository.get_todo_by_id(id);
        let mut todo = match looked_up {
            Ok(todo) => todo,
            Err(error) => {
                assert(R::found(old(self).repository(), *id, looked_up));
                return Err(error);
            },
        };
        todo.set_status(true);
        let outcome = self.repository.update_todo(&todo);
        assert(R::found(old(self).repository(), *id, looked_up));
        assert(R::updated(old(self).repository(), self.repository(), todo, outcome));
        outcome
    }
}

} // verus!
