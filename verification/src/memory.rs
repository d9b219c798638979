use vstd::prelude::*;
use crate::error::Error;
use crate::text::{integer_text, integer_to_text, join3};
use crate::todo::{todo_values, Todo, TodoRepository, TodoValue};

verus! {

/// True if `at` is the place of the first todo of `todos` with the id `id`.
pub open spec fn is_first_with_id(todos: Seq<TodoValue>, id: int, at: int) -> bool {
    &&& 0 <= at < todos.len()
    &&& todos[at].id == id
    &&& forall|earlier: int| 0 <= earlier < at ==> (#[trigger] todos[earlier]).id != id
}

/// True if no todo of `todos` has the id `id`.
pub open spec fn has_no_id(todos: Seq<TodoValue>, id: int) -> bool {
    forall|at: int| 0 <= at < todos.len() ==> (#[trigger] todos[at]).id != id
}

/// The reason given when no todo has the id `id`.
pub open spec fn not_found(id: int) -> Seq<char> {
    "todo with id ("@ + integer_text(id) + ") not found"@
}

/// The reason given when a todo with the id `id` is there already.
pub open spec fn already_exists(id: int) -> Seq<char> {
    "todo with id ("@ + integer_text(id) + ") already exists"@
}

/// A store of todos in memory. Its view is the list of the todos' values,
/// in the order in which they were created. A new store holds no id twice
/// (`has_unique_ids`), and no operation changes that.
#[derive(Debug)]
pub struct MemoryTodoRepository {
    store: Vec<Todo>,
}

impl View for MemoryTodoRepository {
    type V = Seq<TodoValue>;

    closed spec fn view(&self) -> Seq<TodoValue> {
        todo_values(self.store@)
    }
}

impl Default for MemoryTodoRepository {
    fn default() -> (repository: Self)
        ensures
            repository@ == Seq::<TodoValue>::empty(),
    {
        Self::new()
    }
}

impl MemoryTodoRepository {
    /// A store without todos.
    pub fn new() -> (repository: Self)
        ensures
            repository@ == Seq::<TodoValue>::empty(),
            has_unique_ids(repository@),
    {
        let repository = Self { store: Vec::new() };
        assert(repository@ =~= Seq::<TodoValue>::empty());
        repository
    }

    /// The place of the first todo with the id `id`, if there is one.
    fn find(&self, id: i32) -> (found: Option<usize>)
        ensures
            match found {
                Some(at) => is_first_with_id(self@, id as int, at as int),
                None => has_no_id(self@, id as int),
            },
    {
        let mut at: usize = 0;
        while at < self.store.len()
            invariant
                at <= self.store.len(),
                forall|earlier: int| 0 <= earlier < at ==> (#[trigger] self@[earlier]).id != id,
            decreases self.store.len() - at,
        {
            if self.store[at].id == id {
                return Some(at);
            }
            at += 1;
        }
        None
    }

    fn not_found_error(id: i32) -> (error: Error)
        ensures
            error@ == not_found(id as int),
    {
        Error::Generic(join3("todo with id (", integer_to_text(id as i64).as_str(), ") not found"))
    }
}

/// True if no two todos of `todos` have the same id.
pub open spec fn has_unique_ids(todos: Seq<TodoValue>) -> bool {
    forall|first: int, second: int|
        0 <= first < second < todos.len() ==> (#[trigger] todos[first]).id != (
        #[trigger] todos[second]).id
}

impl TodoRepository for MemoryTodoRepository {
    /// All todos, in the order in which they were created.
    open spec fn listed(store: Self, todos: Vec<Todo>) -> bool {
        todo_values(todos@) == store@
    }

    /// The first todo with the id, or the reason that there is none.
    open spec fn found(store: Self, id: i32, outcome: Result<Todo, Error>) -> bool {
        match outcome {
            Ok(todo) => exists|at: int|
                is_first_with_id(store@, id as int, at) && todo@ == store@[at],
            Err(error) => has_no_id(store@, id as int) && error@ == not_found(id as int),
        }
    }

    /// The todo is added at the end and handed back, unless a todo with its
    /// id is there already; then nothing changes.
    open spec fn created(
        before: Self,
        after: Self,
        todo: Todo,
        outcome: Result<Todo, Error>,
    ) -> bool {
        match outcome {
            Ok(copy) => {
                &&& has_no_id(before@, todo.id as int)
                &&& copy@ == todo@
                &&& after@ == before@.push(todo@)
            },
            Err(error) => {
                &&& !has_no_id(before@, todo.id as int)
                &&& error@ == already_exists(todo.id as int)
                &&& after@ == before@
            },
        }
    }

    /// The first todo with the id is taken out; if there is none, nothing
    /// changes.
    open spec fn deleted(before: Self, after: Self, id: i32, outcome: Result<(), Error>) -> bool {
        match outcome {
            Ok(()) => exists|at: int|
                is_first_with_id(before@, id as int, at) && after@ == before@.remove(at),
            Err(error) => {
                &&& has_no_id(before@, id as int)
                &&& error@ == not_found(id as int)
                &&& after@ == before@
            },
        }
    }

    /// The first todo with the id of `todo` gets the description and the
    /// status of `todo`, and `todo` is handed back; if there is none,
    /// nothing changes.
    open spec fn updated(
        before: Self,
        after: Self,
        todo: Todo,
        outcome: Result<Todo, Error>,
    ) -> bool {
        match outcome {
            Ok(copy) => {
                &&& copy@ == todo@
                &&& exists|at: int|
                    is_first_with_id(before@, todo.id as int, at) && after@ == before@.update(
                        at,
                        todo@,
                    )
            },
            Err(error) => {
                &&& has_no_id(before@, todo.id as int)
                &&& error@ == not_found(todo.id as int)
                &&& after@ == before@
            },
        }
    }

    fn get_all(&self) -> (todos: Vec<Todo>) {
        let mut todos: Vec<Todo> = Vec::new();
        let mut done: usize = 0;
        while done < self.store.len()
            invariant
                done <= self.store.len(),
                todos@ == self.store@.take(done as int),
            decreases self.store.len() - done,
        {
            todos.push(self.store[done].clone());
            assert(todos@ =~= self.store@.take(done + 1));
            done += 1;
        }
        assert(self.store@.take(done as int) =~= self.store@);
        todos
    }

    fn get_todo_by_id(&self, id: &i32) -> (outcome: Result<Todo, Error>) {
        match self.find(*id) {
            Some(at) => {
                assert(is_first_with_id(self@, *id as int, at as int));
                Ok(self.store[at].clone())
            },
            None => Err(Self::not_found_error(*id)),
        }
    }

    fn create_todo(&mut self, todo: &Todo) -> (outcome: Result<Todo, Error>)
        ensures
            has_unique_ids(old(self)@) ==> has_unique_ids(final(self)@),
    {
        match self.find(todo.id) {
            Some(at) => {
                assert(self@[at as int].id == todo.id);
                Err(
                    Error::Generic(
                        join3(
                            "todo with id (",
                            integer_to_text(todo.id as i64).as_str(),
                            ") already exists",
                        ),
                    ),
                )
            },
            None => {
                let ghost before = self.store@;
                let stored = todo.clone();
                self.store.push(stored);
                assert(todo_values(before.push(stored)) =~= todo_values(before).push(stored@));
                Ok(todo.clone())
            },
        }
    }

    fn delete_todo(&mut self, id: &i32) -> (outcome: Result<(), Error>)
        ensures
            has_unique_ids(old(self)@) ==> has_unique_ids(final(self)@),
    {
        match self.find(*id) {
            Some(at) => {
                let ghost before = self.store@;
                self.store.remove(at);
                assert(todo_values(before.remove(at as int)) =~= todo_values(before).remove(
                    at as int,
                ));
                assert(is_first_with_id(old(self)@, *id as int, at as int));
                assert(has_unique_ids(old(self)@) ==> has_unique_ids(self@)) by {
                    let earlier = old(self)@;
                    let later = self@;
                    if has_unique_ids(earlier) {
                        assert forall|first: int, second: int|
                            0 <= first < second < later.len() implies (#[trigger] later[first]).id
                            != (#[trigger] later[second]).id by {
                            let from = if first < at { first } else { first + 1 };
                            let to = if second < at { second } else { second + 1 };
                            assert(later[first] == earlier[from]);
                            assert(later[second] == earlier[to]);
                        }
                    }
                }
                Ok(())
            },
            None => Err(Self::not_found_error(*id)),
        }
    }

    fn update_todo(&mut self, todo: &Todo) -> (outcome: Result<Todo, Error>)
        ensures
            has_unique_ids(old(self)@) ==> has_unique_ids(final(self)@),
    {
        match self.find(todo.id) {
            Some(at) => {
                let ghost before = self.store@;
                let stored = todo.clone();
                self.store.set(at, stored);
                assert(todo_values(before.update(at as int, stored)) =~= todo_values(
                    before,
                ).update(at as int, stored@));
                assert(is_first_with_id(old(self)@, todo.id as int, at as int));
                Ok(todo.clone())
            },
            None => Err(Self::not_found_error(todo.id)),
        }
    }
}

} // verus!
