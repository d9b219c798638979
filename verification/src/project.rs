use vstd::prelude::*;
use crate::todo::{todo_values, Todo, TodoValue};

verus! {

/// A project: a named list of todos.
#[derive(Debug, PartialEq)]
pub struct Project {
    pub id: i32,
    pub name: String,
    pub description: String,
    pub todos: Vec<Todo>,
}

/// The mathematical value of a [`Project`].
pub struct ProjectValue {
    pub id: int,
    pub name: Seq<char>,
    pub description: Seq<char>,
    pub todos: Seq<TodoValue>,
}

impl View for Project {
    type V = ProjectValue;

    open spec fn view(&self) -> ProjectValue {
        ProjectValue {
            id: self.id as int,
            name: self.name@,
            description: self.description@,
            todos: todo_values(self.todos@),
        }
    }
}

/// The todos of `todos` whose id is not `id`, in the same order.
pub open spec fn without_id(todos: Seq<TodoValue>, id: int) -> Seq<TodoValue>
    decreases todos.len(),
{
    if todos.len() == 0 {
        todos
    } else if todos.last().id == id {
        without_id(todos.drop_last(), id)
    } else {
        without_id(todos.drop_last(), id).push(todos.last())
    }
}

/// After the todos with an id are taken out, none with that id is left, and
/// every todo left was there before.
pub proof fn lemma_without_id(todos: Seq<TodoValue>, id: int)
    ensures
        forall|at: int| 0 <= at < without_id(todos, id).len() ==> {
            &&& (#[trigger] without_id(todos, id)[at]).id != id
            &&& todos.contains(without_id(todos, id)[at])
        },
        without_id(todos, id).len() <= todos.len(),
    decreases todos.len(),
{
    if todos.len() > 0 {
        lemma_without_id(todos.drop_last(), id);
        let kept = without_id(todos, id);
        assert forall|at: int| 0 <= at < kept.len() implies {
            &&& (#[trigger] kept[at]).id != id
            &&& todos.contains(kept[at])
        } by {
            let shorter = without_id(todos.drop_last(), id);
            if at < shorter.len() {
                assert(kept[at] == shorter[at]);
                let from = choose|from: int|
                    0 <= from < todos.drop_last().len() && todos.drop_last()[from] == shorter[at];
                assert(todos[from] == kept[at]);
            } else {
                assert(kept[at] == todos[todos.len() - 1]);
            }
        }
    }
}

impl Project {
    pub fn new(id: i32, name: String, description: String, todos: Vec<Todo>) -> (project: Self)
        ensures
            project@ == (ProjectValue {
                id: id as int,
                name: name@,
                description: description@,
                todos: todo_values(todos@),
            }),
    {
        Self { id, name, description, todos }
    }

    /// Adds `todo` at the end of the project's todos.
    pub fn add_todo(&mut self, todo: Todo)
        ensures
            final(self)@ == (ProjectValue { todos: old(self)@.todos.push(todo@), ..old(self)@ }),
    {
        let ghost before = self.todos@;
        self.todos.push(todo);
        assert(todo_values(before.push(todo)) =~= todo_values(before).push(todo@));
    }

    /// Takes every todo with the id `id` out of the project.
    pub fn remove_todo_by_id(&mut self, id: i32)
        ensures
            final(self)@ == (ProjectValue {
                todos: without_id(old(self)@.todos, id as int),
                ..old(self)@
            }),
    {
        let ghost all = todo_values(self.todos@);
        let mut kept: Vec<Todo> = Vec::new();
        let mut seen: usize = 0;
        assert(todo_values(kept@) =~= without_id(all.take(0), id as int));
        while seen < self.todos.len()
            invariant
                seen <= self.todos.len(),
                all == todo_values(self.todos@),
                todo_values(kept@) == without_id(all.take(seen as int), id as int),
            decreases self.todos.len() - seen,
        {
            assert(all.take(seen + 1).drop_last() =~= all.take(seen as int));
            assert(all.take(seen + 1).last() == self.todos@[seen as int]@);
            if self.todos[seen].id != id {
                let ghost so_far = kept@;
                let todo = self.todos[seen].clone();
                kept.push(todo);
                assert(todo_values(so_far.push(todo)) =~= todo_values(so_far).push(todo@));
            }
            seen += 1;
        }
        assert(all.take(seen as int) =~= all);
        self.todos = kept;
    }
}

} // verus!
