use vstd::prelude::*;
use crate::error::Error;
use crate::text::same_text;
use crate::todo::Todo;
use crate::todo_dtos::{TodoError, TodoErrorView};
use crate::todo_service::TodoService;

verus! {

/// What a handler answers: an HTTP status, and the todo or the error that
/// goes into the body, if any.
#[derive(Debug, PartialEq)]
pub enum TodoResponse {
    Status(u16),
    Todo(u16, Todo),
    Failure(u16, TodoError),
}

/// The decision on an API key: `header` is the value of the request's
/// `todo_apikey` header, if it has one. A wrong key is always refused; a
/// missing one only where a key is required.
pub open spec fn api_key_decision(require_api_key: bool, header: Option<Seq<char>>) -> Result<
    (),
    TodoErrorView,
> {
    match header {
        Some(key) => if key != "example_api_key"@ {
            Err(TodoErrorView::Unauthorized("incorrect api key"@))
        } else {
            Ok(())
        },
        None => if require_api_key {
            Err(TodoErrorView::Unauthorized("missing api key"@))
        } else {
            Ok(())
        },
    }
}

/// The value of an optional text.
pub open spec fn optional_text(text: Option<&str>) -> Option<Seq<char>> {
    match text {
        Some(text) => Some(text@),
        None => None,
    }
}

/// Checks the API key of a request. The handlers answer a refusal with
/// status 401.
pub fn check_api_key(require_api_key: bool, header: Option<&str>) -> (checked: Result<
    (),
    TodoError,
>)
    ensures
        match checked {
            Ok(()) => api_key_decision(require_api_key, optional_text(header)) is Ok,
            Err(error) => api_key_decision(require_api_key, optional_text(header)) == Err::<
                (),
                TodoErrorView,
            >(error@),
        },
{
    match header {
        Some(key) => {
            if !same_text(key, "example_api_key") {
                Err(TodoError::Unauthorized("incorrect api key".to_owned()))
            } else {
                Ok(())
            }
        },
        None => {
            if require_api_key {
                Err(TodoError::Unauthorized("missing api key".to_owned()))
            } else {
                Ok(())
            }
        },
    }
}

/// Lists all todos.
pub fn list_todos<S: TodoService>(todo_service: &S) -> (todos: Vec<Todo>)
    ensures
        S::listed(*todo_service, todos),
{
    todo_service.get_all()
}

/// True if `response` answers the outcome `created` of creating a todo:
/// status 201 with the todo, or status 409 with the service's reason.
pub open spec fn answers_creation(created: Result<Todo, Error>, response: TodoResponse) -> bool {
    match created {
        Ok(todo) => response == TodoResponse::Todo(201, todo),
        Err(error) => response matches TodoResponse::Failure(status, reason) && status == 409
            && reason@ == TodoErrorView::Conflict("Generic: "@ + error@),
    }
}

/// Creates `todo` and answers with what the service made of it.
pub fn post_todo<S: TodoService>(todo_service: &mut S, todo: Todo) -> (response: TodoResponse)
    ensures
        exists|created: Result<Todo, Error>|
            {
                &&& #[trigger] S::created(*old(todo_service), *final(todo_service), todo, created)
                &&& answers_creation(created, response)
            },
{
    let created = todo_service.create_todo(&todo);
    assert(S::created(*old(todo_service), *todo_service, todo, created));
    match created {
        Ok(todo) => TodoResponse::Todo(201, todo),
        Err(e) => TodoResponse::Failure(409, TodoError::Conflict(e.to_string())),
    }
}

/// Marks the todo `id` as completed. A wrong API key is answered with 401
/// and the service is not asked; otherwise the service is asked, and the
/// answer is 200 if it succeeds and 404 if it fails.
pub fn mark_as_completed<S: TodoService>(
    id: i32,
    todo_service: &mut S,
    api_key: Option<&str>,
) -> (status: u16)
    ensures
        match api_key_decision(false, optional_text(api_key)) {
            Err(_) => status == 401 && *final(todo_service) == *old(todo_service),
            Ok(()) => exists|outcome: Result<Todo, Error>|
                {
                    &&& #[trigger] S::completed(*old(todo_service), *final(todo_service), id, outcome)
                    &&& status == if outcome is Ok {
                        200int
                    } else {
                        404int
                    }
                },
        },
{
    match check_api_key(false, api_key) {
        Ok(()) => (),
        Err(_) => {
            return 401;
        },
    }
    let result = todo_service.mark_todo_as_completed(&id);
    assert(S::completed(*old(todo_service), *todo_service, id, result));
    match result {
        Ok(_) => 200,
        Err(_) => 404,
    }
}

/// True if `response` answers the outcome `found` of looking a todo up:
/// status 200 with the todo, or status 404 with the service's reason.
pub open spec fn answers_lookup(found: Result<Todo, Error>, response: TodoResponse) -> bool {
    match found {
        Ok(todo) => response == TodoResponse::Todo(200, todo),
        Err(error) => response matches TodoResponse::Failure(status, reason) && status == 404
            && reason@ == TodoErrorView::NotFound("Generic: "@ + error@),
    }
}

/// What answers the outcome of looking a todo up.
pub fn found_response(found: Result<Todo, Error>) -> (response: TodoResponse)
    ensures
        answers_lookup(found, response),
{
    match found {
        Ok(todo) => TodoResponse::Todo(200, todo),
        Err(e) => TodoResponse::Failure(404, TodoError::NotFound(e.to_string())),
    }
}

/// Looks the todo `id` up and answers with what the service found. No API
/// key is asked for.
pub fn get_todo_by_id<S: TodoService>(id: i32, todo_service: &S) -> (response: TodoResponse)
    ensures
        exists|found: Result<Todo, Error>|
            {
                &&& #[trigger] S::found(*todo_service, id, found)
                &&& answers_lookup(found, response)
            },
{
    let found = todo_service.get_todo_by_id(&id);
    assert(S::found(*todo_service, id, found));
    found_response(found)
}

/// Deletes the todo `id`. An API key is required: without the right one the
/// answer is 401 with the reason, and the service is not asked. Otherwise
/// the service is asked, and the answer is 200 if it succeeds and 404 if it
/// fails.
pub fn delete_todo<S: TodoService>(
    id: i32,
    todo_service: &mut S,
    api_key: Option<&str>,
) -> (response: TodoResponse)
    ensures
        match api_key_decision(true, optional_text(api_key)) {
            Err(reason) => {
                &&& response matches TodoResponse::Failure(status, error)
                &&& status == 401
                &&& error@ == reason
                &&& *final(todo_service) == *old(todo_service)
            },
            Ok(()) => exists|outcome: Result<(), Error>|
                {
                    &&& #[trigger] S::deleted(*old(todo_service), *final(todo_service), id, outcome)
                    &&& response == TodoResponse::Status(
                        if outcome is Ok {
                            200u16
                        } else {
                            404u16
                        },
                    )
                },
        },
{
    match check_api_key(true, api_key) {
        Ok(()) => (),
        Err(error) => {
            return TodoResponse::Failure(401, error);
        },
    }
    let result = todo_service.delete_todo(&id);
    assert(S::deleted(*old(todo_service), *todo_service, id, result));
    match result {
        Ok(()) => TodoResponse::Status(200),
        Err(_) => TodoResponse::Status(404),
    }
}

} // verus!
