use event_ledger::app_error::AppError;
use event_ledger::configuration::{get_configuration_file_path_variable, GraphQlConfiguration};
use event_ledger::error::Error;
use event_ledger::memory::MemoryTodoRepository;
use event_ledger::prelude::W;
use event_ledger::project::Project;
use event_ledger::todo::{Status, Todo, TodoRepository};
use event_ledger::todo_dtos::TodoError;
use event_ledger::todo_handlers::{
    check_api_key, delete_todo as delete_todo_handler, found_response,
    get_todo_by_id as get_todo_by_id_handler, list_todos, mark_as_completed, post_todo,
    TodoResponse,
};
use event_ledger::todo_service::{TodoService, TodoServiceImpl};

#[test]
fn todo_set_status_to_complete() {
    let mut todo = Todo::default();
    todo.set_status(true);
    assert_eq!(todo.done, true);
}

#[test]
fn todo_set_status_to_not_started() {
    let mut todo = Todo::new(1, "Get started building my new API!".to_string(), true);
    todo.set_status(false);
    assert_eq!(todo.done, false);
}

#[test]
fn todo_set_description() {
    let mut todo = Todo::new(1, "Get started building my new API!".to_string(), false);
    todo.set_description("Get started building my new API! (updated)".to_string());
    assert_eq!(todo.description, "Get started building my new API! (updated)");
}

#[test]
fn todo_default_has_the_default_description() {
    let todo = Todo::default();
    assert_eq!(todo, Todo { id: 0, description: "Default description".to_string(), done: false });
    assert_eq!(todo.clone(), todo);
}

#[test]
fn status_from_str() {
    let status = Status::from("Complete");
    assert_eq!(status, Status::Complete);

    let status = Status::from("InProgress");
    assert_eq!(status, Status::InProgress);

    let status = Status::from("NotStarted");
    assert_eq!(status, Status::NotStarted);
}

#[test]
fn status_from_unknown_text_is_not_started() {
    assert_eq!(Status::from("complete"), Status::NotStarted);
    assert_eq!(Status::from(""), Status::NotStarted);
    assert_eq!(Status::default(), Status::NotStarted);
}

#[test]
fn status_to_string() {
    let status = Status::Complete.to_string();
    assert_eq!(status, "Complete");

    let status = Status::InProgress.to_string();
    assert_eq!(status, "InProgress");

    let status = Status::NotStarted.to_string();
    assert_eq!(status, "NotStarted");
}

#[test]
fn status_name_round_trip() {
    for status in [Status::Complete, Status::InProgress, Status::NotStarted] {
        assert_eq!(Status::from(status.to_string().as_str()), status);
    }
}

#[test]
fn project_new() {
    let project = Project::new(
        1,
        "My first project".to_string(),
        "My first project description".to_string(),
        vec![],
    );
    assert_eq!(project.id, 1);
    assert_eq!(project.name, "My first project");
    assert_eq!(project.description, "My first project description");
    assert_eq!(project.todos.len(), 0);
}

#[test]
fn add_todo_with_empty_todo_list() {
    let mut project = Project::new(
        1,
        "My first project".to_string(),
        "My first project description".to_string(),
        vec![],
    );
    let todo = Todo::new(1, "Get started building my new API!".to_string(), false);
    project.add_todo(todo.clone());
    assert_eq!(project.todos.into_iter().next().expect("Expected a todo"), todo);
}

#[test]
fn add_todo_with_non_empty_todo_list() {
    let mut project = Project::new(
        1,
        "My first project".to_string(),
        "My first project description".to_string(),
        vec![],
    );
    let todo = Todo::new(1, "Get started building my new API!".to_string(), false);
    project.add_todo(todo);
    let todo = Todo::new(2, "Get started building my new API! (updated)".to_string(), false);
    project.add_todo(todo);
    assert_eq!(project.todos.len(), 2);
}

#[test]
fn remove_todo_by_id() {
    let mut project = Project::new(
        1,
        "My first project".to_string(),
        "My first project description".to_string(),
        vec![],
    );
    let todo = Todo::new(1, "Get started building my new API!".to_string(), false);
    project.add_todo(todo);
    let todo2 = Todo::new(2, "Get started building my new API! (updated)".to_string(), false);
    project.add_todo(todo2.clone());
    project.remove_todo_by_id(1);
    assert_eq!(project.todos.into_iter().next().expect("Expected a todo"), todo2);
}

#[test]
fn remove_todo_by_id_takes_out_every_todo_with_the_id() {
    let mut project = Project::new(1, "p".to_string(), "d".to_string(), vec![]);
    project.add_todo(Todo::new(1, "a".to_string(), false));
    project.add_todo(Todo::new(2, "b".to_string(), false));
    project.add_todo(Todo::new(1, "c".to_string(), true));
    project.add_todo(Todo::new(3, "d".to_string(), false));
    project.remove_todo_by_id(1);
    assert_eq!(
        project.todos,
        vec![Todo::new(2, "b".to_string(), false), Todo::new(3, "d".to_string(), false)]
    );
    project.remove_todo_by_id(9);
    assert_eq!(project.todos.len(), 2);
    assert_eq!(project.name, "p");
}

#[test]
fn test_get_all() {
    let repo = MemoryTodoRepository::new();
    let todos = repo.get_all();
    assert_eq!(todos.len(), 0);
}

#[test]
fn test_get_todo_by_id() {
    let mut repo = MemoryTodoRepository::new();
    let todo = Todo::new(1, "description 1".to_string(), false);
    repo.create_todo(&todo).expect("Expected to create todo successfully");
    let found = repo.get_todo_by_id(&todo.id).expect("Expected to get todo successfully");
    assert_eq!(todo, found);
}

#[test]
fn test_create_todo() {
    let mut repo = MemoryTodoRepository::new();
    let todo = Todo::new(1, "description 1".to_string(), false);
    repo.create_todo(&todo).expect("Expected to create todo successfully");
    let todos = repo.get_all();
    assert_eq!(todos.len(), 1);
    assert_eq!(todos[0], todo);
}

#[test]
fn test_delete_todo() {
    let mut repo = MemoryTodoRepository::new();
    let todo = Todo::new(1, "description 1".to_string(), false);
    repo.create_todo(&todo).expect("Expected to create todo successfully");
    repo.delete_todo(&todo.id).expect("Expected to delete todo successfully");
    let todos = repo.get_all();
    assert_eq!(todos.len(), 0);
}

#[test]
fn test_update_todo() {
    let mut repo = MemoryTodoRepository::new();
    let todo = Todo::new(1, "description 1".to_string(), false);
    repo.create_todo(&todo).expect("");
    let mut updated = todo.clone();
    updated.set_description("updated".to_string());
    repo.update_todo(&updated).expect("");
    let todos = repo.get_all();
    assert_eq!(todos.len(), 1);
    assert_eq!(todos[0], updated);
}

#[test]
fn memory_repository_reports_what_is_missing_or_there_already() {
    let mut repo = MemoryTodoRepository::default();
    assert_eq!(
        repo.get_todo_by_id(&7),
        Err(Error::Generic("todo with id (7) not found".to_string()))
    );
    assert_eq!(
        repo.delete_todo(&-12),
        Err(Error::Generic("todo with id (-12) not found".to_string()))
    );
    assert_eq!(
        repo.update_todo(&Todo::new(i32::MIN, "x".to_string(), false)),
        Err(Error::Generic("todo with id (-2147483648) not found".to_string()))
    );
    let todo = Todo::new(2147483647, "a".to_string(), false);
    assert_eq!(repo.create_todo(&todo), Ok(todo.clone()));
    assert_eq!(
        repo.create_todo(&Todo::new(2147483647, "b".to_string(), true)),
        Err(Error::Generic("todo with id (2147483647) already exists".to_string()))
    );
    assert_eq!(repo.get_all(), vec![todo]);
}

#[test]
fn memory_repository_keeps_the_order_of_creation() {
    let mut repo = MemoryTodoRepository::new();
    for id in [3, 1, 2] {
        repo.create_todo(&Todo::new(id, id.to_string(), false)).unwrap();
    }
    repo.delete_todo(&1).unwrap();
    repo.update_todo(&Todo::new(3, "three".to_string(), true)).unwrap();
    assert_eq!(
        repo.get_all(),
        vec![Todo::new(3, "three".to_string(), true), Todo::new(2, "2".to_string(), false)]
    );
}

fn repository_with(todos: Vec<Todo>) -> MemoryTodoRepository {
    let mut repository = MemoryTodoRepository::new();
    for todo in todos.iter() {
        repository.create_todo(todo).expect("Expected to create todo successfully");
    }
    repository
}

#[test]
fn todo_service_get_by_id() {
    let todo_repository =
        repository_with(vec![Todo { id: 1, description: "Test".to_string(), done: false }]);
    let todo_service = TodoServiceImpl::new(todo_repository);

    let todo = todo_service.get_todo_by_id(&1).unwrap();

    assert_eq!(todo.id, 1);
    assert_eq!(todo.description, "Test");
    assert_eq!(todo.done, false);
}

#[test]
fn mark_todo_as_completed() {
    let todo_repository =
        repository_with(vec![Todo { id: 1, description: "Test".to_string(), done: false }]);
    let mut todo_service = TodoServiceImpl::new(todo_repository);

    let todo = todo_service
        .mark_todo_as_completed(&1)
        .expect("Expected mark todo as completed to be ok");

    assert_eq!(todo.id, 1);
    assert_eq!(todo.description, "Test");
    assert_eq!(todo.done, true);
}

#[test]
fn mark_todo_as_completed_in_memory() {
    let mut repository = MemoryTodoRepository::new();
    repository.create_todo(&Todo::new(1, "Test".to_string(), false)).unwrap();
    let mut todo_service = TodoServiceImpl::new(repository);
    assert_eq!(
        todo_service.mark_todo_as_completed(&1),
        Ok(Todo::new(1, "Test".to_string(), true))
    );
    assert_eq!(todo_service.get_all(), vec![Todo::new(1, "Test".to_string(), true)]);
    assert_eq!(
        todo_service.mark_todo_as_completed(&2),
        Err(Error::Generic("todo with id (2) not found".to_string()))
    );
}

#[test]
fn create_todo() {
    let todo_repository = repository_with(vec![]);
    let mut todo_service = TodoServiceImpl::new(todo_repository);

    let todo = todo_service
        .create_todo(&Todo { id: 1, description: "Test".to_string(), done: false })
        .expect("Expected create todo to be ok");

    assert_eq!(todo.id, 1);
    assert_eq!(todo.description, "Test");
    assert_eq!(todo.done, false);
}

#[test]
fn delete_todo() {
    let todo_repository =
        repository_with(vec![Todo { id: 1, description: "Test".to_string(), done: false }]);
    let mut todo_service = TodoServiceImpl::new(todo_repository);

    let result = todo_service.delete_todo(&1);

    assert!(result.is_ok());
}

#[test]
fn get_all() {
    let todo_repository = repository_with(vec![
        Todo { id: 1, description: "Test".to_string(), done: false },
        Todo { id: 2, description: "Test 2".to_string(), done: false },
    ]);
    let todo_service = TodoServiceImpl::new(todo_repository);

    let todos = todo_service.get_all();

    assert_eq!(todos.len(), 2);
    assert_eq!(todos[0].id, 1);
    assert_eq!(todos[0].description, "Test");
    assert_eq!(todos[0].done, false);
    assert_eq!(todos[1].id, 2);
    assert_eq!(todos[1].description, "Test 2");
    assert_eq!(todos[1].done, false);
}

#[test]
fn test_error() {
    let err = Error::Generic("test".to_string());
    assert_eq!(err.to_string(), "Generic: test");
}

#[test]
fn parse_serve_address_parses_correctly() {
    let config = GraphQlConfiguration { enabled: true, port: 8080 };
    let serve_address = config.parse_serve_address();
    assert_eq!(serve_address, "127.0.0.1:8080");
}

#[test]
fn serve_address_for_the_smallest_and_largest_port() {
    assert_eq!(GraphQlConfiguration { enabled: false, port: 0 }.parse_serve_address(), "127.0.0.1:0");
    assert_eq!(
        GraphQlConfiguration { enabled: false, port: 65535 }.parse_serve_address(),
        "127.0.0.1:65535"
    );
}

#[test]
fn test_get_configuration_file_path_variable() {
    let filename =
        get_configuration_file_path_variable("CONFIGURATION_FILE_PATH", Ok("test".to_string())).unwrap();
    assert_eq!(filename, "test");
}

#[test]
fn configuration_file_path_names_the_variable_that_is_missing() {
    assert_eq!(
        get_configuration_file_path_variable("CONFIGURATION_FILE_PATH", Err("not present".to_string())),
        Err(Error::Generic("Could not read CONFIGURATION_FILE_PATH: not present".to_string()))
    );
}

#[test]
fn app_error_responses() {
    assert_eq!(
        AppError::from(TodoError::Conflict("id = 1".to_string())).into_response(),
        (409, "Todo already existsL id = 1".to_string())
    );
    assert_eq!(
        AppError::TodoError(TodoError::NotFound("id = 1".to_string())).into_response(),
        (404, "Todo not found: id = 1".to_string())
    );
    assert_eq!(
        AppError::TodoError(TodoError::InvalidInput).into_response(),
        (400, "Invalid input".to_string())
    );
    assert_eq!(
        AppError::TodoError(TodoError::InternalError).into_response(),
        (500, "Internal error".to_string())
    );
    assert_eq!(
        AppError::TodoError(TodoError::Unauthorized("missing api key".to_string()))
            .into_response(),
        (401, "Unauthorized: missing api key".to_string())
    );
}

#[test]
fn api_key_is_checked() {
    assert_eq!(check_api_key(false, None), Ok(()));
    assert_eq!(check_api_key(false, Some("example_api_key")), Ok(()));
    assert_eq!(check_api_key(true, Some("example_api_key")), Ok(()));
    assert_eq!(
        check_api_key(true, None),
        Err(TodoError::Unauthorized("missing api key".to_string()))
    );
    assert_eq!(
        check_api_key(false, Some("other")),
        Err(TodoError::Unauthorized("incorrect api key".to_string()))
    );
    assert_eq!(
        check_api_key(true, Some("")),
        Err(TodoError::Unauthorized("incorrect api key".to_string()))
    );
}

#[test]
fn todo_handlers_answer_with_the_status() {
    let mut service = TodoServiceImpl::new(MemoryTodoRepository::new());
    let todo = Todo::new(1, "first".to_string(), false);
    assert_eq!(post_todo(&mut service, todo.clone()), TodoResponse::Todo(201, todo.clone()));
    assert_eq!(
        post_todo(&mut service, todo.clone()),
        TodoResponse::Failure(
            409,
            TodoError::Conflict("Generic: todo with id (1) already exists".to_string())
        )
    );
    assert_eq!(list_todos(&service), vec![todo.clone()]);
    assert_eq!(get_todo_by_id_handler(1, &service), TodoResponse::Todo(200, todo.clone()));
    assert_eq!(
        get_todo_by_id_handler(2, &service),
        TodoResponse::Failure(
            404,
            TodoError::NotFound("Generic: todo with id (2) not found".to_string())
        )
    );
    assert_eq!(
        found_response(Err(Error::Generic("gone".to_string()))),
        TodoResponse::Failure(404, TodoError::NotFound("Generic: gone".to_string()))
    );
    assert_eq!(mark_as_completed(1, &mut service, Some("wrong")), 401);
    assert_eq!(list_todos(&service), vec![todo.clone()]);
    assert_eq!(mark_as_completed(2, &mut service, None), 404);
    assert_eq!(mark_as_completed(1, &mut service, None), 200);
    assert_eq!(list_todos(&service), vec![Todo::new(1, "first".to_string(), true)]);
    assert_eq!(
        delete_todo_handler(1, &mut service, None),
        TodoResponse::Failure(401, TodoError::Unauthorized("missing api key".to_string()))
    );
    assert_eq!(
        delete_todo_handler(1, &mut service, Some("nope")),
        TodoResponse::Failure(401, TodoError::Unauthorized("incorrect api key".to_string()))
    );
    assert_eq!(list_todos(&service).len(), 1);
    assert_eq!(
        delete_todo_handler(2, &mut service, Some("example_api_key")),
        TodoResponse::Status(404)
    );
    assert_eq!(
        delete_todo_handler(1, &mut service, Some("example_api_key")),
        TodoResponse::Status(200)
    );
    assert_eq!(list_todos(&service).len(), 0);
}

#[test]
fn wrapper_holds_its_value() {
    let wrapped = W(5);
    assert_eq!(wrapped.0, 5);
}
