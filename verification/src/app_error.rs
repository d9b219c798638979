use vstd::prelude::*;
use crate::todo_dtos::{TodoError, TodoErrorView};

verus! {

/// The application's error as the transport shows it.
#[derive(Debug, PartialEq)]
pub enum AppError {
    /// Something went wrong in the todo service.
    TodoError(TodoError),
}

impl View for AppError {
    type V = TodoErrorView;

    open spec fn view(&self) -> TodoErrorView {
        match self {
            AppError::TodoError(inner) => inner@,
        }
    }
}

/// The HTTP status that answers `error`.
pub open spec fn status_of(error: TodoErrorView) -> int {
    match error {
        TodoErrorView::Conflict(_) => 409,
        TodoErrorView::NotFound(_) => 404,
        TodoErrorView::InvalidInput => 400,
        TodoErrorView::InternalError => 500,
        TodoErrorView::Unauthorized(_) => 401,
    }
}

/// The message that answers `error`.
pub open spec fn message_of(error: TodoErrorView) -> Seq<char> {
    match error {
        TodoErrorView::Conflict(reason) => "Todo already existsL "@ + reason,
        TodoErrorView::NotFound(reason) => "Todo not found: "@ + reason,
        TodoErrorView::InvalidInput => "Invalid input"@,
        TodoErrorView::InternalError => "Internal error"@,
        TodoErrorView::Unauthorized(reason) => "Unauthorized: "@ + reason,
    }
}

impl AppError {
    /// The application error for a failure of the todo service.
    pub fn from(inner: TodoError) -> (error: Self)
        ensures
            error@ == inner@,
    {
        AppError::TodoError(inner)
    }

    /// The HTTP status and the message of the response that answers this
    /// error. The transport sends the message as the field `error` of a JSON
    /// object.
    pub fn into_response(self) -> (response: (u16, String))
        ensures
            response.0 == status_of(self@),
            response.1@ == message_of(self@),
    {
        match self {
            AppError::TodoError(TodoError::Conflict(err)) => (
                409,
                "Todo already existsL ".to_owned().concat(err.as_str()),
            ),
            AppError::TodoError(TodoError::NotFound(err)) => (
                404,
                "Todo not found: ".to_owned().concat(err.as_str()),
            ),
            AppError::TodoError(TodoError::InvalidInput) => (400, "Invalid input".to_owned()),
            AppError::TodoError(TodoError::InternalError) => (500, "Internal error".to_owned()),
            AppError::TodoError(TodoError::Unauthorized(err)) => (
                401,
                "Unauthorized: ".to_owned().concat(err.as_str()),
            ),
        }
    }
}

} // verus!
