use vstd::prelude::*;

verus! {

/// Why a request on todos failed.
#[derive(Debug, PartialEq)]
pub enum TodoError {
    /// A todo with that id exists already.
    Conflict(String),
    /// No todo has that id.
    NotFound(String),
    /// The request carried no API key, or a wrong one.
    Unauthorized(String),
    /// The request could not be read.
    InvalidInput,
    /// The service failed.
    InternalError,
}

/// The mathematical value of a [`TodoError`].
pub enum TodoErrorView {
    Conflict(Seq<char>),
    NotFound(Seq<char>),
    Unauthorized(Seq<char>),
    InvalidInput,
    InternalError,
}

impl View for TodoError {
    type V = TodoErrorView;

    open spec fn view(&self) -> TodoErrorView {
        match self {
            TodoError::Conflict(reason) => TodoErrorView::Conflict(reason@),
            TodoError::NotFound(reason) => TodoErrorView::NotFound(reason@),
            TodoError::Unauthorized(reason) => TodoErrorView::Unauthorized(reason@),
            TodoError::InvalidInput => TodoErrorView::InvalidInput,
            TodoError::InternalError => TodoErrorView::InternalError,
        }
    }
}

} // verus!
