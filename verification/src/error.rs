//! The failures that the operations of this crate report.

use vstd::prelude::*;
use vstd::string::*;
use crate::text::{decimal, decimal_string};

verus! {

/// Why an operation did not do its work.
///
/// A list or an item that is not there is an ordinary outcome; the other
/// kinds carry a line of detail from whoever met the failure.
#[derive(Debug, PartialEq, Eq)]
pub enum TodoError {
    /// No list has this name.
    ListNotFound(String),
    /// The named list has no item with this number.
    ItemNotFound(String, usize),
    /// Something handed in does not have the shape it must have.
    InvalidInput(String),
    /// The configuration is missing or cannot be used.
    ConfigError(String),
    /// The local file could not be read or written.
    StorageError(String),
    /// The remote store could not be reached or refused the request.
    RemoteError(String),
    /// A document could not be encoded or decoded.
    SerializationError(String),
    /// Logging in or out did not work.
    AuthError(String),
}

pub type TodoResult<T> = Result<T, TodoError>;

/// An error as mathematical data.
pub enum ErrorView {
    ListNotFound(Seq<char>),
    ItemNotFound(Seq<char>, nat),
    InvalidInput(Seq<char>),
    ConfigError(Seq<char>),
    StorageError(Seq<char>),
    RemoteError(Seq<char>),
    SerializationError(Seq<char>),
    AuthError(Seq<char>),
}

impl View for TodoError {
    type V = ErrorView;

    open spec fn view(&self) -> ErrorView {
        match *self {
            TodoError::ListNotFound(name) => ErrorView::ListNotFound(name@),
            TodoError::ItemNotFound(list, number) => ErrorView::ItemNotFound(list@, number as nat),
            TodoError::InvalidInput(reason) => ErrorView::InvalidInput(reason@),
            TodoError::ConfigError(reason) => ErrorView::ConfigError(reason@),
            TodoError::StorageError(detail) => ErrorView::StorageError(detail@),
            TodoError::RemoteError(detail) => ErrorView::RemoteError(detail@),
            TodoError::SerializationError(detail) => ErrorView::SerializationError(detail@),
            TodoError::AuthError(detail) => ErrorView::AuthError(detail@),
        }
    }
}

/// The one-line message of an error.
pub open spec fn message_of(e: ErrorView) -> Seq<char> {
    match e {
        ErrorView::ListNotFound(name) => "List not found: "@ + name,
        ErrorView::ItemNotFound(list, number) => "Item not found: Item "@ + decimal(number)
            + " in list "@ + list,
        ErrorView::InvalidInput(reason) => "Invalid input: "@ + reason,
        ErrorView::ConfigError(reason) => "Configuration error: "@ + reason,
        ErrorView::StorageError(detail) => "Storage error: "@ + detail,
        ErrorView::RemoteError(detail) => "Remote error: "@ + detail,
        ErrorView::SerializationError(detail) => "Serialization error: "@ + detail,
        ErrorView::AuthError(detail) => "Authentication error: "@ + detail,
    }
}

impl Clone for TodoError {
    fn clone(&self) -> (r: TodoError)
        ensures
            r@ == self@,
    {
        match self {
            TodoError::ListNotFound(name) => TodoError::ListNotFound(name.clone()),
            TodoError::ItemNotFound(list, number) => TodoError::ItemNotFound(list.clone(), *number),
            TodoError::InvalidInput(reason) => TodoError::InvalidInput(reason.clone()),
            TodoError::ConfigError(reason) => TodoError::ConfigError(reason.clone()),
            TodoError::StorageError(detail) => TodoError::StorageError(detail.clone()),
            TodoError::RemoteError(detail) => TodoError::RemoteError(detail.clone()),
            TodoError::SerializationError(detail) => TodoError::SerializationError(detail.clone()),
            TodoError::AuthError(detail) => TodoError::AuthError(detail.clone()),
        }
    }
}

impl TodoError {
    /// The message to show for this error: what kind it is, then its detail.
    pub fn message(&self) -> (r: String)
        ensures
            r@ == message_of(self@),
    {
        match self {
            TodoError::ListNotFound(name) => String::from_str("List not found: ").concat(
                name.as_str(),
            ),
            TodoError::ItemNotFound(list, number) => {
                let digits = decimal_string(*number);
                String::from_str("Item not found: Item ").concat(digits.as_str()).concat(
                    " in list ",
                ).concat(list.as_str())
            },
            TodoError::InvalidInput(reason) => String::from_str("Invalid input: ").concat(
                reason.as_str(),
            ),
            TodoError::ConfigError(reason) => String::from_str("Configuration error: ").concat(
                reason.as_str(),
            ),
            TodoError::StorageError(detail) => String::from_str("Storage error: ").concat(
                detail.as_str(),
            ),
            TodoError::RemoteError(detail) => String::from_str("Remote error: ").concat(
                detail.as_str(),
            ),
            TodoError::SerializationError(detail) => String::from_str(
                "Serialization error: ",
            ).concat(detail.as_str()),
            TodoError::AuthError(detail) => String::from_str("Authentication error: ").concat(
                detail.as_str(),
            ),
        }
    }

    /// Whether the error says that a list or an item is not there, which a
    /// caller may answer by creating it, rather than that storage or the
    /// remote store failed.
    pub fn is_not_found(&self) -> (r: bool)
        ensures
            r == (self@ is ListNotFound || self@ is ItemNotFound),
    {
        match self {
            TodoError::ListNotFound(_) => true,
            TodoError::ItemNotFound(_, _) => true,
            _ => false,
        }
    }
}

} // verus!
