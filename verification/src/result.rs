//! Errors and result types shared by query construction and dispatch.

use vstd::prelude::*;

verus! {

/// Everything that can go wrong between building a statement and
/// receiving its rows.
#[derive(Debug, PartialEq, Eq)]
pub enum Error {
    /// A single row was expected and the statement yielded none.
    NotFound,
    /// A fragment could not be rendered for the target backend.
    RenderError(String),
    /// The connection to the backend failed.
    ConnectionError(String),
    /// The backend rejected or failed the statement.
    BackendError(String),
    /// A returned row could not be converted into the requested type.
    DecodeError(String),
}

impl Clone for Error {
    fn clone(&self) -> (copy: Self)
        ensures
            copy == *self,
    {
        match self {
            Error::NotFound => Error::NotFound,
            Error::RenderError(message) => Error::RenderError(message.clone()),
            Error::ConnectionError(message) => Error::ConnectionError(message.clone()),
            Error::BackendError(message) => Error::BackendError(message.clone()),
            Error::DecodeError(message) => Error::DecodeError(message.clone()),
        }
    }
}

/// The result of any operation that renders or dispatches a statement.
pub type QueryResult<T> = Result<T, Error>;

/// What `first_or_not_found` returns: the first record, the failure that
/// was handed in, or `NotFound` when no record came back.
pub open spec fn first_or_not_found_spec<T>(records: QueryResult<Vec<T>>) -> QueryResult<T> {
    match records {
        Ok(rows) => if rows@.len() == 0 {
            Err(Error::NotFound)
        } else {
            Ok(rows@[0])
        },
        Err(e) => Err(e),
    }
}

/// Keeps the first of the loaded records and drops the rest. An empty
/// load becomes `NotFound`; a failed load is passed through untouched.
pub fn first_or_not_found<T>(records: QueryResult<Vec<T>>) -> (r: QueryResult<T>)
    ensures
        r == first_or_not_found_spec(records),
{
    match records {
        Ok(mut rows) => {
            rows.truncate(1);
            match rows.pop() {
                Some(first) => Ok(first),
                None => Err(Error::NotFound),
            }
        },
        Err(e) => Err(e),
    }
}

/// What `optional` returns: `NotFound` becomes the absence of a value,
/// everything else stays what it was.
pub open spec fn optional_spec<T>(result: QueryResult<T>) -> QueryResult<Option<T>> {
    match result {
        Ok(value) => Ok(Some(value)),
        Err(Error::NotFound) => Ok(None),
        Err(e) => Err(e),
    }
}

/// For a caller to whom no row is no failure: turns `NotFound` into
/// `Ok(None)` and leaves every other outcome as it is.
pub fn optional<T>(result: QueryResult<T>) -> (r: QueryResult<Option<T>>)
    ensures
        r == optional_spec(result),
{
    match result {
        Ok(value) => Ok(Some(value)),
        Err(Error::NotFound) => Ok(None),
        Err(e) => Err(e),
    }
}

} // verus!
