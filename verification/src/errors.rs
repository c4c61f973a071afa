//! The service's error, the HTTP status it answers with, its message, and
//! how a failed database query becomes one.

use vstd::prelude::*;
use crate::text::concat_str;

verus! {

/// An error of the service.
#[derive(Debug, PartialEq, Eq)]
pub enum CustomError {
    NotFound(String),
    InternalError(String),
}

/// The status for a missing endpoint.
pub const STATUS_NOT_FOUND: u16 = 404;

/// The status for an internal failure.
pub const STATUS_INTERNAL_SERVER_ERROR: u16 = 500;

/// The message of an error, as its `Display` writes it.
pub open spec fn error_message(e: CustomError) -> Seq<char> {
    match e {
        CustomError::NotFound(s) => "Endpoint is not found: "@ + s@,
        CustomError::InternalError(s) => "Internal server error: "@ + s@,
    }
}

/// The message of a failed query, naming the query.
pub open spec fn query_failure_message(query: Seq<char>) -> Seq<char> {
    "Что-то пошло не так во время запроса "@ + query
}

impl CustomError {
    /// The HTTP status code that answers this error.
    pub fn status_code(&self) -> (code: u16)
        ensures
            code == (match self {
                CustomError::NotFound(_) => STATUS_NOT_FOUND,
                CustomError::InternalError(_) => STATUS_INTERNAL_SERVER_ERROR,
            }),
    {
        match self {
            CustomError::NotFound(_) => STATUS_NOT_FOUND,
            CustomError::InternalError(_) => STATUS_INTERNAL_SERVER_ERROR,
        }
    }

    /// The message of this error.
    pub fn message(&self) -> (m: String)
        ensures
            m@ == error_message(*self),
    {
        match self {
            CustomError::NotFound(s) => concat_str("Endpoint is not found: ", s.as_str()),
            CustomError::InternalError(s) => concat_str("Internal server error: ", s.as_str()),
        }
    }
}

/// The error that reports a failed query, named `query`.
pub fn query_failure(query: &str) -> (e: CustomError)
    ensures
        e matches CustomError::InternalError(m) && m@ == query_failure_message(query@),
{
    CustomError::InternalError(concat_str("Что-то пошло не так во время запроса ", query))
}

/// The outcome of the query named `query`: its rows, or the error that
/// reports its failure (whatever the database said).
pub fn query_result<T, E>(res: Result<T, E>, query: &str) -> (r: Result<T, CustomError>)
    ensures
        res is Ok <==> r is Ok,
        res matches Ok(x) ==> r == Ok::<T, CustomError>(x),
        r matches Err(e) ==> e matches CustomError::InternalError(m) && m@ == query_failure_message(
            query@,
        ),
{
    match res {
        Ok(x) => Ok(x),
        Err(_) => Err(query_failure(query)),
    }
}

} // verus!
