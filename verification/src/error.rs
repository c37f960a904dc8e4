//! Errors: how the library reports what went wrong in the error type of the application.
use vstd::prelude::*;

use crate::http::{StatusCode, BAD_REQUEST};

verus! {

/// An error type that can stand for every failure of a request.
///
/// Applications implement this for the error type that their servers return.
pub trait Error: Sized {
    /// Create an error from a status code and a human-readable message.
    fn catch_all(status: StatusCode, msg: String) -> Self;
}

/// Whether `e` is what [`catch_all`](Error::catch_all) makes of the status `status` and the
/// message `msg`.
pub open spec fn is_catch_all<E: Error>(status: StatusCode, msg: Seq<char>, e: E) -> bool {
    exists|m: String|
        m@ == msg && #[trigger] call_ensures(E::catch_all, (status, m), e)
}

/// What is known of a failure of the HTTP client: a status code and a description.
pub struct Failure {
    /// The status code that goes with the failure.
    pub status: StatusCode,
    /// A description of the failure.
    pub message: String,
}

/// Report what is wrong with a request or with the data in a response, by its description.
pub fn request_error<E: Error>(source: String) -> (e: E)
    ensures
        is_catch_all(StatusCode { code: BAD_REQUEST }, source@, e),
{
    E::catch_all(StatusCode { code: BAD_REQUEST }, source)
}

/// Report a failure of the HTTP client.
pub fn surf_error<E: Error>(source: Failure) -> (e: E)
    ensures
        is_catch_all(source.status, source.message@, e),
{
    E::catch_all(source.status, source.message)
}

} // verus!
