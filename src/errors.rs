//! The error type of the library.
use reqwest::Error as HttpFailure;
use serde_json::Error as JsonFailure;
use vstd::prelude::*;

verus! {

/// A failure of the standard library's I/O layer, carried as it came.
#[verifier::external_type_specification]
#[verifier::external_body]
pub struct ExIoError(std::io::Error);

/// A transport failure of the HTTP client, carried as it came.
#[verifier::external_type_specification]
#[verifier::external_body]
pub struct ExHttpError(HttpFailure);

/// A failure to encode or decode JSON, carried as it came.
#[verifier::external_type_specification]
#[verifier::external_body]
pub struct ExJsonError(JsonFailure);

/// Every way a call into the service can fail.
#[derive(Debug)]
pub enum Error {
    /// The service answered with a status other than success.
    Api { code: u16, reason: String },
    /// The service does not know the task with this identifier.
    TaskNotFound(String),
    /// The task with this identifier did not finish in the time allowed.
    Timeout(String),
    /// Reading or writing bytes failed.
    Io(std::io::Error),
    /// The HTTP exchange failed.
    Http(HttpFailure),
    /// A body was not the JSON that was expected.
    Json(JsonFailure),
}

/// The result of a call into the service.
pub type Result<T> = std::result::Result<T, Error>;

} // verus!
