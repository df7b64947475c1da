//! The error responses the service can answer with.

use vstd::prelude::*;

verus! {

/// HTTP status of a successful request.
pub const OK: u16 = 200;

/// HTTP status of a request with a malformed update payload.
pub const BAD_REQUEST: u16 = 400;

/// HTTP status of a request with a wrong admin code.
pub const UNAUTHORIZED: u16 = 401;

/// HTTP status of a request that failed inside the store.
pub const INTERNAL_SERVER_ERROR: u16 = 500;

/// The numeric status code attached to a response, held as the plain `u16`
/// value that goes on the wire.
#[derive(Debug, Clone, Copy, PartialEq, Eq, Structural)]
pub struct StatusCodeWrapper(pub u16);

/// An error response: a status code and a short human-readable message.
#[derive(Debug, Clone, PartialEq)]
pub struct IError {
    pub status_code: StatusCodeWrapper,
    pub error_message: String,
}

/// The response to a request whose admin code was wrong.
pub fn access_denied() -> (e: IError)
    ensures
        e.status_code.0 == UNAUTHORIZED,
        e.error_message@ == "You shall not pass!"@,
{
    IError {
        status_code: StatusCodeWrapper(UNAUTHORIZED),
        error_message: "You shall not pass!".to_owned(),
    }
}

/// The response to an update request whose payload was rejected.
pub fn validation_error(message: &str) -> (e: IError)
    ensures
        e.status_code.0 == BAD_REQUEST,
        e.error_message@ == message@,
{
    IError { status_code: StatusCodeWrapper(BAD_REQUEST), error_message: message.to_owned() }
}

/// The response to a request during which a store operation failed;
/// `message` is the underlying failure's text.
pub fn internal_error(message: String) -> (e: IError)
    ensures
        e.status_code.0 == INTERNAL_SERVER_ERROR,
        e.error_message == message,
{
    IError { status_code: StatusCodeWrapper(INTERNAL_SERVER_ERROR), error_message: message }
}

} // verus!
