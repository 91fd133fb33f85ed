//! The error that every endpoint answers with: an HTTP status, a message that
//! goes out as the `error` field of the JSON envelope, and an optional machine code.

use vstd::prelude::*;

verus! {

/// HTTP status of a request the server refuses as malformed.
pub const BAD_REQUEST: u16 = 400;
/// HTTP status of a request without valid credentials.
pub const UNAUTHORIZED: u16 = 401;
/// HTTP status of a request for something that does not exist.
pub const NOT_FOUND: u16 = 404;
/// HTTP status of a request that conflicts with the current state.
pub const CONFLICT: u16 = 409;
/// HTTP status of a request whose body is too large.
pub const PAYLOAD_TOO_LARGE: u16 = 413;
/// HTTP status of a failure inside the server.
pub const INTERNAL_SERVER_ERROR: u16 = 500;
/// HTTP status of a failure of a tool or service behind the server.
pub const BAD_GATEWAY: u16 = 502;
/// HTTP status of a feature whose tool is not installed.
pub const SERVICE_UNAVAILABLE: u16 = 503;

/// An error answer: status, message and optional code.
#[derive(Debug)]
pub struct ApiError {
    pub status: u16,
    pub message: String,
    pub code: Option<String>,
}

impl ApiError {
    /// This error has the given status and message and carries no code.
    pub open spec fn is(self, status: u16, message: Seq<char>) -> bool {
        &&& self.status == status
        &&& self.message@ == message
        &&& self.code is None
    }

    /// This error has the given status, message and code.
    pub open spec fn is_coded(self, status: u16, message: Seq<char>, code: Seq<char>) -> bool {
        &&& self.status == status
        &&& self.message@ == message
        &&& self.code matches Some(c) && c@ == code
    }

    /// An error with the given status and message.
    pub fn new(status: u16, message: String) -> (e: ApiError)
        ensures
            e.is(status, message@),
    {
        ApiError { status, message, code: None }
    }

    /// A 400 answer.
    pub fn bad_request(message: String) -> (e: ApiError)
        ensures
            e.is(BAD_REQUEST, message@),
    {
        Self::new(BAD_REQUEST, message)
    }

    /// A 404 answer.
    pub fn not_found(message: String) -> (e: ApiError)
        ensures
            e.is(NOT_FOUND, message@),
    {
        Self::new(NOT_FOUND, message)
    }

    /// A 409 answer.
    pub fn conflict(message: String) -> (e: ApiError)
        ensures
            e.is(CONFLICT, message@),
    {
        Self::new(CONFLICT, message)
    }

    /// A 413 answer.
    pub fn payload_too_large(message: String) -> (e: ApiError)
        ensures
            e.is(PAYLOAD_TOO_LARGE, message@),
    {
        Self::new(PAYLOAD_TOO_LARGE, message)
    }

    /// A 500 answer.
    pub fn internal(message: String) -> (e: ApiError)
        ensures
            e.is(INTERNAL_SERVER_ERROR, message@),
    {
        Self::new(INTERNAL_SERVER_ERROR, message)
    }

    /// A 502 answer.
    pub fn bad_gateway(message: String) -> (e: ApiError)
        ensures
            e.is(BAD_GATEWAY, message@),
    {
        Self::new(BAD_GATEWAY, message)
    }

    /// A 503 answer.
    pub fn service_unavailable(message: String) -> (e: ApiError)
        ensures
            e.is(SERVICE_UNAVAILABLE, message@),
    {
        Self::new(SERVICE_UNAVAILABLE, message)
    }

    /// The same error, tagged with a machine-readable code.
    pub fn with_code(self, code: String) -> (e: ApiError)
        ensures
            e.status == self.status,
            e.message == self.message,
            e.code == Some(code),
    {
        ApiError { status: self.status, message: self.message, code: Some(code) }
    }
}

} // verus!
