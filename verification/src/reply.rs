//! What a handler answers when it does not answer with data.

use vstd::prelude::*;
use vstd::string::*;

verus! {

/// The HTTP status classes the gateway answers with.
#[derive(Clone, Copy, Debug, PartialEq, Eq, Structural)]
pub enum Status {
    NoContent,
    BadRequest,
    Unauthorized,
    NotFound,
    InternalServerError,
}

impl Status {
    /// The numeric status code.
    pub open spec fn spec_code(self) -> u16 {
        match self {
            Status::NoContent => 204,
            Status::BadRequest => 400,
            Status::Unauthorized => 401,
            Status::NotFound => 404,
            Status::InternalServerError => 500,
        }
    }

    /// The numeric status code.
    #[verifier::when_used_as_spec(spec_code)]
    pub fn code(self) -> (code: u16)
        ensures
            code == self.spec_code(),
    {
        match self {
            Status::NoContent => 204,
            Status::BadRequest => 400,
            Status::Unauthorized => 401,
            Status::NotFound => 404,
            Status::InternalServerError => 500,
        }
    }
}

/// A failure answer: the status, and the message that goes out as the body
/// `{"error": <message>}`.
#[derive(Clone, Debug, PartialEq, Eq)]
pub struct ErrorReply {
    pub status: Status,
    pub error: String,
}

impl ErrorReply {
    /// This reply carries the given status and message.
    pub open spec fn says(self, status: Status, message: Seq<char>) -> bool {
        self.status == status && self.error@ == message
    }

    /// The fixed answer to a missing or wrong caller secret.
    pub fn unauthorized() -> (reply: ErrorReply)
        ensures
            reply.says(Status::Unauthorized, "Unauthorized"@),
    {
        ErrorReply { status: Status::Unauthorized, error: String::from_str("Unauthorized") }
    }

    /// A parameter-validation failure with its message.
    pub fn bad_request(message: String) -> (reply: ErrorReply)
        ensures
            reply.says(Status::BadRequest, message@),
    {
        ErrorReply { status: Status::BadRequest, error: message }
    }

    /// The upstream affirmed that there is no such entity.
    pub fn not_found(message: String) -> (reply: ErrorReply)
        ensures
            reply.says(Status::NotFound, message@),
    {
        ErrorReply { status: Status::NotFound, error: message }
    }

    /// An upstream transport or parse failure.
    pub fn internal(message: String) -> (reply: ErrorReply)
        ensures
            reply.says(Status::InternalServerError, message@),
    {
        ErrorReply { status: Status::InternalServerError, error: message }
    }
}

/// A result is the failure with the given status and message.
pub open spec fn fails_with<T>(
    result: Result<T, ErrorReply>,
    status: Status,
    message: Seq<char>,
) -> bool {
    result matches Err(reply) && reply.says(status, message)
}

} // verus!
