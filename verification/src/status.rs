//! The status codes and error statuses that the service answers with.

use vstd::prelude::*;

verus! {

/// The gRPC status codes that the service produces.
#[derive(Debug, Clone, Copy, PartialEq, Eq, Structural)]
pub enum Code {
    InvalidArgument,
    NotFound,
    Internal,
}

/// An error answer: a status code and a human-readable message.
#[derive(Debug, Clone, PartialEq, Eq)]
pub struct Status {
    pub code: Code,
    pub message: String,
}

/// The message of a status that reports a backend failure: the operation's
/// prefix followed by the backend's own error text.
pub open spec fn failure_message(prefix: Seq<char>, error: Seq<char>) -> Seq<char> {
    prefix + error
}

/// `status` has the given code and message.
pub open spec fn is_status(status: Status, code: Code, message: Seq<char>) -> bool {
    status.code == code && status.message@ == message
}

impl Status {
    /// A status with code `InvalidArgument` and the given message.
    pub fn invalid_argument(message: &str) -> (s: Status)
        ensures
            is_status(s, Code::InvalidArgument, message@),
    {
        Status { code: Code::InvalidArgument, message: String::from_str(message) }
    }

    /// A status with code `NotFound` and the given message.
    pub fn not_found(message: String) -> (s: Status)
        ensures
            is_status(s, Code::NotFound, message@),
    {
        Status { code: Code::NotFound, message }
    }

    /// A status with code `Internal` and the given message.
    pub fn internal(message: &str) -> (s: Status)
        ensures
            is_status(s, Code::Internal, message@),
    {
        Status { code: Code::Internal, message: String::from_str(message) }
    }
}

/// The `Internal` status that reports a failed backend call: `prefix` names
/// the operation (for example "Failed to store code: ") and `error` is the
/// backend's error text.
pub fn backend_failure(prefix: &str, error: &String) -> (s: Status)
    ensures
        is_status(s, Code::Internal, failure_message(prefix@, error@)),
{
    let message = String::from_str(prefix).concat(error.as_str());
    Status { code: Code::Internal, message }
}

} // verus!
