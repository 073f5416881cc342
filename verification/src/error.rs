//! How a service call fails.

use vstd::prelude::*;

verus! {

/// The kind of a failure, as the service's callers are told it.
#[derive(Clone, Copy, Debug, PartialEq, Eq, Structural)]
pub enum ErrorCode {
    /// The request holds a value that the rules do not accept.
    InvalidArgument,
    /// What was asked for is not there.
    NotFound,
    /// The gateway's own state could not be read or written.
    Internal,
    /// The registry declined the transaction.
    Unknown,
}

/// A failed service call: its kind and a message for the caller.
#[derive(Debug)]
pub struct ServiceError {
    pub code: ErrorCode,
    pub message: String,
}

impl ServiceError {
    /// Whether `self` is a failure of kind `code` with the message `message`.
    pub open spec fn is(&self, code: ErrorCode, message: Seq<char>) -> bool {
        self.code == code && self.message@ == message
    }

    /// A request that holds a value the rules do not accept.
    pub fn invalid_argument(message: &str) -> (r: Self)
        ensures
            r.is(ErrorCode::InvalidArgument, message@),
    {
        ServiceError { code: ErrorCode::InvalidArgument, message: message.to_owned() }
    }

    /// Something asked for that is not there.
    pub fn not_found(message: &str) -> (r: Self)
        ensures
            r.is(ErrorCode::NotFound, message@),
    {
        ServiceError { code: ErrorCode::NotFound, message: message.to_owned() }
    }

    /// A failure to read or write the gateway's own state.
    pub fn internal(message: String) -> (r: Self)
        ensures
            r.code == ErrorCode::Internal,
            r.message == message,
    {
        ServiceError { code: ErrorCode::Internal, message }
    }

    /// A transaction that the registry declined.
    pub fn unknown(message: String) -> (r: Self)
        ensures
            r.code == ErrorCode::Unknown,
            r.message == message,
    {
        ServiceError { code: ErrorCode::Unknown, message }
    }
}

} // verus!
