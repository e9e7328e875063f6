//! Control messages: a client's request and the server's reply to it.

use crate::json::{json, Json};
use serde_json::Value;
use vstd::prelude::*;

verus! {

/// Why a request was refused.
#[derive(Clone, Copy, Debug, PartialEq, Eq, Structural)]
pub enum ErrorCode {
    /// The method is none of the protocol's.
    UnknownMethod,
    /// The parameters do not fit the method.
    InvalidParams,
    /// A task path is malformed, or a dependency has no task.
    BadPath,
    /// There is no task at the path.
    NoMatch,
    /// The task has no screen.
    NoScreen,
    /// Another task has the path already.
    PathTaken,
    /// The server failed on its own side.
    Internal,
}

/// A refusal: a code for programs and a message for people.
#[derive(Clone, Debug, PartialEq, Eq)]
pub struct RpcError {
    pub code: ErrorCode,
    pub message: String,
}

/// The mathematical content of an [`RpcError`].
pub struct ErrorView {
    pub code: ErrorCode,
    pub message: Seq<char>,
}

impl View for RpcError {
    type V = ErrorView;

    open spec fn view(&self) -> ErrorView {
        ErrorView { code: self.code, message: self.message@ }
    }
}

impl RpcError {
    pub fn new(code: ErrorCode, message: String) -> (error: RpcError)
        ensures
            error@ == (ErrorView { code, message: message@ }),
    {
        RpcError { code, message }
    }

    /// A failure on the server's own side.
    pub fn internal(message: String) -> (error: RpcError)
        ensures
            error@ == internal_error(message@),
    {
        RpcError { code: ErrorCode::Internal, message }
    }
}

/// The error with which the server owns up to a failure of its own.
pub open spec fn internal_error(message: Seq<char>) -> ErrorView {
    ErrorView { code: ErrorCode::Internal, message }
}

/// A client's request as it comes off the connection.
pub struct Request {
    pub id: u64,
    pub method: String,
    pub params: Value,
}

/// The server's reply to the request with the same id.
pub struct Reply {
    pub id: u64,
    pub result: Result<Value, RpcError>,
}

/// The mathematical content of a handler's outcome.
pub open spec fn outcome_view(outcome: Result<Value, RpcError>) -> Result<Json, ErrorView> {
    match outcome {
        Ok(value) => Ok(json(value)),
        Err(error) => Err(error@),
    }
}

/// The mathematical content of a [`Reply`].
pub struct ReplyView {
    pub id: u64,
    pub result: Result<Json, ErrorView>,
}

impl View for Reply {
    type V = ReplyView;

    open spec fn view(&self) -> ReplyView {
        ReplyView { id: self.id, result: outcome_view(self.result) }
    }
}

impl Reply {
    /// The reply that carries a result.
    pub fn ok(id: u64, result: Value) -> (reply: Reply)
        ensures
            reply@ == (ReplyView { id, result: Ok(json(result)) }),
    {
        Reply { id, result: Ok(result) }
    }

    /// The reply that refuses.
    pub fn err(id: u64, error: RpcError) -> (reply: Reply)
        ensures
            reply@ == (ReplyView { id, result: Err(error@) }),
    {
        Reply { id, result: Err(error) }
    }
}

} // verus!
