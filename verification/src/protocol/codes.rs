//! The error codes of the protocol.

use super::ctl::ErrorCode;
use vstd::prelude::*;

verus! {

pub const UNKNOWN_METHOD: ErrorCode = ErrorCode::UnknownMethod;

pub const INVALID_PARAMS: ErrorCode = ErrorCode::InvalidParams;

pub const BAD_PATH: ErrorCode = ErrorCode::BadPath;

pub const NO_MATCH: ErrorCode = ErrorCode::NoMatch;

pub const NO_SCREEN: ErrorCode = ErrorCode::NoScreen;

pub const PATH_TAKEN: ErrorCode = ErrorCode::PathTaken;

pub const INTERNAL: ErrorCode = ErrorCode::Internal;

} // verus!
