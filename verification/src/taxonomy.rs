//! The protocol error-code taxonomy: one closed classification of the remote
//! service's numeric codes, shared verbatim by every endpoint call and only
//! parameterized by whether the selection-specific code is meaningful there.

use vstd::prelude::*;

verus! {

use crate::Error;
use crate::profile::SelectError;

/// Protocol code meaning success: the payload is owed.
pub const CODE_SUCCESS: u8 = 0;

/// Protocol code for a missing, expired, or profile-less authorization.
pub const CODE_NOT_AUTHORIZED: u8 = 201;

/// Protocol code for an invalid profile selection; meaningful only on
/// selection-aware calls.
pub const CODE_INVALID_SELECTION: u8 = 205;

/// Closed classification of a protocol error code. Unrecognized codes are
/// reported raw, never guessed at.
#[derive(Debug, Clone, Copy, PartialEq, Eq, Structural)]
pub enum ProtocolError {
    Success,
    NotAuthorized,
    InvalidUserSelection,
    UnknownCode(u8),
}

/// The shared code mapping: 0 is success, 201 is always a missing or expired
/// authorization, 205 is an invalid profile selection on the calls where
/// that code is meaningful, and every other nonzero code is unrecognized.
pub open spec fn resolve_code_spec(code: u8, selection_aware: bool) -> ProtocolError {
    if code == CODE_SUCCESS {
        ProtocolError::Success
    } else if code == CODE_NOT_AUTHORIZED {
        ProtocolError::NotAuthorized
    } else if code == CODE_INVALID_SELECTION && selection_aware {
        ProtocolError::InvalidUserSelection
    } else {
        ProtocolError::UnknownCode(code)
    }
}

/// Classifies a protocol error code by the shared mapping.
pub fn resolve_code(code: u8, selection_aware: bool) -> (r: ProtocolError)
    ensures
        r == resolve_code_spec(code, selection_aware),
{
    if code == CODE_SUCCESS {
        ProtocolError::Success
    } else if code == CODE_NOT_AUTHORIZED {
        ProtocolError::NotAuthorized
    } else if code == CODE_INVALID_SELECTION && selection_aware {
        ProtocolError::InvalidUserSelection
    } else {
        ProtocolError::UnknownCode(code)
    }
}

/// The error a nonzero protocol code surfaces as on an authenticated call.
pub open spec fn taxonomy_error(code: u8, selection_aware: bool) -> Error {
    if code == CODE_NOT_AUTHORIZED {
        Error::NotAuthorized
    } else if code == CODE_INVALID_SELECTION && selection_aware {
        Error::SelectError(SelectError::InvalidUserID)
    } else {
        Error::UnknownAPIError(code)
    }
}

/// Unknown-code law: a nonzero code with no recognized mapping classifies as
/// `UnknownCode` carrying that very code — never as a defaulted success.
pub proof fn lemma_unknown_code(code: u8, selection_aware: bool)
    requires
        code != CODE_SUCCESS,
        code != CODE_NOT_AUTHORIZED,
        !(code == CODE_INVALID_SELECTION && selection_aware),
    ensures
        resolve_code_spec(code, selection_aware) == ProtocolError::UnknownCode(code),
        taxonomy_error(code, selection_aware) == Error::UnknownAPIError(code),
{
}

/// Authorization law: code 201 classifies as `NotAuthorized` on every call,
/// whether or not the call is selection-aware.
pub proof fn lemma_not_authorized(selection_aware: bool)
    ensures
        resolve_code_spec(CODE_NOT_AUTHORIZED, selection_aware) == ProtocolError::NotAuthorized,
        taxonomy_error(CODE_NOT_AUTHORIZED, selection_aware) == Error::NotAuthorized,
{
}

} // verus!
