use vstd::prelude::*;
use windows::Win32::Foundation::{ERROR_ALREADY_EXISTS, ERROR_CTX_CLOSE_PENDING, WIN32_ERROR};
use crate::error::{EvntraceNativeError, EvntraceNativeResult};

verus! {

/// Status with which every tracing primitive reports success.
pub open spec fn success() -> u32 {
    0
}

/// Status with which starting a session reports that its name is taken.
pub open spec fn already_exists() -> u32 {
    183
}

/// Status with which closing a trace reports that buffered events are still
/// to be delivered.
pub open spec fn close_pending() -> u32 {
    7007
}

/// The error code under which a status is reported: zero and values with the
/// top bit set are kept as they are, any other value keeps its low 16 bits
/// and gets the failure bit and the facility number 7.
pub open spec fn hresult_from_win32(status: u32) -> i32 {
    if (status as i32) <= 0 {
        status as i32
    } else {
        ((status & 0x0000_FFFF) | (7u32 << 16) | 0x8000_0000) as i32
    }
}

/// What a status means for an operation that has nothing to return.
pub open spec fn check_status_spec(status: u32) -> EvntraceNativeResult<()> {
    if status == success() {
        Ok(())
    } else {
        Err(EvntraceNativeError::IoError(hresult_from_win32(status)))
    }
}

/// `windows::Win32::Foundation::ERROR_ALREADY_EXISTS`: claims that its value
/// is 183.
#[verifier::external_body]
pub(crate) fn error_already_exists() -> (code: u32)
    ensures
        code == already_exists(),
{
    ERROR_ALREADY_EXISTS.0
}

/// `windows::Win32::Foundation::ERROR_CTX_CLOSE_PENDING`: claims that its
/// value is 7007.
#[verifier::external_body]
pub(crate) fn error_ctx_close_pending() -> (code: u32)
    ensures
        code == close_pending(),
{
    ERROR_CTX_CLOSE_PENDING.0
}

/// `WIN32_ERROR::is_ok`: claims that a status is a success exactly when it
/// is zero.
#[verifier::external_body]
pub(crate) fn win32_is_ok(status: u32) -> (ok: bool)
    ensures
        ok == (status == success()),
{
    WIN32_ERROR(status).is_ok()
}

/// `WIN32_ERROR::to_hresult`: claims that the returned code is
/// `hresult_from_win32` of the status, which restates the crate's
/// `HRESULT::from_win32` expression by expression.
#[verifier::external_body]
pub(crate) fn win32_to_hresult(status: u32) -> (code: i32)
    ensures
        code == hresult_from_win32(status),
{
    WIN32_ERROR(status).to_hresult().0
}

/// Turns the status of a primitive that returns nothing else into a result.
pub fn check_status(status: u32) -> (r: EvntraceNativeResult<()>)
    ensures
        r == check_status_spec(status),
{
    if win32_is_ok(status) {
        Ok(())
    } else {
        Err(EvntraceNativeError::IoError(win32_to_hresult(status)))
    }
}

} // verus!
