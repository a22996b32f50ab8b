use vstd::prelude::*;
use windows::Win32::System::Diagnostics::Etw::EVENT_TRACE_CONTROL_QUERY;
use crate::error::{EvntraceNativeError, EvntraceNativeResult};
use crate::handles::{filter_invalid_control_handle, ControlHandle};
use crate::status::{
    already_exists, error_already_exists, hresult_from_win32, success, win32_is_ok,
    win32_to_hresult,
};

verus! {

/// What to ask of the control primitive.
#[derive(Clone, Copy, Debug, PartialEq, Eq, Structural)]
pub struct ControlTraceCall {
    /// The session to control, or zero if it is addressed by its name.
    pub handle: ControlHandle,
    /// Whether the session name is given. Without it the name argument is
    /// null.
    pub by_name: bool,
    /// What the session is asked to do. The tracing facility defines the
    /// codes; they are passed on as they are.
    pub control_code: u32,
}

/// What to ask for in order to attach to a session that is already running.
#[derive(Clone, Copy, Debug, PartialEq, Eq, Structural)]
pub struct OpenExistingTraceCall {
    /// Whether the properties handed over name a log file. They never do:
    /// the session is only asked what it is.
    pub with_log_file: bool,
    /// The enable flags of the properties handed over: none.
    pub enable_flags: u32,
    /// The query itself.
    pub control: ControlTraceCall,
}

/// What to ask of the primitive that reads system-wide tracing information.
#[derive(Clone, Copy, Debug, PartialEq, Eq, Structural)]
pub struct QueryInfoCall {
    /// Zero: the information does not belong to a session.
    pub handle: ControlHandle,
    /// Which information is wanted. The tracing facility defines the
    /// classes; they are passed on as they are.
    pub information_class: i32,
    /// How many bytes of the buffer the primitive may fill.
    pub information_length: u32,
}

/// The control code that asks a session for its properties.
pub open spec fn query_code() -> u32 {
    0
}

/// What the answer of the starting primitive means. The handle counts only
/// if the status is a success; of the failing statuses exactly one says that
/// the name is taken, and every other is an I/O failure with its error code.
pub open spec fn start_trace_outcome_spec(
    status: u32,
    control_handle: ControlHandle,
) -> EvntraceNativeResult<ControlHandle> {
    if status == success() {
        if control_handle.is_sentinel() {
            Err(EvntraceNativeError::InvalidHandle)
        } else {
            Ok(control_handle)
        }
    } else if status == already_exists() {
        Err(EvntraceNativeError::AlreadyExist)
    } else {
        Err(EvntraceNativeError::IoError(hresult_from_win32(status)))
    }
}

/// What the answer to the query for an existing session means.
pub open spec fn open_existing_trace_outcome_spec(
    status: u32,
    historical_context: u64,
) -> EvntraceNativeResult<ControlHandle> {
    if status != success() {
        Err(EvntraceNativeError::IoError(hresult_from_win32(status)))
    } else {
        Ok((ControlHandle { value: historical_context }))
    }
}

/// `windows::Win32::System::Diagnostics::Etw::EVENT_TRACE_CONTROL_QUERY`:
/// claims that its value is 0.
#[verifier::external_body]
pub(crate) fn event_trace_control_query() -> (code: u32)
    ensures
        code == query_code(),
{
    EVENT_TRACE_CONTROL_QUERY.0
}

/// Turns the answer of the starting primitive into a result: the status it
/// returned and the control handle it wrote.
///
/// A name that is already running is told apart from every other failure,
/// by its status alone, so that the caller may attach to that session
/// instead. A zero control handle is refused even if the status is a
/// success.
pub fn start_trace_outcome(status: u32, control_handle: ControlHandle) -> (r: EvntraceNativeResult<
    ControlHandle,
>)
    ensures
        r == start_trace_outcome_spec(status, control_handle),
{
    if !win32_is_ok(status) {
        if status == error_already_exists() {
            return Err(EvntraceNativeError::AlreadyExist);
        }
        return Err(EvntraceNativeError::IoError(win32_to_hresult(status)));
    }
    match filter_invalid_control_handle(control_handle) {
        None => Err(EvntraceNativeError::InvalidHandle),
        Some(handle) => Ok(handle),
    }
}

/// Decides what to ask for in order to attach to a session that is already
/// running: the session is addressed by its name and asked for its
/// properties, which are handed over without a log file and without enable
/// flags.
pub fn open_existing_trace() -> (call: OpenExistingTraceCall)
    ensures
        call == (OpenExistingTraceCall {
            with_log_file: false,
            enable_flags: 0,
            control: ControlTraceCall {
                handle: ControlHandle { value: 0 },
                by_name: true,
                control_code: query_code(),
            },
        }),
{
    OpenExistingTraceCall {
        with_log_file: false,
        enable_flags: 0,
        control: ControlTraceCall {
            handle: ControlHandle { value: 0 },
            by_name: true,
            control_code: event_trace_control_query(),
        },
    }
}

/// Turns the answer to the query for an existing session into a result.
///
/// A query by name does not return the control handle. The tracing facility
/// writes it into the header of the properties it fills; `historical_context`
/// is that field as it stands after the call.
pub fn open_existing_trace_outcome(status: u32, historical_context: u64) -> (r:
    EvntraceNativeResult<ControlHandle>)
    ensures
        r == open_existing_trace_outcome_spec(status, historical_context),
{
    if !win32_is_ok(status) {
        return Err(EvntraceNativeError::IoError(win32_to_hresult(status)));
    }
    Ok(ControlHandle { value: historical_context })
}

/// Decides what to ask for in order to control a session by its handle. A
/// zero control handle is refused.
pub fn control_trace(control_handle: ControlHandle, control_code: u32) -> (r: EvntraceNativeResult<
    ControlTraceCall,
>)
    ensures
        r == (if control_handle.is_sentinel() {
            Err(EvntraceNativeError::InvalidHandle)
        } else {
            Ok((ControlTraceCall { handle: control_handle, by_name: false, control_code }))
        }),
{
    match filter_invalid_control_handle(control_handle) {
        None => Err(EvntraceNativeError::InvalidHandle),
        Some(handle) => Ok(ControlTraceCall { handle, by_name: false, control_code }),
    }
}

/// Decides what to ask for in order to control a session by its name.
pub fn control_trace_by_name(control_code: u32) -> (call: ControlTraceCall)
    ensures
        call == (ControlTraceCall {
            handle: ControlHandle { value: 0 },
            by_name: true,
            control_code,
        }),
{
    ControlTraceCall { handle: ControlHandle { value: 0 }, by_name: true, control_code }
}

/// The length of a buffer as it is announced to the tracing facility, in 32
/// bits: of a buffer of 2^32 bytes or more only the length modulo 2^32 is
/// announced, which is never more than the buffer holds.
pub fn information_length(buffer_len: usize) -> (announced: u32)
    ensures
        announced == (buffer_len as int) % 0x1_0000_0000,
{
    let len: u64 = buffer_len as u64;
    (len % 0x1_0000_0000) as u32
}

/// Decides what to ask for in order to read system-wide tracing information
/// into `buf`.
pub fn query_info(class: i32, buf: &[u8]) -> (call: QueryInfoCall)
    ensures
        call == (QueryInfoCall {
            handle: ControlHandle { value: 0 },
            information_class: class,
            information_length: (buf@.len() % 0x1_0000_0000) as u32,
        }),
{
    QueryInfoCall {
        handle: ControlHandle { value: 0 },
        information_class: class,
        information_length: information_length(buf.len()),
    }
}

} // verus!
