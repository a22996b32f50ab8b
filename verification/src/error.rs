use vstd::prelude::*;

verus! {

/// Failures reported by the session operations.
#[derive(Clone, Copy, Debug, PartialEq, Eq, Structural)]
pub enum EvntraceNativeError {
    /// A handle was one of the values that never denote a live object.
    InvalidHandle,
    /// The session name is already running, or the callback context is
    /// already subscribed.
    AlreadyExist,
    /// Any other failure, with the error code the tracing facility gave.
    IoError(i32),
}

/// Result of a session operation.
pub type EvntraceNativeResult<T> = Result<T, EvntraceNativeError>;

} // verus!
