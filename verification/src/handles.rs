use vstd::prelude::*;

verus! {

/// Identity of an opened trace, as returned when a session or a log file is
/// opened for consumption.
#[derive(Clone, Copy, Debug, PartialEq, Eq, Structural)]
pub struct TraceHandle {
    pub value: u64,
}

/// Identity of a running session, used to issue control commands.
#[derive(Clone, Copy, Debug, PartialEq, Eq, Structural)]
pub struct ControlHandle {
    pub value: u64,
}

impl TraceHandle {
    /// The two bit patterns by which the tracing facility reports that
    /// opening failed: all ones in 64 bits, and all ones in 32 bits. The
    /// second is rejected on every platform, although a 64-bit system could
    /// in principle hand it out as a live handle.
    pub open spec fn is_sentinel(self) -> bool {
        self.value == 0xFFFF_FFFF_FFFF_FFFF || self.value == 0xFFFF_FFFF
    }
}

impl ControlHandle {
    /// Zero never names a session; it means "address the session by name".
    pub open spec fn is_sentinel(self) -> bool {
        self.value == 0
    }
}

/// Keeps a trace handle unless it is one of the sentinel values.
pub fn filter_invalid_trace_handles(h: TraceHandle) -> (kept: Option<TraceHandle>)
    ensures
        kept == (if h.is_sentinel() { None } else { Some(h) }),
{
    if h.value == u64::MAX || h.value == 0xFFFF_FFFF {
        None
    } else {
        Some(h)
    }
}

/// Keeps a control handle unless it is zero.
pub fn filter_invalid_control_handle(h: ControlHandle) -> (kept: Option<ControlHandle>)
    ensures
        kept == (if h.is_sentinel() { None } else { Some(h) }),
{
    if h.value == 0 {
        None
    } else {
        Some(h)
    }
}

} // verus!
