use vstd::prelude::*;
use crate::callback::{dispatch, CallbackAction, EventRecord};
use crate::error::{EvntraceNativeError, EvntraceNativeResult};
use crate::handles::{filter_invalid_trace_handles, TraceHandle};
use crate::registry::{
    apply_ops, lemma_stays_registered, lemma_stays_unregistered, ContextError, RegistryOp,
    UniqueValidContexts,
};
use crate::status::{
    close_pending, error_ctx_close_pending, hresult_from_win32, success, win32_is_ok,
    win32_to_hresult,
};

verus! {

/// What to ask of the primitive that processes a trace.
#[derive(Clone, Copy, Debug, PartialEq, Eq, Structural)]
pub struct ProcessTraceCall {
    pub handle: TraceHandle,
    /// The time from which events are wanted, in the 100-nanosecond units
    /// since January 1601 that the tracing facility counts in.
    pub start_time: u64,
    /// The time up to which events are wanted, or `None` for no limit.
    pub end_time: Option<u64>,
}

/// What subscribing a context answers, given what is registered.
pub open spec fn open_trace_spec(registered: Set<u64>, context: u64) -> EvntraceNativeResult<
    u64,
> {
    if registered.contains(context) {
        Err(EvntraceNativeError::AlreadyExist)
    } else {
        Ok(context)
    }
}

/// What the answer of the opening primitive means.
pub open spec fn open_trace_outcome_spec(
    trace_handle: TraceHandle,
    last_os_error: i32,
) -> EvntraceNativeResult<TraceHandle> {
    if trace_handle.is_sentinel() {
        Err(EvntraceNativeError::IoError(last_os_error))
    } else {
        Ok(trace_handle)
    }
}

/// What is registered once closing a trace has begun: a refused handle
/// leaves the registry as it is.
pub open spec fn registered_after_close(
    registered: Set<u64>,
    trace_handle: TraceHandle,
    context: u64,
) -> Set<u64> {
    if trace_handle.is_sentinel() {
        registered
    } else {
        registered.remove(context)
    }
}

/// What the status of the closing primitive means: `Ok(false)` if no
/// callback will be invoked any more, `Ok(true)` if buffered events may
/// still invoke it. Exactly one status says the second; every other failing
/// status is an I/O failure with its error code.
pub open spec fn close_trace_outcome_spec(status: u32) -> EvntraceNativeResult<bool> {
    if status == success() {
        Ok(false)
    } else if status == close_pending() {
        Ok(true)
    } else {
        Err(EvntraceNativeError::IoError(hresult_from_win32(status)))
    }
}

/// Begins a subscription: registers the context of the handler state, so
/// that the callback may use it, and answers with the context to bind the
/// opened trace to.
///
/// A context that is already registered is refused, and nothing is to be
/// opened then: one handler state serves one subscription.
pub fn open_trace(registry: &mut UniqueValidContexts, context: u64) -> (r: EvntraceNativeResult<
    u64,
>)
    ensures
        r == open_trace_spec(old(registry)@, context),
        final(registry)@ == old(registry)@.insert(context),
{
    if let Err(ContextError::AlreadyExist) = registry.insert(context) {
        return Err(EvntraceNativeError::AlreadyExist);
    }
    Ok(context)
}

/// Ends a subscription attempt: turns the handle that the opening primitive
/// returned into a result. `last_os_error` is the error code that the
/// operating system holds for the calling thread after that call.
///
/// The registry is not involved: a context stays registered even if opening
/// failed.
pub fn open_trace_outcome(trace_handle: TraceHandle, last_os_error: i32) -> (r:
    EvntraceNativeResult<TraceHandle>)
    ensures
        r == open_trace_outcome_spec(trace_handle, last_os_error),
{
    if filter_invalid_trace_handles(trace_handle).is_none() {
        Err(EvntraceNativeError::IoError(last_os_error))
    } else {
        Ok(trace_handle)
    }
}

/// Decides what to ask for in order to process a trace. Processing blocks
/// its caller until the trace ends. It starts at the earliest time there is,
/// so that events already buffered are included, and has no end time.
pub fn process_trace(trace_handle: TraceHandle) -> (r: EvntraceNativeResult<ProcessTraceCall>)
    ensures
        r == (if trace_handle.is_sentinel() {
            Err(EvntraceNativeError::InvalidHandle)
        } else {
            Ok((ProcessTraceCall { handle: trace_handle, start_time: 0, end_time: None }))
        }),
{
    if filter_invalid_trace_handles(trace_handle).is_none() {
        Err(EvntraceNativeError::InvalidHandle)
    } else {
        Ok(ProcessTraceCall { handle: trace_handle, start_time: 0, end_time: None })
    }
}

/// Begins closing a trace: removes the context of its handler state from the
/// registry and answers with the handle to close.
///
/// The context is removed before anything is closed, so that no callback can
/// start using the handler state once closing is under way. A sentinel
/// handle is refused and leaves the registry as it is.
pub fn close_trace(
    registry: &mut UniqueValidContexts,
    trace_handle: TraceHandle,
    context: u64,
) -> (r: EvntraceNativeResult<TraceHandle>)
    ensures
        r == (if trace_handle.is_sentinel() {
            Err(EvntraceNativeError::InvalidHandle)
        } else {
            Ok(trace_handle)
        }),
        final(registry)@ == registered_after_close(old(registry)@, trace_handle, context),
{
    match filter_invalid_trace_handles(trace_handle) {
        None => Err(EvntraceNativeError::InvalidHandle),
        Some(handle) => {
            registry.remove(context);
            Ok(handle)
        },
    }
}

/// Ends closing a trace: turns the status of the closing primitive into a
/// result. That buffered events may still arrive is an answer, not a
/// failure.
pub fn close_trace_outcome(status: u32) -> (r: EvntraceNativeResult<bool>)
    ensures
        r == close_trace_outcome_spec(status),
{
    if win32_is_ok(status) {
        Ok(false)
    } else if status == error_ctx_close_pending() {
        Ok(true)
    } else {
        Err(EvntraceNativeError::IoError(win32_to_hresult(status)))
    }
}

/// Subscribing a handler state a second time is refused, whether the first
/// attempt registered its context or found it registered, and whatever was
/// done with the registry in between, unless the context was removed in
/// between.
pub proof fn lemma_second_subscription_is_refused(
    registered: Set<u64>,
    context: u64,
    between: Seq<RegistryOp>,
)
    requires
        forall|i: int| 0 <= i < between.len() ==> between[i] != RegistryOp::Remove(context),
    ensures
        open_trace_spec(apply_ops(registered.insert(context), between), context) == Err::<
            u64,
            _,
        >(EvntraceNativeError::AlreadyExist),
{
    lemma_stays_registered(registered.insert(context), context, between);
}

/// Once closing a trace with a live handle has begun, the context of its
/// handler state is no longer registered, whatever the closing primitive
/// answers afterwards. From then on every record that names the context is
/// discarded, and the handler state gets no delivery, for as long as the
/// context is not subscribed again.
pub proof fn lemma_closed_context_is_discarded(
    registered: Set<u64>,
    trace_handle: TraceHandle,
    context: u64,
    later: Seq<RegistryOp>,
    record: EventRecord,
)
    requires
        !trace_handle.is_sentinel(),
        forall|i: int| 0 <= i < later.len() ==> later[i] != RegistryOp::Insert(context),
        record.user_context == context,
    ensures
        !registered_after_close(registered, trace_handle, context).contains(context),
        dispatch(
            apply_ops(registered_after_close(registered, trace_handle, context), later),
            Some(record),
        ) == CallbackAction::Discard,
        dispatch(
            apply_ops(registered_after_close(registered, trace_handle, context), later),
            Some(record),
        ).deliveries_to(context) == 0,
{
    lemma_stays_unregistered(registered.remove(context), context, later);
}

} // verus!
