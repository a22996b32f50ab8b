use vstd::prelude::*;
use crate::registry::UniqueValidContexts;

verus! {

/// What the callback reads of an event record: the context that was supplied
/// when the trace was subscribed. The record itself belongs to the tracing
/// facility and is only valid while the callback runs.
#[derive(Clone, Copy, Debug, PartialEq, Eq, Structural)]
pub struct EventRecord {
    pub user_context: u64,
}

impl EventRecord {
    /// The context that was supplied when the trace was subscribed.
    pub fn user_context(&self) -> (context: u64)
        ensures
            context == self.user_context,
    {
        self.user_context
    }
}

/// What one invocation of the callback does with its record.
#[derive(Clone, Copy, Debug, PartialEq, Eq, Structural)]
pub enum CallbackAction {
    /// The record is dropped and no handler state is touched.
    Discard,
    /// The record is handed, once, to the handler state at `context`.
    Deliver { context: u64 },
}

/// How the callback leaves: back into the tracing facility, or not at all.
#[derive(Clone, Copy, Debug, PartialEq, Eq, Structural)]
pub enum CallbackExit {
    /// The callback returns to the tracing facility.
    Return,
    /// The process is ended with this exit code.
    Terminate { exit_code: i32 },
}

impl CallbackAction {
    /// How many times the action hands the record to the handler state at
    /// `context`.
    pub open spec fn deliveries_to(self, context: u64) -> nat {
        match self {
            CallbackAction::Deliver { context: target } => if target == context {
                1
            } else {
                0
            },
            CallbackAction::Discard => 0,
        }
    }
}

/// The action for a record, given the registered contexts. A record that
/// could not be interpreted is `None`.
pub open spec fn dispatch(registered: Set<u64>, record: Option<EventRecord>) -> CallbackAction {
    match record {
        Some(event_record) => if registered.contains(event_record.user_context) {
            CallbackAction::Deliver { context: event_record.user_context }
        } else {
            CallbackAction::Discard
        },
        None => CallbackAction::Discard,
    }
}

/// Decides what happens to a record that the tracing facility hands to the
/// callback. This may be called any number of times, also after the trace
/// was asked to close: the registry alone decides whether the handler state
/// may still be used.
pub fn trace_callback_thunk(
    registry: &UniqueValidContexts,
    record: Option<EventRecord>,
) -> (action: CallbackAction)
    ensures
        action == dispatch(registry@, record),
{
    if let Some(event_record) = record {
        let user_context = event_record.user_context();
        if !registry.is_valid(user_context) {
            return CallbackAction::Discard;
        }
        CallbackAction::Deliver { context: user_context }
    } else {
        CallbackAction::Discard
    }
}

/// Decides how the callback leaves, given whether anything in it, the handler
/// included, ended in a fault that was caught at its boundary.
///
/// A fault must not travel back into the frames of the tracing facility, and
/// the process is in no state to go on after one: it is ended.
pub fn callback_exit(faulted: bool) -> (exit: CallbackExit)
    ensures
        exit == (if faulted {
            CallbackExit::Terminate { exit_code: 1 }
        } else {
            CallbackExit::Return
        }),
{
    if faulted {
        CallbackExit::Terminate { exit_code: 1 }
    } else {
        CallbackExit::Return
    }
}

/// One invocation delivers exactly once to the handler state its record
/// names if that context is registered, and never to any other handler
/// state; if the context is not registered it delivers to none.
pub proof fn lemma_delivers_once_iff_registered(
    registered: Set<u64>,
    record: EventRecord,
    context: u64,
)
    ensures
        dispatch(registered, Some(record)).deliveries_to(context) == (if record.user_context
            == context && registered.contains(context) {
            1nat
        } else {
            0nat
        }),
{
}

} // verus!
