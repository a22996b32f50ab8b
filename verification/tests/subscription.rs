use evntrace::callback::{trace_callback_thunk, CallbackAction, EventRecord};
use evntrace::error::EvntraceNativeError;
use evntrace::handles::TraceHandle;
use evntrace::registry::UniqueValidContexts;
use evntrace::status::check_status;
use evntrace::subscription::{
    close_trace, close_trace_outcome, open_trace, open_trace_outcome, process_trace,
    ProcessTraceCall,
};

#[test]
fn subscribing_registers_the_context() {
    let mut registry = UniqueValidContexts::new();
    assert_eq!(open_trace(&mut registry, 0xAAAA), Ok(0xAAAA));
    assert!(registry.is_valid(0xAAAA));
}

#[test]
fn subscribing_one_handler_state_twice_is_already_exist() {
    let mut registry = UniqueValidContexts::new();
    assert_eq!(open_trace(&mut registry, 0xAAAA), Ok(0xAAAA));
    assert_eq!(open_trace(&mut registry, 0xAAAA), Err(EvntraceNativeError::AlreadyExist));
    assert!(registry.is_valid(0xAAAA));
    assert_eq!(open_trace(&mut registry, 0xBBBB), Ok(0xBBBB));
}

#[test]
fn opened_trace_with_a_live_handle_succeeds() {
    assert_eq!(open_trace_outcome(TraceHandle { value: 3 }, 0), Ok(TraceHandle { value: 3 }));
    assert_eq!(open_trace_outcome(TraceHandle { value: 0 }, 5), Ok(TraceHandle { value: 0 }));
}

#[test]
fn opened_trace_with_a_sentinel_handle_fails_with_the_last_error() {
    assert_eq!(
        open_trace_outcome(TraceHandle { value: u64::MAX }, 4201),
        Err(EvntraceNativeError::IoError(4201))
    );
    assert_eq!(
        open_trace_outcome(TraceHandle { value: 0xFFFF_FFFF }, 2),
        Err(EvntraceNativeError::IoError(2))
    );
}

#[test]
fn failed_open_leaves_the_context_registered() {
    let mut registry = UniqueValidContexts::new();
    assert_eq!(open_trace(&mut registry, 0xAAAA), Ok(0xAAAA));
    let opened = open_trace_outcome(TraceHandle { value: u64::MAX }, 4201);
    assert_eq!(opened, Err(EvntraceNativeError::IoError(4201)));
    assert!(registry.is_valid(0xAAAA));
    assert_eq!(open_trace(&mut registry, 0xAAAA), Err(EvntraceNativeError::AlreadyExist));
}

#[test]
fn processing_a_sentinel_handle_is_an_invalid_handle() {
    assert_eq!(
        process_trace(TraceHandle { value: u64::MAX }),
        Err(EvntraceNativeError::InvalidHandle)
    );
    assert_eq!(
        process_trace(TraceHandle { value: 0xFFFF_FFFF }),
        Err(EvntraceNativeError::InvalidHandle)
    );
}

#[test]
fn processing_starts_at_the_earliest_time() {
    assert_eq!(
        process_trace(TraceHandle { value: 3 }),
        Ok(ProcessTraceCall { handle: TraceHandle { value: 3 }, start_time: 0, end_time: None })
    );
}

#[test]
fn processing_status_becomes_a_result() {
    assert_eq!(check_status(0), Ok(()));
    // 1223 is reported as 0x800704C7
    assert_eq!(check_status(1223), Err(EvntraceNativeError::IoError(-2147023673)));
}

#[test]
fn closing_a_sentinel_handle_leaves_the_registry_alone() {
    let mut registry = UniqueValidContexts::new();
    assert_eq!(open_trace(&mut registry, 0xAAAA), Ok(0xAAAA));
    assert_eq!(
        close_trace(&mut registry, TraceHandle { value: u64::MAX }, 0xAAAA),
        Err(EvntraceNativeError::InvalidHandle)
    );
    assert_eq!(
        close_trace(&mut registry, TraceHandle { value: 0xFFFF_FFFF }, 0xAAAA),
        Err(EvntraceNativeError::InvalidHandle)
    );
    assert!(registry.is_valid(0xAAAA));
}

#[test]
fn closing_unregisters_the_context_and_names_the_handle() {
    let mut registry = UniqueValidContexts::new();
    assert_eq!(open_trace(&mut registry, 0xAAAA), Ok(0xAAAA));
    assert_eq!(open_trace(&mut registry, 0xBBBB), Ok(0xBBBB));
    assert_eq!(
        close_trace(&mut registry, TraceHandle { value: 3 }, 0xAAAA),
        Ok(TraceHandle { value: 3 })
    );
    assert!(!registry.is_valid(0xAAAA));
    assert!(registry.is_valid(0xBBBB));
}

#[test]
fn closing_twice_is_harmless() {
    let mut registry = UniqueValidContexts::new();
    assert_eq!(open_trace(&mut registry, 0xAAAA), Ok(0xAAAA));
    for _ in 0..2 {
        assert_eq!(
            close_trace(&mut registry, TraceHandle { value: 3 }, 0xAAAA),
            Ok(TraceHandle { value: 3 })
        );
        assert!(!registry.is_valid(0xAAAA));
    }
}

#[test]
fn close_with_success_status_means_no_more_callbacks() {
    assert_eq!(close_trace_outcome(0), Ok(false));
}

#[test]
fn close_with_pending_status_means_callbacks_may_still_occur() {
    assert_eq!(close_trace_outcome(7007), Ok(true));
}

#[test]
fn close_failure_carries_the_error_code() {
    // 6 is reported as 0x80070006
    assert_eq!(close_trace_outcome(6), Err(EvntraceNativeError::IoError(-2147024890)));
    assert_eq!(close_trace_outcome(183), Err(EvntraceNativeError::IoError(-2147024713)));
}

#[test]
fn close_tells_pending_by_its_status_alone() {
    // both are reported under the error code of 7007, 0x80071B5F, and are
    // failures all the same
    assert_eq!(close_trace_outcome(0x0002_1B5F), Err(EvntraceNativeError::IoError(-2147017889)));
    assert_eq!(close_trace_outcome(0x8007_1B5F), Err(EvntraceNativeError::IoError(-2147017889)));
    assert_eq!(close_trace_outcome(0x0001_1B5F), Err(EvntraceNativeError::IoError(-2147017889)));
    for status in [7006_u32, 7008, 0x7FFF_1B5F] {
        assert!(matches!(close_trace_outcome(status), Err(EvntraceNativeError::IoError(_))));
    }
}

#[test]
fn callbacks_after_close_are_discarded_whatever_close_answers() {
    for status in [0_u32, 7007, 6] {
        let mut registry = UniqueValidContexts::new();
        assert_eq!(open_trace(&mut registry, 0xAAAA), Ok(0xAAAA));
        let record = EventRecord { user_context: 0xAAAA };
        assert_eq!(
            trace_callback_thunk(&registry, Some(record)),
            CallbackAction::Deliver { context: 0xAAAA }
        );

        let handle = close_trace(&mut registry, TraceHandle { value: 3 }, 0xAAAA);
        assert_eq!(handle, Ok(TraceHandle { value: 3 }));
        let _ = close_trace_outcome(status);

        assert!(!registry.is_valid(0xAAAA));
        for _ in 0..3 {
            assert_eq!(trace_callback_thunk(&registry, Some(record)), CallbackAction::Discard);
        }
    }
}

#[test]
fn subscribed_handler_gets_records_until_its_context_is_unregistered() {
    let mut registry = UniqueValidContexts::new();
    assert_eq!(open_trace(&mut registry, 0xAAAA), Ok(0xAAAA));
    assert_eq!(open_trace_outcome(TraceHandle { value: 3 }, 0), Ok(TraceHandle { value: 3 }));

    let record = EventRecord { user_context: 0xAAAA };
    let mut delivered = 0;
    if let CallbackAction::Deliver { context: 0xAAAA } =
        trace_callback_thunk(&registry, Some(record))
    {
        delivered += 1;
    }
    assert_eq!(delivered, 1);

    registry.remove(0xAAAA);
    if let CallbackAction::Deliver { .. } = trace_callback_thunk(&registry, Some(record)) {
        delivered += 1;
    }
    assert_eq!(delivered, 1);
}

#[test]
fn callbacks_of_another_subscription_go_on_after_close() {
    let mut registry = UniqueValidContexts::new();
    assert_eq!(open_trace(&mut registry, 0xAAAA), Ok(0xAAAA));
    assert_eq!(open_trace(&mut registry, 0xBBBB), Ok(0xBBBB));
    assert!(close_trace(&mut registry, TraceHandle { value: 3 }, 0xAAAA).is_ok());
    assert_eq!(
        trace_callback_thunk(&registry, Some(EventRecord { user_context: 0xBBBB })),
        CallbackAction::Deliver { context: 0xBBBB }
    );
}

#[test]
fn handler_state_can_be_subscribed_again_after_close() {
    let mut registry = UniqueValidContexts::new();
    assert_eq!(open_trace(&mut registry, 0xAAAA), Ok(0xAAAA));
    assert!(close_trace(&mut registry, TraceHandle { value: 3 }, 0xAAAA).is_ok());
    assert_eq!(open_trace(&mut registry, 0xAAAA), Ok(0xAAAA));
}
