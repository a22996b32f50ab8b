use vstd::prelude::*;
use windows::Win32::System::Diagnostics::Etw::EVENT_CONTROL_CODE_ENABLE_PROVIDER;
use crate::error::{EvntraceNativeError, EvntraceNativeResult};
use crate::handles::{filter_invalid_control_handle, ControlHandle};

verus! {

/// A source of events, as it is enabled on a session.
///
/// `D` is the native form of a filter and `E` the reason why a filter has no
/// native form. Each entry of `filters` is one filter of the provider, already
/// converted: `Ok` with its native form, or `Err` if it is malformed.
pub struct Provider<D, E> {
    pub guid: u128,
    pub trace_flags: u32,
    pub level: u8,
    pub any: u64,
    pub all: u64,
    pub filters: Vec<Result<D, E>>,
}

/// What to ask of the primitive that enables a provider on a session.
pub struct EnableProviderCall<'a, D> {
    /// The session on which the provider is enabled.
    pub handle: ControlHandle,
    /// The provider, also given as the source of the enable parameters.
    pub guid: u128,
    pub control_code: u32,
    pub level: u8,
    pub match_any_keyword: u64,
    pub match_all_keyword: u64,
    /// Zero: the call does not wait for the provider to acknowledge.
    pub timeout: u32,
    /// The enable property of the enable parameters.
    pub trace_flags: u32,
    /// The filters of the enable parameters.
    pub filters: Vec<&'a D>,
}

/// The control code that enables a provider.
pub open spec fn enable_provider_code() -> u32 {
    1
}

/// The native forms of the filters that have one, in their order. A
/// malformed filter counts as no filter.
pub open spec fn accepted_filters<D, E>(converted: Seq<Result<D, E>>) -> Seq<D> {
    converted.filter(|filter: Result<D, E>| filter is Ok).map_values(
        |filter: Result<D, E>| filter->Ok_0,
    )
}

/// `windows::Win32::System::Diagnostics::Etw::EVENT_CONTROL_CODE_ENABLE_PROVIDER`:
/// claims that its value is 1.
#[verifier::external_body]
pub(crate) fn event_control_code_enable_provider() -> (code: u32)
    ensures
        code == enable_provider_code(),
{
    EVENT_CONTROL_CODE_ENABLE_PROVIDER.0
}

proof fn lemma_accepted_filters_step<D, E>(converted: Seq<Result<D, E>>, i: int)
    requires
        0 <= i < converted.len(),
    ensures
        accepted_filters(converted.take(i + 1)) == (match converted[i] {
            Ok(descriptor) => accepted_filters(converted.take(i)).push(descriptor),
            Err(_) => accepted_filters(converted.take(i)),
        }),
{
    let prefix = converted.take(i + 1);
    assert(prefix.drop_last() =~= converted.take(i));
    reveal_with_fuel(Seq::filter, 2);
    if let Ok(descriptor) = converted[i] {
        assert(accepted_filters(prefix) =~= accepted_filters(converted.take(i)).push(descriptor));
    }
}

/// Keeps the filters that have a native form and drops the others.
pub fn accepted_filter_descriptors<'a, D, E>(converted: &'a Vec<Result<D, E>>) -> (kept: Vec<&'a D>)
    ensures
        kept@.unref() == accepted_filters(converted@),
{
    let mut kept: Vec<&'a D> = Vec::new();
    let mut i: usize = 0;
    proof {
        reveal_with_fuel(Seq::filter, 1);
        assert(kept@.unref() =~= accepted_filters(converted@.take(0)));
    }
    while i < converted.len()
        invariant
            i <= converted.len(),
            kept@.unref() == accepted_filters(converted@.take(i as int)),
        decreases converted.len() - i,
    {
        proof {
            lemma_accepted_filters_step(converted@, i as int);
        }
        let ghost before = kept@;
        match &converted[i] {
            Ok(descriptor) => {
                kept.push(descriptor);
                assert(kept@.unref() =~= before.unref().push(*descriptor));
            },
            Err(_) => {},
        }
        i += 1;
    }
    proof {
        assert(converted@.take(converted.len() as int) =~= converted@);
    }
    kept
}

/// Decides what to ask for in order to attach a provider to a session.
///
/// A zero control handle is refused. Otherwise the provider is enabled on
/// that session with its level and keyword masks, and with those of its
/// filters that have a native form.
pub fn enable_provider<'a, D, E>(
    control_handle: ControlHandle,
    provider: &'a Provider<D, E>,
) -> (r: EvntraceNativeResult<EnableProviderCall<'a, D>>)
    ensures
        control_handle.is_sentinel() ==> r == Err::<EnableProviderCall<'a, D>, _>(
            EvntraceNativeError::InvalidHandle,
        ),
        !control_handle.is_sentinel() ==> r is Ok && {
            let call = r->Ok_0;
            &&& call.handle == control_handle
            &&& call.guid == provider.guid
            &&& call.control_code == enable_provider_code()
            &&& call.level == provider.level
            &&& call.match_any_keyword == provider.any
            &&& call.match_all_keyword == provider.all
            &&& call.timeout == 0
            &&& call.trace_flags == provider.trace_flags
            &&& call.filters@.unref() == accepted_filters(provider.filters@)
        },
{
    match filter_invalid_control_handle(control_handle) {
        None => Err(EvntraceNativeError::InvalidHandle),
        Some(handle) => {
            let filters = accepted_filter_descriptors(&provider.filters);
            Ok(
                EnableProviderCall {
                    handle,
                    guid: provider.guid,
                    control_code: event_control_code_enable_provider(),
                    level: provider.level,
                    match_any_keyword: provider.any,
                    match_all_keyword: provider.all,
                    timeout: 0,
                    trace_flags: provider.trace_flags,
                    filters,
                },
            )
        },
    }
}

} // verus!
