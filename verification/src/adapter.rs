//! Adapters: the interfaces through which subsystems record values without
//! knowing how instruments are kept.
//!
//! A name that is not bound, or is bound to an instrument of another kind,
//! is refused with `UnknownInstrument`: an adapter never drops a recording
//! in silence. A value that is no finite number is refused with
//! `NonFiniteValue` before the name is looked at. A refused recording
//! changes nothing.

use crate::error::MetricsError;
use crate::instrument::{InstrumentKind, InstrumentView, Recording, Sample};
use crate::metrics_set::{bound_handle, BindingView, MetricsSet};
use crate::registry::{record_outcome, InstrumentHandle, InstrumentRegistry};
use vstd::prelude::*;

verus! {

/// What a recording under a name comes to: a value that is no finite number
/// is refused with `NonFiniteValue`; a name that the set does not bind, or
/// binds to a handle under which the registry keeps an instrument of
/// another name, with `UnknownInstrument`; any other recording comes to
/// what it comes to through the handle.
pub open spec fn adapter_outcome(
    set: Seq<BindingView>,
    registry: Seq<InstrumentView>,
    name: Seq<char>,
    recording: Recording,
) -> Result<Seq<InstrumentView>, MetricsError> {
    if !recording.finite() {
        Err(MetricsError::NonFiniteValue)
    } else {
        match bound_handle(set, name) {
            None => Err(MetricsError::UnknownInstrument),
            Some(handle) => if handle.index < registry.len() && registry[handle.index as int].name
                != name {
                Err(MetricsError::UnknownInstrument)
            } else {
                record_outcome(registry, handle, recording)
            },
        }
    }
}

/// Makes a recording on the instrument that `set` binds under `name`, or
/// refuses it and leaves the registry as it is.
pub fn record_by_name(
    set: &MetricsSet,
    registry: &mut InstrumentRegistry,
    name: &str,
    recording: Recording,
) -> (r: Result<(), MetricsError>)
    ensures
        match adapter_outcome(set@, old(registry)@, name@, recording) {
            Ok(s) => r is Ok && final(registry)@ == s,
            Err(e) => r == Err::<(), MetricsError>(e) && final(registry)@ == old(registry)@,
        },
{
    if !recording.is_finite() {
        return Err(MetricsError::NonFiniteValue);
    }
    let handle = match set.lookup(name) {
        Some(h) => h,
        None => {
            return Err(MetricsError::UnknownInstrument);
        },
    };
    let wanted: String = name.to_owned();
    match registry.instrument(handle) {
        Some(found) => {
            if !found.is_named(&wanted) {
                return Err(MetricsError::UnknownInstrument);
            }
        },
        None => {},
    }
    registry.record(handle, recording)
}

/// The interface through which a subsystem records values under names.
pub trait MetricAdapter {
    /// The bindings that the adapter records through.
    spec fn bound(&self) -> Seq<BindingView>;

    /// Adds `delta` to the counter bound under `name`.
    fn record_counter(&self, registry: &mut InstrumentRegistry, name: &str, delta: u64) -> (r: Result<
        (),
        MetricsError,
    >)
        ensures
            match adapter_outcome(
                self.bound(),
                old(registry)@,
                name@,
                Recording::Increase(delta),
            ) {
                Ok(s) => r is Ok && final(registry)@ == s,
                Err(e) => r == Err::<(), MetricsError>(e) && final(registry)@ == old(registry)@,
            },
    ;

    /// Sets the gauge bound under `name` to `value`.
    fn record_gauge(&self, registry: &mut InstrumentRegistry, name: &str, value: Sample) -> (r: Result<
        (),
        MetricsError,
    >)
        ensures
            match adapter_outcome(self.bound(), old(registry)@, name@, Recording::Level(value)) {
                Ok(s) => r is Ok && final(registry)@ == s,
                Err(e) => r == Err::<(), MetricsError>(e) && final(registry)@ == old(registry)@,
            },
    ;

    /// Tallies `value` in the histogram bound under `name`.
    fn observe_histogram(&self, registry: &mut InstrumentRegistry, name: &str, value: Sample) -> (r: Result<
        (),
        MetricsError,
    >)
        ensures
            match adapter_outcome(
                self.bound(),
                old(registry)@,
                name@,
                Recording::Observation(value),
            ) {
                Ok(s) => r is Ok && final(registry)@ == s,
                Err(e) => r == Err::<(), MetricsError>(e) && final(registry)@ == old(registry)@,
            },
    ;
}

/// The adapter over the metrics set of the process.
pub struct GeneralAdapter<'a> {
    pub set: &'a MetricsSet,
}

impl<'a> GeneralAdapter<'a> {
    /// An adapter that records through `set`.
    pub fn new(set: &'a MetricsSet) -> (r: GeneralAdapter<'a>)
        ensures
            r.set == set,
            r.bound() == set@,
    {
        GeneralAdapter { set }
    }
}

impl<'a> MetricAdapter for GeneralAdapter<'a> {
    open spec fn bound(&self) -> Seq<BindingView> {
        self.set@
    }

    fn record_counter(&self, registry: &mut InstrumentRegistry, name: &str, delta: u64) -> (r: Result<
        (),
        MetricsError,
    >) {
        record_by_name(self.set, registry, name, Recording::Increase(delta))
    }

    fn record_gauge(&self, registry: &mut InstrumentRegistry, name: &str, value: Sample) -> (r: Result<
        (),
        MetricsError,
    >) {
        record_by_name(self.set, registry, name, Recording::Level(value))
    }

    fn observe_histogram(&self, registry: &mut InstrumentRegistry, name: &str, value: Sample) -> (r: Result<
        (),
        MetricsError,
    >) {
        record_by_name(self.set, registry, name, Recording::Observation(value))
    }
}

/// The name under which the counter of calls that began is bound.
pub const RPC_CALLS_STARTED: &'static str = "rpc_calls_started";

/// The name under which the counter of calls that succeeded is bound.
pub const RPC_CALLS_SUCCEEDED: &'static str = "rpc_calls_succeeded";

/// The name under which the counter of calls that failed is bound.
pub const RPC_CALLS_FAILED: &'static str = "rpc_calls_failed";

/// The name under which the histogram of call durations is bound.
pub const RPC_CALL_DURATION: &'static str = "rpc_call_duration";

/// The four instruments that the life of a call is recorded to.
#[derive(Clone, Copy, Debug, PartialEq, Eq, Structural)]
pub struct RpcHandles {
    pub started: InstrumentHandle,
    pub succeeded: InstrumentHandle,
    pub failed: InstrumentHandle,
    pub duration: InstrumentHandle,
}

/// The handle that a set binds under `name`, if it is one of the given
/// kind.
pub open spec fn bound_as(set: Seq<BindingView>, name: Seq<char>, kind: InstrumentKind) -> Option<
    InstrumentHandle,
> {
    match bound_handle(set, name) {
        Some(handle) => if handle.kind == kind {
            Some(handle)
        } else {
            None
        },
        None => None,
    }
}

/// The handles of the four instruments of a call's life, where the set
/// binds all of them with their kinds.
pub open spec fn rpc_handles(set: Seq<BindingView>) -> Option<RpcHandles> {
    let started = bound_as(set, RPC_CALLS_STARTED@, InstrumentKind::Counter);
    let succeeded = bound_as(set, RPC_CALLS_SUCCEEDED@, InstrumentKind::Counter);
    let failed = bound_as(set, RPC_CALLS_FAILED@, InstrumentKind::Counter);
    let duration = bound_as(set, RPC_CALL_DURATION@, InstrumentKind::Histogram);
    if started is Some && succeeded is Some && failed is Some && duration is Some {
        Some(
            RpcHandles {
                started: started->Some_0,
                succeeded: succeeded->Some_0,
                failed: failed->Some_0,
                duration: duration->Some_0,
            },
        )
    } else {
        None
    }
}

/// The interface through which the life of a call is recorded: that it
/// began, that it succeeded or failed, and how long it took.
pub trait RPCMetricAdapter {
    /// The instruments that the adapter records to.
    spec fn handles(&self) -> RpcHandles;

    /// Counts a call that began.
    fn call_started(&self, registry: &mut InstrumentRegistry) -> (r: Result<(), MetricsError>)
        ensures
            match record_outcome(old(registry)@, self.handles().started, Recording::Increase(1)) {
                Ok(s) => r is Ok && final(registry)@ == s,
                Err(e) => r == Err::<(), MetricsError>(e) && final(registry)@ == old(registry)@,
            },
    ;

    /// Counts a call that succeeded.
    fn call_succeeded(&self, registry: &mut InstrumentRegistry) -> (r: Result<(), MetricsError>)
        ensures
            match record_outcome(
                old(registry)@,
                self.handles().succeeded,
                Recording::Increase(1),
            ) {
                Ok(s) => r is Ok && final(registry)@ == s,
                Err(e) => r == Err::<(), MetricsError>(e) && final(registry)@ == old(registry)@,
            },
    ;

    /// Counts a call that failed.
    fn call_failed(&self, registry: &mut InstrumentRegistry) -> (r: Result<(), MetricsError>)
        ensures
            match record_outcome(old(registry)@, self.handles().failed, Recording::Increase(1)) {
                Ok(s) => r is Ok && final(registry)@ == s,
                Err(e) => r == Err::<(), MetricsError>(e) && final(registry)@ == old(registry)@,
            },
    ;

    /// Tallies how long a call took.
    fn call_duration(&self, registry: &mut InstrumentRegistry, value: Sample) -> (r: Result<
        (),
        MetricsError,
    >)
        ensures
            match record_outcome(
                old(registry)@,
                self.handles().duration,
                Recording::Observation(value),
            ) {
                Ok(s) => r is Ok && final(registry)@ == s,
                Err(e) => r == Err::<(), MetricsError>(e) && final(registry)@ == old(registry)@,
            },
    ;
}

/// The adapter over the four instruments of a call's life.
pub struct RpcAdapter {
    pub handles: RpcHandles,
}

/// The handle that `set` binds under `name`, if it is one of the given kind.
fn lookup_as(set: &MetricsSet, name: &str, kind: InstrumentKind) -> (r: Option<InstrumentHandle>)
    ensures
        r == bound_as(set@, name@, kind),
{
    match set.lookup(name) {
        Some(handle) => if handle.kind == kind {
            Some(handle)
        } else {
            None
        },
        None => None,
    }
}

impl RpcAdapter {
    /// An adapter over the instruments that `set` binds under the four
    /// names of a call's life.
    ///
    /// Fails with `UnknownInstrument` unless the set binds the three
    /// counters and the histogram, each with its kind.
    pub fn bind(set: &MetricsSet) -> (r: Result<RpcAdapter, MetricsError>)
        ensures
            match rpc_handles(set@) {
                Some(h) => r is Ok && r->Ok_0.handles == h,
                None => r == Err::<RpcAdapter, MetricsError>(MetricsError::UnknownInstrument),
            },
    {
        let started = lookup_as(set, RPC_CALLS_STARTED, InstrumentKind::Counter);
        let succeeded = lookup_as(set, RPC_CALLS_SUCCEEDED, InstrumentKind::Counter);
        let failed = lookup_as(set, RPC_CALLS_FAILED, InstrumentKind::Counter);
        let duration = lookup_as(set, RPC_CALL_DURATION, InstrumentKind::Histogram);
        match (started, succeeded, failed, duration) {
            (Some(a), Some(b), Some(c), Some(d)) => Ok(
                RpcAdapter {
                    handles: RpcHandles { started: a, succeeded: b, failed: c, duration: d },
                },
            ),
            _ => Err(MetricsError::UnknownInstrument),
        }
    }
}

impl RPCMetricAdapter for RpcAdapter {
    open spec fn handles(&self) -> RpcHandles {
        self.handles
    }

    fn call_started(&self, registry: &mut InstrumentRegistry) -> (r: Result<(), MetricsError>) {
        registry.record(self.handles.started, Recording::Increase(1))
    }

    fn call_succeeded(&self, registry: &mut InstrumentRegistry) -> (r: Result<(), MetricsError>) {
        registry.record(self.handles.succeeded, Recording::Increase(1))
    }

    fn call_failed(&self, registry: &mut InstrumentRegistry) -> (r: Result<(), MetricsError>) {
        registry.record(self.handles.failed, Recording::Increase(1))
    }

    fn call_duration(&self, registry: &mut InstrumentRegistry, value: Sample) -> (r: Result<
        (),
        MetricsError,
    >) {
        registry.record(self.handles.duration, Recording::Observation(value))
    }
}

} // verus!
