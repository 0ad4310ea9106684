use node_metrics::adapter::{
    record_by_name, GeneralAdapter, MetricAdapter, RPCMetricAdapter, RpcAdapter,
    RPC_CALLS_FAILED, RPC_CALLS_STARTED, RPC_CALLS_SUCCEEDED, RPC_CALL_DURATION,
};
use node_metrics::error::MetricsError;
use node_metrics::instrument::{Instrument, InstrumentKind, Recording, Sample};
use node_metrics::metrics_set::MetricsSet;
use node_metrics::registry::{exp_histogram, linear_histogram, InstrumentHandle, InstrumentRegistry};

fn node_metrics_fixture() -> (InstrumentRegistry, MetricsSet) {
    let mut registry = InstrumentRegistry::new();
    let mut set = MetricsSet::new();
    let blocks = registry.register(Instrument::counter("blocks", "blocks built").unwrap()).unwrap();
    let peers = registry.register(Instrument::gauge("peers", "connected peers").unwrap()).unwrap();
    let latency = exp_histogram(&mut registry, "latency", "request latency", 1, 2, 10).unwrap();
    set.bind("blocks", blocks).unwrap();
    set.bind("peers", peers).unwrap();
    set.bind("latency", latency).unwrap();
    (registry, set)
}

#[test]
fn general_adapter_records_by_name() {
    let (mut registry, set) = node_metrics_fixture();
    let adapter = GeneralAdapter::new(&set);
    assert_eq!(adapter.record_counter(&mut registry, "blocks", 2), Ok(()));
    assert_eq!(adapter.record_counter(&mut registry, "blocks", 3), Ok(()));
    assert_eq!(adapter.record_gauge(&mut registry, "peers", Sample::Finite(40)), Ok(()));
    assert_eq!(adapter.observe_histogram(&mut registry, "latency", Sample::Finite(50)), Ok(()));
    assert_eq!(registry.instrument(set.lookup("blocks").unwrap()).unwrap().total(), 5);
    assert_eq!(registry.instrument(set.lookup("peers").unwrap()).unwrap().level(), 40);
    assert_eq!(
        registry.instrument(set.lookup("latency").unwrap()).unwrap().counts(),
        &vec![0, 0, 0, 0, 0, 0, 1, 0, 0, 0, 0]
    );
}

#[test]
fn general_adapter_fails_loudly_on_an_unknown_name() {
    let (mut registry, set) = node_metrics_fixture();
    let adapter = GeneralAdapter::new(&set);
    assert_eq!(adapter.record_counter(&mut registry, "nothing", 1), Err(MetricsError::UnknownInstrument));
    assert_eq!(
        adapter.record_gauge(&mut registry, "nothing", Sample::Finite(1)),
        Err(MetricsError::UnknownInstrument)
    );
    assert_eq!(
        adapter.observe_histogram(&mut registry, "nothing", Sample::Finite(1)),
        Err(MetricsError::UnknownInstrument)
    );
}

#[test]
fn general_adapter_refuses_a_name_of_another_kind() {
    let (mut registry, set) = node_metrics_fixture();
    let adapter = GeneralAdapter::new(&set);
    assert_eq!(adapter.record_counter(&mut registry, "peers", 1), Err(MetricsError::UnknownInstrument));
    assert_eq!(
        adapter.record_gauge(&mut registry, "latency", Sample::Finite(1)),
        Err(MetricsError::UnknownInstrument)
    );
    assert_eq!(
        adapter.observe_histogram(&mut registry, "blocks", Sample::Finite(1)),
        Err(MetricsError::UnknownInstrument)
    );
    assert_eq!(registry.instrument(set.lookup("blocks").unwrap()).unwrap().total(), 0);
    assert_eq!(registry.instrument(set.lookup("peers").unwrap()).unwrap().level(), 0);
}

#[test]
fn general_adapter_rejects_non_finite_values_before_the_name() {
    let (mut registry, set) = node_metrics_fixture();
    let adapter = GeneralAdapter::new(&set);
    adapter.record_gauge(&mut registry, "peers", Sample::Finite(7)).unwrap();
    for bad in [Sample::NotANumber, Sample::PositiveInfinity, Sample::NegativeInfinity] {
        assert_eq!(adapter.record_gauge(&mut registry, "peers", bad), Err(MetricsError::NonFiniteValue));
        assert_eq!(
            adapter.observe_histogram(&mut registry, "latency", bad),
            Err(MetricsError::NonFiniteValue)
        );
        assert_eq!(
            adapter.observe_histogram(&mut registry, "nothing", bad),
            Err(MetricsError::NonFiniteValue)
        );
    }
    assert_eq!(registry.instrument(set.lookup("peers").unwrap()).unwrap().level(), 7);
    assert_eq!(
        registry.instrument(set.lookup("latency").unwrap()).unwrap().counts(),
        &vec![0u64; 11]
    );
}

#[test]
fn adapter_refuses_a_handle_that_names_another_instrument() {
    let mut other = InstrumentRegistry::new();
    other.register(Instrument::counter("unrelated", "help").unwrap()).unwrap();
    let (_, set) = node_metrics_fixture();
    assert_eq!(
        record_by_name(&set, &mut other, "blocks", Recording::Increase(1)),
        Err(MetricsError::UnknownInstrument)
    );
    assert_eq!(other.instrument(other.find("unrelated").unwrap()).unwrap().total(), 0);
    let mut empty = InstrumentRegistry::new();
    assert_eq!(
        record_by_name(&set, &mut empty, "blocks", Recording::Increase(1)),
        Err(MetricsError::UnknownInstrument)
    );
}

#[test]
fn metrics_set_binds_each_name_once() {
    let mut set = MetricsSet::new();
    let a = InstrumentHandle { index: 0, kind: InstrumentKind::Counter };
    let b = InstrumentHandle { index: 1, kind: InstrumentKind::Gauge };
    assert_eq!(set.len(), 0);
    assert_eq!(set.lookup("a"), None);
    assert_eq!(set.bind("a", a), Ok(()));
    assert_eq!(set.bind("b", b), Ok(()));
    assert_eq!(set.bind("a", b), Err(MetricsError::RegistrationConflict));
    assert_eq!(set.bind("", b), Err(MetricsError::RegistrationConflict));
    assert_eq!(set.len(), 2);
    assert_eq!(set.lookup("a"), Some(a));
    assert_eq!(set.lookup("b"), Some(b));
    assert_eq!(set.lookup("c"), None);
}

fn rpc_fixture() -> (InstrumentRegistry, MetricsSet) {
    let mut registry = InstrumentRegistry::new();
    let mut set = MetricsSet::new();
    let started = registry.register(Instrument::counter(RPC_CALLS_STARTED, "calls begun").unwrap()).unwrap();
    let ok = registry.register(Instrument::counter(RPC_CALLS_SUCCEEDED, "calls done").unwrap()).unwrap();
    let failed = registry.register(Instrument::counter(RPC_CALLS_FAILED, "calls failed").unwrap()).unwrap();
    let duration = linear_histogram(&mut registry, RPC_CALL_DURATION, "call duration", 100, 100, 5).unwrap();
    set.bind(RPC_CALLS_STARTED, started).unwrap();
    set.bind(RPC_CALLS_SUCCEEDED, ok).unwrap();
    set.bind(RPC_CALLS_FAILED, failed).unwrap();
    set.bind(RPC_CALL_DURATION, duration).unwrap();
    (registry, set)
}

#[test]
fn rpc_adapter_records_the_life_of_a_call() {
    let (mut registry, set) = rpc_fixture();
    let adapter = RpcAdapter::bind(&set).unwrap();
    assert_eq!(adapter.call_started(&mut registry), Ok(()));
    assert_eq!(adapter.call_started(&mut registry), Ok(()));
    assert_eq!(adapter.call_started(&mut registry), Ok(()));
    assert_eq!(adapter.call_succeeded(&mut registry), Ok(()));
    assert_eq!(adapter.call_succeeded(&mut registry), Ok(()));
    assert_eq!(adapter.call_failed(&mut registry), Ok(()));
    assert_eq!(adapter.call_duration(&mut registry, Sample::Finite(250)), Ok(()));
    assert_eq!(adapter.call_duration(&mut registry, Sample::Finite(9000)), Ok(()));
    assert_eq!(
        adapter.call_duration(&mut registry, Sample::NotANumber),
        Err(MetricsError::NonFiniteValue)
    );
    assert_eq!(registry.instrument(adapter.handles.started).unwrap().total(), 3);
    assert_eq!(registry.instrument(adapter.handles.succeeded).unwrap().total(), 2);
    assert_eq!(registry.instrument(adapter.handles.failed).unwrap().total(), 1);
    assert_eq!(
        registry.instrument(adapter.handles.duration).unwrap().counts(),
        &vec![0, 0, 1, 0, 0, 1]
    );
}

#[test]
fn rpc_adapter_needs_all_four_instruments_with_their_kinds() {
    let (_, general) = node_metrics_fixture();
    assert!(matches!(RpcAdapter::bind(&general), Err(MetricsError::UnknownInstrument)));
    let mut set = MetricsSet::new();
    set.bind(RPC_CALLS_STARTED, InstrumentHandle { index: 0, kind: InstrumentKind::Counter }).unwrap();
    set.bind(RPC_CALLS_SUCCEEDED, InstrumentHandle { index: 1, kind: InstrumentKind::Counter }).unwrap();
    set.bind(RPC_CALLS_FAILED, InstrumentHandle { index: 2, kind: InstrumentKind::Counter }).unwrap();
    assert!(matches!(RpcAdapter::bind(&set), Err(MetricsError::UnknownInstrument)));
    let mut wrong = MetricsSet::new();
    wrong.bind(RPC_CALLS_STARTED, InstrumentHandle { index: 0, kind: InstrumentKind::Counter }).unwrap();
    wrong.bind(RPC_CALLS_SUCCEEDED, InstrumentHandle { index: 1, kind: InstrumentKind::Counter }).unwrap();
    wrong.bind(RPC_CALLS_FAILED, InstrumentHandle { index: 2, kind: InstrumentKind::Counter }).unwrap();
    wrong.bind(RPC_CALL_DURATION, InstrumentHandle { index: 3, kind: InstrumentKind::Gauge }).unwrap();
    assert!(matches!(RpcAdapter::bind(&wrong), Err(MetricsError::UnknownInstrument)));
    set.bind(RPC_CALL_DURATION, InstrumentHandle { index: 3, kind: InstrumentKind::Histogram }).unwrap();
    let adapter = RpcAdapter::bind(&set).unwrap();
    assert_eq!(adapter.handles.duration, InstrumentHandle { index: 3, kind: InstrumentKind::Histogram });
    let mut empty = InstrumentRegistry::new();
    assert_eq!(adapter.call_started(&mut empty), Err(MetricsError::UnknownInstrument));
}
