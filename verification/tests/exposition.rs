use node_metrics::error::{BackendFault, MetricsError};
use node_metrics::buckets::{BucketSpec, Strategy};
use node_metrics::exposition::{
    build_and_publish, build_histogram, create_exposed_histogram, install, publish_histogram,
    registration_error, report, RegistryFailure,
};
use node_metrics::instrument::{Instrument, InstrumentKind, Recording, Sample};
use node_metrics::registry::{InstrumentHandle, InstrumentRegistry};
use substrate_prometheus_endpoint::{Histogram, HistogramOpts, PrometheusError, Registry};

fn histogram(name: &str, help: &str, buckets: Vec<f64>) -> Histogram {
    Histogram::with_opts(HistogramOpts::new(name, help).buckets(buckets)).unwrap()
}

#[test]
fn published_histogram_is_visible_in_the_registry() {
    let registry = Registry::new();
    let buckets = vec![0.001, 0.002, 0.004, 0.008, 0.016, 0.032, 0.064, 0.128, 0.256, 0.512];
    let handle = publish_histogram(histogram("block_time", "time per block", buckets), &registry).unwrap();
    handle.observe(0.05);
    let families = registry.gather();
    assert_eq!(families.len(), 1);
    assert_eq!(families[0].get_name(), "block_time");
    let h = families[0].get_metric()[0].get_histogram();
    assert_eq!(h.get_sample_count(), 1);
    let cumulative: Vec<u64> = h.get_bucket().iter().map(|b| b.get_cumulative_count()).collect();
    assert_eq!(cumulative, vec![0, 0, 0, 0, 0, 0, 1, 1, 1, 1]);
    assert_eq!(h.get_bucket()[6].get_upper_bound(), 0.064);
}

#[test]
fn publishing_twice_under_one_name_conflicts() {
    let registry = Registry::new();
    let first = publish_histogram(histogram("latency", "request latency", vec![1.0, 2.0]), &registry);
    assert!(first.is_ok());
    let second = publish_histogram(histogram("latency", "request latency", vec![1.0, 2.0]), &registry);
    assert_eq!(second.err(), Some(MetricsError::RegistrationConflict));
    let same = publish_histogram(first.unwrap(), &registry);
    assert_eq!(same.err(), Some(MetricsError::RegistrationConflict));
    assert_eq!(registry.gather().len(), 1);
}

#[test]
fn publishing_under_one_name_with_another_help_conflicts() {
    let registry = Registry::new();
    publish_histogram(histogram("latency", "request latency", vec![1.0, 2.0]), &registry).unwrap();
    let other = publish_histogram(histogram("latency", "something else", vec![1.0, 2.0]), &registry);
    assert_eq!(other.err(), Some(MetricsError::RegistrationConflict));
}

#[test]
fn publishing_under_other_names_succeeds() {
    let registry = Registry::new();
    assert!(publish_histogram(histogram("a", "first", vec![1.0]), &registry).is_ok());
    assert!(publish_histogram(histogram("b", "second", vec![1.0]), &registry).is_ok());
    assert_eq!(registry.gather().len(), 2);
}

#[test]
fn registry_failures_are_reported_by_kind() {
    assert_eq!(
        registration_error(RegistryFailure::AlreadyRegistered),
        MetricsError::RegistrationConflict
    );
    assert_eq!(registration_error(RegistryFailure::Message), MetricsError::RegistrationConflict);
    assert_eq!(
        registration_error(RegistryFailure::InconsistentCardinality),
        MetricsError::Backend(BackendFault::InconsistentCardinality)
    );
    assert_eq!(registration_error(RegistryFailure::Io), MetricsError::Backend(BackendFault::Io));
}

#[test]
fn report_hands_each_kind_of_error_on_as_what_it_is() {
    assert_eq!(report(&PrometheusError::AlreadyReg), MetricsError::RegistrationConflict);
    assert_eq!(
        report(&PrometheusError::Msg("refused".to_string())),
        MetricsError::RegistrationConflict
    );
    assert_eq!(
        report(&PrometheusError::InconsistentCardinality { expect: 2, got: 1 }),
        MetricsError::Backend(BackendFault::InconsistentCardinality)
    );
    let io = std::io::Error::new(std::io::ErrorKind::Other, "broken pipe");
    assert_eq!(report(&PrometheusError::Io(io)), MetricsError::Backend(BackendFault::Io));
}

#[test]
fn report_of_a_real_refusal_is_a_conflict() {
    let registry = Registry::new();
    registry.register(Box::new(histogram("latency", "request latency", vec![1.0]))).unwrap();
    let refused = registry.register(Box::new(histogram("latency", "request latency", vec![1.0])));
    assert_eq!(report(&refused.unwrap_err()), MetricsError::RegistrationConflict);
}

#[test]
fn build_histogram_refuses_what_the_exposition_format_refuses() {
    let good = HistogramOpts::new("block_time", "time per block").buckets(vec![0.5, 1.0]);
    assert!(build_histogram(good).is_ok());
    let bad_name = HistogramOpts::new("block time", "time per block").buckets(vec![0.5, 1.0]);
    assert_eq!(build_histogram(bad_name).err(), Some(MetricsError::RegistrationConflict));
    let no_help = HistogramOpts::new("block_time", "").buckets(vec![0.5, 1.0]);
    assert_eq!(build_histogram(no_help).err(), Some(MetricsError::RegistrationConflict));
    let unordered = HistogramOpts::new("block_time", "time per block").buckets(vec![1.0, 0.5]);
    assert_eq!(build_histogram(unordered).err(), Some(MetricsError::RegistrationConflict));
}

#[test]
fn build_and_publish_registers_what_it_builds() {
    let registry = Registry::new();
    let opts = HistogramOpts::new("block_time", "time per block").buckets(vec![0.5, 1.0]);
    let handle = build_and_publish(opts, &registry).unwrap();
    handle.observe(0.7);
    let families = registry.gather();
    assert_eq!(families.len(), 1);
    assert_eq!(families[0].get_metric()[0].get_histogram().get_sample_count(), 1);
    let again = HistogramOpts::new("block_time", "time per block").buckets(vec![0.5, 1.0]);
    assert_eq!(build_and_publish(again, &registry).err(), Some(MetricsError::RegistrationConflict));
    let refused = HistogramOpts::new("", "time per block").buckets(vec![0.5, 1.0]);
    assert_eq!(build_and_publish(refused, &registry).err(), Some(MetricsError::RegistrationConflict));
    assert_eq!(registry.gather().len(), 1);
}

fn options(name: &str, help: &str, buckets: Vec<f64>) -> HistogramOpts {
    HistogramOpts::new(name, help).buckets(buckets)
}

#[test]
fn install_takes_the_instrument_in_and_exposes_it() {
    let registry = Registry::new();
    let mut store = InstrumentRegistry::new();
    store.register(Instrument::counter("events", "all events").unwrap()).unwrap();
    let made = Instrument::histogram("latency", "request latency", vec![10, 20]).unwrap();
    let wanted = options("latency", "request latency", vec![0.01, 0.02]);
    let (handle, collector) = install(&mut store, &registry, made, wanted).unwrap();
    assert_eq!(handle, InstrumentHandle { index: 1, kind: InstrumentKind::Histogram });
    assert_eq!(store.len(), 2);
    assert_eq!(store.instrument(handle).unwrap().boundaries(), &vec![10, 20]);
    collector.observe(0.015);
    store.record(handle, Recording::Observation(Sample::Finite(15))).unwrap();
    let families = registry.gather();
    assert_eq!(families.len(), 1);
    let seen = families[0].get_metric()[0].get_histogram();
    assert_eq!(seen.get_sample_count(), store.instrument(handle).unwrap().samples());
    assert_eq!(seen.get_bucket()[0].get_cumulative_count(), 0);
    assert_eq!(seen.get_bucket()[1].get_cumulative_count(), 1);
    assert_eq!(store.instrument(handle).unwrap().counts(), &vec![0, 1, 0]);
}

#[test]
fn install_refuses_a_taken_name_before_anything_is_built() {
    let registry = Registry::new();
    let mut store = InstrumentRegistry::new();
    store.register(Instrument::counter("latency", "taken").unwrap()).unwrap();
    let made = Instrument::histogram("latency", "request latency", vec![10, 20]).unwrap();
    let wanted = options("latency", "request latency", vec![0.01, 0.02]);
    assert_eq!(
        install(&mut store, &registry, made, wanted).err(),
        Some(MetricsError::RegistrationConflict)
    );
    assert_eq!(store.len(), 1);
    assert_eq!(registry.gather().len(), 0);
}

#[test]
fn install_leaves_the_store_as_it_was_when_the_exposition_refuses() {
    let registry = Registry::new();
    let mut store = InstrumentRegistry::new();
    let unordered = options("latency", "request latency", vec![0.02, 0.01]);
    let made = Instrument::histogram("latency", "request latency", vec![10, 20]).unwrap();
    assert_eq!(
        install(&mut store, &registry, made, unordered).err(),
        Some(MetricsError::RegistrationConflict)
    );
    assert_eq!(store.len(), 0);
    publish_histogram(histogram("latency", "request latency", vec![1.0]), &registry).unwrap();
    let made = Instrument::histogram("latency", "request latency", vec![10, 20]).unwrap();
    let wanted = options("latency", "request latency", vec![0.01, 0.02]);
    assert_eq!(
        install(&mut store, &registry, made, wanted).err(),
        Some(MetricsError::RegistrationConflict)
    );
    assert_eq!(store.len(), 0);
    assert_eq!(store.find("latency"), None);
    let made = Instrument::histogram("other", "request latency", vec![10, 20]).unwrap();
    let wanted = options("other", "request latency", vec![0.01, 0.02]);
    assert!(install(&mut store, &registry, made, wanted).is_ok());
    assert_eq!(store.len(), 1);
}

#[test]
fn create_exposed_histogram_lays_out_registers_and_exposes() {
    let registry = Registry::new();
    let mut store = InstrumentRegistry::new();
    let spec = BucketSpec { start: 1, width: 2, count: 10 };
    let floats = vec![0.001, 0.002, 0.004, 0.008, 0.016, 0.032, 0.064, 0.128, 0.256, 0.512];
    let (handle, collector) = create_exposed_histogram(
        &mut store,
        &registry,
        "block_time",
        "time per block",
        spec,
        Strategy::Exponential,
        options("block_time", "time per block", floats),
    )
    .unwrap();
    assert_eq!(handle, InstrumentHandle { index: 0, kind: InstrumentKind::Histogram });
    assert_eq!(
        store.instrument(handle).unwrap().boundaries(),
        &vec![1, 2, 4, 8, 16, 32, 64, 128, 256, 512]
    );
    collector.observe(0.05);
    store.record(handle, Recording::Observation(Sample::Finite(50))).unwrap();
    let families = registry.gather();
    let seen = families[0].get_metric()[0].get_histogram();
    assert_eq!(seen.get_bucket()[5].get_cumulative_count(), 0);
    assert_eq!(seen.get_bucket()[6].get_cumulative_count(), 1);
    assert_eq!(store.instrument(handle).unwrap().counts()[6], 1);
}

#[test]
fn create_exposed_histogram_refuses_as_the_store_does_and_first() {
    let registry = Registry::new();
    let mut store = InstrumentRegistry::new();
    let good = BucketSpec { start: 1, width: 2, count: 3 };
    let bad = BucketSpec { start: 0, width: 2, count: 3 };
    let down = BucketSpec { start: 9, width: -1, count: 3 };
    let floats = || options("latency", "request latency", vec![1.0, 2.0, 4.0]);
    assert_eq!(
        create_exposed_histogram(&mut store, &registry, "latency", "h", bad, Strategy::Exponential, floats()).err(),
        Some(MetricsError::InvalidBucketSpec)
    );
    assert_eq!(
        create_exposed_histogram(&mut store, &registry, "latency", "h", down, Strategy::Linear, floats()).err(),
        Some(MetricsError::InvalidBucketSpec)
    );
    assert_eq!(
        create_exposed_histogram(&mut store, &registry, "la tency", "h", good, Strategy::Linear, floats()).err(),
        Some(MetricsError::RegistrationConflict)
    );
    assert_eq!(
        create_exposed_histogram(&mut store, &registry, "latency", "", good, Strategy::Linear, floats()).err(),
        Some(MetricsError::RegistrationConflict)
    );
    assert_eq!(store.len(), 0);
    assert_eq!(registry.gather().len(), 0);
    assert!(create_exposed_histogram(&mut store, &registry, "latency", "request latency", good, Strategy::Linear, floats()).is_ok());
    assert_eq!(
        create_exposed_histogram(&mut store, &registry, "latency", "request latency", good, Strategy::Linear, floats()).err(),
        Some(MetricsError::RegistrationConflict)
    );
    assert_eq!(store.len(), 1);
    assert_eq!(registry.gather().len(), 1);
}
