//! The exposition registry: where an instrument is made visible to whatever
//! collects the metrics of the process from outside.

use crate::buckets::{histogram_boundaries, BucketSpec, Strategy};
use crate::error::{BackendFault, MetricsError};
use crate::instrument::{Instrument, InstrumentKind};
use crate::registry::{create_outcome, has_name, InstrumentHandle, InstrumentRegistry};
use substrate_prometheus_endpoint::{Histogram, HistogramOpts, PrometheusError};
use vstd::prelude::*;

verus! {

/// `prometheus::Histogram`, as `substrate_prometheus_endpoint` exports it:
/// a histogram of the exposition registry. It is carried through, never
/// looked into.
#[verifier::external_type_specification]
#[verifier::external_body]
pub struct ExHistogram(Histogram);

/// `prometheus::HistogramOpts`, as `substrate_prometheus_endpoint` exports
/// it: the name, the help text and the buckets that a histogram of the
/// exposition registry is built from. It is carried through, never looked
/// into.
#[verifier::external_type_specification]
#[verifier::external_body]
pub struct ExHistogramOpts(HistogramOpts);

/// `prometheus::Registry`, as `substrate_prometheus_endpoint` exports it:
/// the exposition registry. It is carried through, never looked into.
#[verifier::external_type_specification]
#[verifier::external_body]
pub struct ExExpositionRegistry(substrate_prometheus_endpoint::Registry);

/// `prometheus::Error`, as `substrate_prometheus_endpoint` exports it under
/// the name `PrometheusError`. It is carried through, never looked into.
#[verifier::external_type_specification]
#[verifier::external_body]
pub struct ExPrometheusError(PrometheusError);

/// The ways in which the exposition registry refuses a collector.
#[derive(Clone, Copy, Debug, PartialEq, Eq, Structural)]
pub enum RegistryFailure {
    /// A collector with the same descriptors is registered already.
    AlreadyRegistered,
    /// The number of label values did not match the number of labels.
    InconsistentCardinality,
    /// The descriptor was refused with a message: it disagrees with one
    /// registered under the same name, or occurs twice in the collector.
    Message,
    /// An input or output error.
    Io,
}

/// The error that a refusal of the exposition registry is reported as: a
/// duplicate and a refused descriptor are a `RegistrationConflict`, every
/// other failure is handed on as it is.
pub open spec fn reported_as(failure: RegistryFailure) -> MetricsError {
    match failure {
        RegistryFailure::AlreadyRegistered => MetricsError::RegistrationConflict,
        RegistryFailure::Message => MetricsError::RegistrationConflict,
        RegistryFailure::InconsistentCardinality => MetricsError::Backend(
            BackendFault::InconsistentCardinality,
        ),
        RegistryFailure::Io => MetricsError::Backend(BackendFault::Io),
    }
}

/// Calls `substrate_prometheus_endpoint::register`, which registers a clone
/// of the collector with the registry and returns the collector, or returns
/// the error of the registry. The claim: a histogram that comes back is the
/// one that was given. Whether the registry accepts it depends on what the
/// registry holds, of which nothing is claimed.
#[verifier::external_body]
fn register_collector(
    histogram: Histogram,
    registry: &substrate_prometheus_endpoint::Registry,
) -> (r: Result<Histogram, PrometheusError>)
    ensures
        r is Ok ==> r->Ok_0 == histogram,
{
    substrate_prometheus_endpoint::register(histogram, registry)
}

/// Calls `prometheus::Histogram::with_opts`, which
/// `substrate_prometheus_endpoint` exports: it builds a histogram from its
/// options, or returns an error where the name, the help text, a label or
/// the buckets are refused. The claims: it fails exactly on the options
/// that `refusal` names, which depends on the options alone, and the error
/// is then of the kind that `refusal` gives.
#[verifier::external_body]
fn collector_from(options: HistogramOpts) -> (r: Result<Histogram, PrometheusError>)
    ensures
        r is Err <==> refusal(options) is Some,
        r is Err ==> refusal(options) == Some(failure_kind(r->Err_0)),
{
    Histogram::with_opts(options)
}

/// The way of refusing that an error of the exposition registry stands
/// for: the variant of `prometheus::Error` that it is.
pub uninterp spec fn failure_kind(error: PrometheusError) -> RegistryFailure;

/// Whether, and in which way, options are refused when a histogram is built
/// from them: `None` where it is built. Options are refused for an empty
/// help text, a name or label outside the rule for names, and buckets that
/// are not strictly increasing, each with a message.
pub uninterp spec fn refusal(options: HistogramOpts) -> Option<RegistryFailure>;

/// Tells the variants of `prometheus::Error` apart, which
/// `substrate_prometheus_endpoint` exports as `PrometheusError`. The claim:
/// the answer is the variant that the error is, which depends on the error
/// alone.
#[verifier::external_body]
fn failure_of(error: &PrometheusError) -> (r: RegistryFailure)
    ensures
        r == failure_kind(*error),
{
    match error {
        PrometheusError::AlreadyReg => RegistryFailure::AlreadyRegistered,
        PrometheusError::InconsistentCardinality { .. } => RegistryFailure::InconsistentCardinality,
        PrometheusError::Msg(_) => RegistryFailure::Message,
        PrometheusError::Io(_) => RegistryFailure::Io,
    }
}

/// The error that a refusal of the exposition registry is reported as.
pub fn registration_error(failure: RegistryFailure) -> (e: MetricsError)
    ensures
        e == reported_as(failure),
{
    match failure {
        RegistryFailure::AlreadyRegistered => MetricsError::RegistrationConflict,
        RegistryFailure::Message => MetricsError::RegistrationConflict,
        RegistryFailure::InconsistentCardinality => MetricsError::Backend(
            BackendFault::InconsistentCardinality,
        ),
        RegistryFailure::Io => MetricsError::Backend(BackendFault::Io),
    }
}

/// The error that a failure of the exposition registry, or of building a
/// collector for it, is reported as.
pub fn report(error: &PrometheusError) -> (e: MetricsError)
    ensures
        e == reported_as(failure_kind(*error)),
        e.is_construction_error(),
{
    registration_error(failure_of(error))
}

/// Registers a histogram with the exposition registry and hands it back for
/// recording.
///
/// Whether the registry accepts the histogram is for the registry to say. A
/// refusal is reported as `RegistrationConflict` or handed on as a
/// `Backend` failure, never swallowed.
pub fn publish_histogram(
    histogram: Histogram,
    registry: &substrate_prometheus_endpoint::Registry,
) -> (r: Result<Histogram, MetricsError>)
    ensures
        r is Ok ==> r->Ok_0 == histogram,
        r is Err ==> exists|failure: RegistryFailure| r->Err_0 == #[trigger] reported_as(failure),
        r is Err ==> r->Err_0.is_construction_error(),
{
    match register_collector(histogram, registry) {
        Ok(registered) => Ok(registered),
        Err(error) => Err(report(&error)),
    }
}

/// Builds a histogram of the exposition registry from its options.
///
/// Fails exactly on the options that are refused, with the refusal
/// reported as `RegistrationConflict` or handed on as a `Backend` failure.
/// A refusal comes with a message that does not say what was refused, so
/// buckets out of order in the options are reported as a malformed
/// descriptor; boundaries laid out by a strategy are tested before, by
/// `histogram_boundaries`.
pub fn build_histogram(options: HistogramOpts) -> (r: Result<Histogram, MetricsError>)
    ensures
        r is Err <==> refusal(options) is Some,
        r is Err ==> r->Err_0 == reported_as(refusal(options)->Some_0),
        r is Err ==> r->Err_0.is_construction_error(),
{
    match collector_from(options) {
        Ok(built) => Ok(built),
        Err(error) => Err(report(&error)),
    }
}

/// Builds a histogram from its options, registers it with the exposition
/// registry and hands it back for recording.
///
/// Options that are refused fail before the registry is asked, with the
/// refusal reported; whether the registry then accepts the histogram is for
/// the registry to say.
pub fn build_and_publish(
    options: HistogramOpts,
    registry: &substrate_prometheus_endpoint::Registry,
) -> (r: Result<Histogram, MetricsError>)
    ensures
        refusal(options) is Some ==> r is Err && r->Err_0 == reported_as(
            refusal(options)->Some_0,
        ),
        r is Ok ==> refusal(options) is None,
        r is Err ==> exists|failure: RegistryFailure| r->Err_0 == #[trigger] reported_as(failure),
        r is Err ==> r->Err_0.is_construction_error(),
{
    match build_histogram(options) {
        Ok(built) => publish_histogram(built, registry),
        Err(e) => Err(e),
    }
}

/// Takes an instrument into the store and exposes a histogram for it, both
/// or neither.
///
/// A name that the store holds already fails with `RegistrationConflict`
/// before anything is built. Then the histogram is built from the options
/// and registered with the exposition registry; a refusal is reported and
/// leaves the store as it was. Only then is the instrument taken into the
/// store, at its end.
pub fn install(
    instruments: &mut InstrumentRegistry,
    registry: &substrate_prometheus_endpoint::Registry,
    made: Instrument,
    options: HistogramOpts,
) -> (r: Result<(InstrumentHandle, Histogram), MetricsError>)
    ensures
        has_name(old(instruments)@, made@.name) ==> r is Err && r->Err_0
            == MetricsError::RegistrationConflict,
        !has_name(old(instruments)@, made@.name) && refusal(options) is Some ==> r is Err
            && r->Err_0 == reported_as(refusal(options)->Some_0),
        r is Err ==> final(instruments)@ == old(instruments)@,
        r is Err ==> exists|failure: RegistryFailure| r->Err_0 == #[trigger] reported_as(failure),
        r is Ok ==> !has_name(old(instruments)@, made@.name) && refusal(options) is None,
        r is Ok ==> final(instruments)@ == old(instruments)@.push(made@),
        r is Ok ==> r->Ok_0.0.index == old(instruments)@.len() && r->Ok_0.0.kind == made@.kind,
{
    if instruments.find(made.name()).is_some() {
        proof {
            assert(reported_as(RegistryFailure::AlreadyRegistered)
                == MetricsError::RegistrationConflict);
        }
        return Err(MetricsError::RegistrationConflict);
    }
    let collector = match build_and_publish(options, registry) {
        Ok(c) => c,
        Err(e) => {
            return Err(e);
        },
    };
    match instruments.register(made) {
        Ok(handle) => Ok((handle, collector)),
        Err(e) => {
            proof {
                assert(reported_as(RegistryFailure::AlreadyRegistered)
                    == MetricsError::RegistrationConflict);
            }
            Err(e)
        },
    }
}

/// Builds a histogram whose boundaries the strategy lays out from `spec`,
/// registers it under `name` in the store, and exposes the histogram built
/// from `options` for it, both or neither.
///
/// Whatever `create_histogram` refuses is refused here in the same way,
/// before anything is built from the options.
pub fn create_exposed_histogram(
    instruments: &mut InstrumentRegistry,
    registry: &substrate_prometheus_endpoint::Registry,
    name: &str,
    help: &str,
    spec: BucketSpec,
    strategy: Strategy,
    options: HistogramOpts,
) -> (r: Result<(InstrumentHandle, Histogram), MetricsError>)
    ensures
        match create_outcome(old(instruments)@, name@, help@, spec, strategy) {
            Err(e) => r is Err && r->Err_0 == e,
            Ok(s) => {
                &&& refusal(options) is Some ==> r is Err && r->Err_0 == reported_as(
                    refusal(options)->Some_0,
                )
                &&& r is Ok ==> refusal(options) is None && final(instruments)@ == s
                    && r->Ok_0.0.index == old(instruments)@.len() && r->Ok_0.0.kind
                    == InstrumentKind::Histogram
            },
        },
        r is Err ==> final(instruments)@ == old(instruments)@,
{
    let boundaries = match histogram_boundaries(spec, strategy) {
        Ok(b) => b,
        Err(e) => {
            return Err(e);
        },
    };
    let made = match Instrument::histogram(name, help, boundaries) {
        Ok(i) => i,
        Err(e) => {
            return Err(e);
        },
    };
    install(instruments, registry, made, options)
}

} // verus!
