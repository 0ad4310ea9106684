//! The errors of the metrics layer.

use vstd::prelude::*;

verus! {

/// A failure that the exposition registry reports and that is no name
/// collision.
#[derive(Clone, Copy, Debug, PartialEq, Eq, Structural)]
pub enum BackendFault {
    /// The number of label values did not match the number of labels.
    InconsistentCardinality,
    /// An input or output error below the registry.
    Io,
}

/// Everything that can go wrong while instruments are built, registered and
/// written to.
#[derive(Clone, Copy, Debug, PartialEq, Eq, Structural)]
pub enum MetricsError {
    /// The bucket parameters give no usable boundary sequence.
    InvalidBucketSpec,
    /// The name is taken, or the descriptor is malformed.
    RegistrationConflict,
    /// A failure of the exposition registry, handed on unchanged.
    Backend(BackendFault),
    /// The global cell already holds a metrics set.
    AlreadyInitialized,
    /// No instrument of the wanted kind is bound under the name.
    UnknownInstrument,
    /// The value was not a finite number and was not recorded.
    NonFiniteValue,
}

impl MetricsError {
    /// Whether the error only reports that somebody else was first.
    pub open spec fn spec_is_benign(self) -> bool {
        self == MetricsError::AlreadyInitialized
    }

    /// Whether the error arises while instruments are built, where it stops
    /// the start of the process.
    pub open spec fn spec_is_construction_error(self) -> bool {
        self == MetricsError::InvalidBucketSpec || self == MetricsError::RegistrationConflict
            || self is Backend
    }

    /// Whether the error arises while a value is recorded, where it is
    /// dropped and never stops the caller.
    pub open spec fn spec_is_recording_error(self) -> bool {
        self == MetricsError::UnknownInstrument || self == MetricsError::NonFiniteValue
    }

    #[verifier::when_used_as_spec(spec_is_benign)]
    pub fn is_benign(self) -> (b: bool)
        ensures
            b == self.spec_is_benign(),
    {
        match self {
            MetricsError::AlreadyInitialized => true,
            _ => false,
        }
    }

    #[verifier::when_used_as_spec(spec_is_construction_error)]
    pub fn is_construction_error(self) -> (b: bool)
        ensures
            b == self.spec_is_construction_error(),
    {
        match self {
            MetricsError::InvalidBucketSpec => true,
            MetricsError::RegistrationConflict => true,
            MetricsError::Backend(_) => true,
            _ => false,
        }
    }

    #[verifier::when_used_as_spec(spec_is_recording_error)]
    pub fn is_recording_error(self) -> (b: bool)
        ensures
            b == self.spec_is_recording_error(),
    {
        match self {
            MetricsError::UnknownInstrument => true,
            MetricsError::NonFiniteValue => true,
            _ => false,
        }
    }
}

/// Every error belongs to exactly one of the three classes.
pub proof fn lemma_error_classes_partition(e: MetricsError)
    ensures
        e.spec_is_benign() || e.spec_is_construction_error() || e.spec_is_recording_error(),
        !(e.spec_is_benign() && e.spec_is_construction_error()),
        !(e.spec_is_benign() && e.spec_is_recording_error()),
        !(e.spec_is_construction_error() && e.spec_is_recording_error()),
{
}

} // verus!
