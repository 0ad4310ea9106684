//! The registry: the instruments of the process, each under a name of its
//! own, and the factory that builds histograms into it.

use crate::buckets::{histogram_boundaries, histogram_valid, layout, BucketSpec, Strategy};
use crate::error::MetricsError;
use crate::instrument::{
    lemma_outcome, valid_name, Instrument, InstrumentKind, InstrumentView, Recording,
};
use vstd::prelude::*;

verus! {

/// What a caller keeps of a registered instrument: its place in the
/// registry and its kind.
#[derive(Clone, Copy, Debug, PartialEq, Eq, Structural)]
pub struct InstrumentHandle {
    pub index: usize,
    pub kind: InstrumentKind,
}

/// Whether an instrument goes by `name`.
pub open spec fn has_name(s: Seq<InstrumentView>, name: Seq<char>) -> bool {
    exists|i: int| 0 <= i < s.len() && (#[trigger] s[i]).name == name
}

/// No two instruments go by one name.
pub open spec fn distinct_names(s: Seq<InstrumentView>) -> bool {
    forall|i: int, j: int|
        0 <= i < j < s.len() ==> (#[trigger] s[i]).name != (#[trigger] s[j]).name
}

/// What registering an instrument comes to: it is refused with
/// `RegistrationConflict` when an instrument already goes by its name, and
/// is otherwise appended.
pub open spec fn register_outcome(s: Seq<InstrumentView>, instrument: InstrumentView) -> Result<
    Seq<InstrumentView>,
    MetricsError,
> {
    if has_name(s, instrument.name) {
        Err(MetricsError::RegistrationConflict)
    } else {
        Ok(s.push(instrument))
    }
}

/// What a recording through a handle comes to: a value that is no finite
/// number is refused with `NonFiniteValue`; a handle that names no
/// instrument of the kind that the recording is meant for with
/// `UnknownInstrument`; any other recording is made on the instrument that
/// the handle names, and on no other.
pub open spec fn record_outcome(
    s: Seq<InstrumentView>,
    handle: InstrumentHandle,
    recording: Recording,
) -> Result<Seq<InstrumentView>, MetricsError> {
    if !recording.finite() {
        Err(MetricsError::NonFiniteValue)
    } else if handle.index >= s.len() || handle.kind != recording.kind() || s[handle.index as int].kind
        != recording.kind() {
        Err(MetricsError::UnknownInstrument)
    } else {
        Ok(s.update(handle.index as int, s[handle.index as int].after(recording)))
    }
}

/// What building a histogram into a registry comes to: parameters that give
/// no strictly increasing boundary sequence are refused with
/// `InvalidBucketSpec`; then a malformed name, an empty help text and a name
/// that is taken, with `RegistrationConflict`; otherwise a histogram with an empty
/// tally is appended.
pub open spec fn create_outcome(
    s: Seq<InstrumentView>,
    name: Seq<char>,
    help: Seq<char>,
    spec: BucketSpec,
    strategy: Strategy,
) -> Result<Seq<InstrumentView>, MetricsError> {
    if !histogram_valid(spec, strategy) {
        Err(MetricsError::InvalidBucketSpec)
    } else if !valid_name(name) || help.len() == 0 {
        Err(MetricsError::RegistrationConflict)
    } else {
        register_outcome(
            s,
            InstrumentView::fresh(name, help, InstrumentKind::Histogram, layout(spec, strategy)),
        )
    }
}

/// The instruments of the process, in the order in which they were
/// registered.
pub struct InstrumentRegistry {
    instruments: Vec<Instrument>,
}

impl View for InstrumentRegistry {
    type V = Seq<InstrumentView>;

    closed spec fn view(&self) -> Seq<InstrumentView> {
        self.instruments@.map_values(|i: Instrument| i@)
    }
}

impl InstrumentRegistry {
    /// Every instrument of a registry is well formed, and no two go by one
    /// name.
    #[verifier::type_invariant]
    pub open spec fn inv(self) -> bool {
        &&& distinct_names(self@)
        &&& forall|i: int| 0 <= i < self@.len() ==> (#[trigger] self@[i]).wf()
    }

    /// A registry without instruments.
    pub fn new() -> (r: InstrumentRegistry)
        ensures
            r@ == Seq::<InstrumentView>::empty(),
    {
        let r = InstrumentRegistry { instruments: Vec::new() };
        proof {
            assert(r@ =~= Seq::<InstrumentView>::empty());
        }
        r
    }

    /// The number of instruments.
    pub fn len(&self) -> (n: usize)
        ensures
            n == self@.len(),
    {
        self.instruments.len()
    }

    /// The handle of the instrument that goes by `name`.
    pub fn find(&self, name: &str) -> (r: Option<InstrumentHandle>)
        ensures
            r is Some <==> has_name(self@, name@),
            r is Some ==> r->Some_0.index < self@.len() && self@[r->Some_0.index as int].name
                == name@ && self@[r->Some_0.index as int].kind == r->Some_0.kind,
    {
        let wanted: String = name.to_owned();
        let mut i: usize = 0;
        while i < self.instruments.len()
            invariant
                i <= self.instruments.len(),
                wanted@ == name@,
                forall|k: int| 0 <= k < i ==> (#[trigger] self@[k]).name != name@,
            decreases self.instruments.len() - i,
        {
            if self.instruments[i].is_named(&wanted) {
                return Some(InstrumentHandle { index: i, kind: self.instruments[i].kind() });
            }
            i += 1;
        }
        None
    }

    /// Takes an instrument in under its name, at the end of the registry.
    ///
    /// Fails with `RegistrationConflict`, and leaves the registry as it is,
    /// exactly when an instrument already goes by that name.
    pub fn register(&mut self, instrument: Instrument) -> (r: Result<
        InstrumentHandle,
        MetricsError,
    >)
        ensures
            match register_outcome(old(self)@, instrument@) {
                Ok(s) => r is Ok && r->Ok_0.index == old(self)@.len() && r->Ok_0.kind
                    == instrument@.kind && final(self)@ == s,
                Err(e) => r == Err::<InstrumentHandle, MetricsError>(e) && final(self)@ == old(self)@,
            },
    {
        proof {
            use_type_invariant(&*self);
            use_type_invariant(&instrument);
        }
        match self.find(instrument.name()) {
            Some(_) => Err(MetricsError::RegistrationConflict),
            None => {
                let handle = InstrumentHandle {
                    index: self.instruments.len(),
                    kind: instrument.kind(),
                };
                let ghost added = instrument@;
                let mut all: Vec<Instrument> = Vec::new();
                std::mem::swap(&mut self.instruments, &mut all);
                all.push(instrument);
                proof {
                    let before = old(self)@;
                    let after = all@.map_values(|i: Instrument| i@);
                    assert(after =~= before.push(added));
                    assert forall|i: int, j: int| 0 <= i < j < after.len() implies (#[trigger] after[i]).name
                        != (#[trigger] after[j]).name by {
                        if j == before.len() {
                            assert(before[i].name != added.name);
                        } else {
                            assert(before[i].name != before[j].name);
                        }
                    }
                    assert forall|i: int| 0 <= i < after.len() implies (#[trigger] after[i]).wf() by {
                        if i < before.len() {
                            assert(before[i].wf());
                        }
                    }
                }
                self.instruments = all;
                proof {
                    assert(self@ =~= old(self)@.push(added));
                }
                Ok(handle)
            },
        }
    }

    /// The instrument that a handle names, if it names one of its kind.
    pub fn instrument(&self, handle: InstrumentHandle) -> (r: Option<&Instrument>)
        ensures
            r is Some <==> handle.index < self@.len() && self@[handle.index as int].kind
                == handle.kind,
            r is Some ==> r->Some_0@ == self@[handle.index as int],
    {
        if handle.index < self.instruments.len() {
            let found = &self.instruments[handle.index];
            if found.kind() == handle.kind {
                return Some(found);
            }
        }
        None
    }

    /// Makes a recording on the instrument that a handle names, or refuses
    /// it and leaves the registry as it is.
    pub fn record(&mut self, handle: InstrumentHandle, recording: Recording) -> (r: Result<
        (),
        MetricsError,
    >)
        ensures
            match record_outcome(old(self)@, handle, recording) {
                Ok(s) => r is Ok && final(self)@ == s,
                Err(e) => r == Err::<(), MetricsError>(e) && final(self)@ == old(self)@,
            },
    {
        proof {
            use_type_invariant(&*self);
        }
        if !recording.is_finite() {
            return Err(MetricsError::NonFiniteValue);
        }
        if handle.index >= self.instruments.len() || handle.kind
            != self.instruments[handle.index].kind() {
            return Err(MetricsError::UnknownInstrument);
        }
        let ghost before = self@;
        let mut all: Vec<Instrument> = Vec::new();
        std::mem::swap(&mut self.instruments, &mut all);
        let r = all[handle.index].record(recording);
        proof {
            let after = all@.map_values(|i: Instrument| i@);
            let target = before[handle.index as int];
            lemma_outcome(target, recording);
            if r is Ok {
                assert(after =~= before.update(handle.index as int, target.after(recording)));
                assert forall|i: int, j: int| 0 <= i < j < after.len() implies (#[trigger] after[i]).name
                    != (#[trigger] after[j]).name by {
                    assert(before[i].name != before[j].name);
                }
                assert forall|i: int| 0 <= i < after.len() implies (#[trigger] after[i]).wf() by {
                    assert(before[i].wf());
                }
            } else {
                assert(after =~= before);
            }
        }
        self.instruments = all;
        r
    }
}

/// Builds a histogram whose boundaries the strategy lays out from `spec`,
/// and registers it under `name`.
pub fn create_histogram(
    registry: &mut InstrumentRegistry,
    name: &str,
    help: &str,
    spec: BucketSpec,
    strategy: Strategy,
) -> (r: Result<InstrumentHandle, MetricsError>)
    ensures
        match create_outcome(old(registry)@, name@, help@, spec, strategy) {
            Ok(s) => r is Ok && r->Ok_0.index == old(registry)@.len() && r->Ok_0.kind
                == InstrumentKind::Histogram && final(registry)@ == s,
            Err(e) => r == Err::<InstrumentHandle, MetricsError>(e) && final(registry)@ == old(registry)@,
        },
{
    let boundaries = match histogram_boundaries(spec, strategy) {
        Ok(b) => b,
        Err(e) => {
            return Err(e);
        },
    };
    let made = match Instrument::histogram(name, help, boundaries) {
        Ok(i) => i,
        Err(e) => {
            return Err(e);
        },
    };
    registry.register(made)
}

/// Builds a histogram with exponential boundaries, the first at `start` and
/// each following one `width` times the one before it, and registers it
/// under `name`.
pub fn exp_histogram(
    registry: &mut InstrumentRegistry,
    name: &str,
    help: &str,
    start: i64,
    width: i64,
    count: usize,
) -> (r: Result<InstrumentHandle, MetricsError>)
    ensures
        match create_outcome(
            old(registry)@,
            name@,
            help@,
            BucketSpec { start, width, count },
            Strategy::Exponential,
        ) {
            Ok(s) => r is Ok && r->Ok_0.index == old(registry)@.len() && r->Ok_0.kind
                == InstrumentKind::Histogram && final(registry)@ == s,
            Err(e) => r == Err::<InstrumentHandle, MetricsError>(e) && final(registry)@ == old(registry)@,
        },
{
    create_histogram(registry, name, help, BucketSpec { start, width, count }, Strategy::Exponential)
}

/// Builds a histogram with linear boundaries, the `i`-th of them at
/// `start + width * i`, and registers it under `name`.
pub fn linear_histogram(
    registry: &mut InstrumentRegistry,
    name: &str,
    help: &str,
    start: i64,
    width: i64,
    count: usize,
) -> (r: Result<InstrumentHandle, MetricsError>)
    ensures
        match create_outcome(
            old(registry)@,
            name@,
            help@,
            BucketSpec { start, width, count },
            Strategy::Linear,
        ) {
            Ok(s) => r is Ok && r->Ok_0.index == old(registry)@.len() && r->Ok_0.kind
                == InstrumentKind::Histogram && final(registry)@ == s,
            Err(e) => r == Err::<InstrumentHandle, MetricsError>(e) && final(registry)@ == old(registry)@,
        },
{
    create_histogram(registry, name, help, BucketSpec { start, width, count }, Strategy::Linear)
}

/// Of two instruments registered one after the other under one name that
/// was free, the first is taken in and the second is refused with
/// `RegistrationConflict`.
pub proof fn lemma_second_registration_conflicts(
    s: Seq<InstrumentView>,
    first: InstrumentView,
    second: InstrumentView,
)
    requires
        !has_name(s, first.name),
        second.name == first.name,
    ensures
        register_outcome(s, first) == Ok::<Seq<InstrumentView>, MetricsError>(s.push(first)),
        register_outcome(s.push(first), second) == Err::<Seq<InstrumentView>, MetricsError>(
            MetricsError::RegistrationConflict,
        ),
{
    assert(s.push(first)[s.len() as int].name == second.name);
}

/// Registering keeps the names of a registry distinct, and changes no
/// instrument that was there.
pub proof fn lemma_register_keeps_names_distinct(s: Seq<InstrumentView>, instrument: InstrumentView)
    requires
        distinct_names(s),
        register_outcome(s, instrument) is Ok,
    ensures
        distinct_names(register_outcome(s, instrument)->Ok_0),
        forall|i: int|
            0 <= i < s.len() ==> #[trigger] register_outcome(s, instrument)->Ok_0[i] == s[i],
{
    let after = s.push(instrument);
    assert forall|i: int, j: int| 0 <= i < j < after.len() implies (#[trigger] after[i]).name
        != (#[trigger] after[j]).name by {
        if j == s.len() {
            assert(s[i].name != instrument.name);
        } else {
            assert(s[i].name != s[j].name);
        }
    }
}

/// A recording of a value that is no finite number is refused whatever the
/// handle. A recording that is made changes the one instrument that the
/// handle names and no other: that instrument keeps its name, kind and
/// boundaries, and neither its total nor the tally of any of its buckets
/// goes down. The registry keeps its length, its names and their
/// distinctness.
pub proof fn lemma_record_outcome(
    s: Seq<InstrumentView>,
    handle: InstrumentHandle,
    recording: Recording,
)
    requires
        forall|i: int| 0 <= i < s.len() ==> (#[trigger] s[i]).wf(),
    ensures
        !recording.finite() ==> record_outcome(s, handle, recording) == Err::<
            Seq<InstrumentView>,
            MetricsError,
        >(MetricsError::NonFiniteValue),
        record_outcome(s, handle, recording) is Ok ==> {
            let after = record_outcome(s, handle, recording)->Ok_0;
            let at = handle.index as int;
            &&& after.len() == s.len()
            &&& 0 <= at < s.len()
            &&& after[at] == s[at].after(recording)
            &&& after[at].total >= s[at].total
            &&& after[at].counts.len() == s[at].counts.len()
            &&& forall|k: int|
                0 <= k < s[at].counts.len() ==> #[trigger] after[at].counts[k] >= s[at].counts[k]
            &&& forall|i: int| 0 <= i < s.len() && i != at ==> #[trigger] after[i] == s[i]
            &&& forall|i: int|
                0 <= i < s.len() ==> (#[trigger] after[i]).name == s[i].name && after[i].kind
                    == s[i].kind && after[i].boundaries == s[i].boundaries && after[i].wf()
            &&& distinct_names(s) ==> distinct_names(after)
        },
{
    if record_outcome(s, handle, recording) is Ok {
        let after = record_outcome(s, handle, recording)->Ok_0;
        let at = handle.index as int;
        lemma_outcome(s[at], recording);
        assert forall|i: int| 0 <= i < s.len() implies (#[trigger] after[i]).name == s[i].name
            && after[i].kind == s[i].kind && after[i].boundaries == s[i].boundaries
            && after[i].wf() by {
            assert(s[i].wf());
        }
        if distinct_names(s) {
            assert forall|i: int, j: int| 0 <= i < j < after.len() implies (
            #[trigger] after[i]).name != (#[trigger] after[j]).name by {
                assert(s[i].name != s[j].name);
            }
        }
    }
}

/// Of two histograms built one after the other under one name into one
/// registry, the first is taken in with all of its boundaries and the second
/// is refused, whichever of the two comes first: the registry then holds
/// the first under that name and nothing of the second.
pub proof fn lemma_second_histogram_refused(
    s: Seq<InstrumentView>,
    name: Seq<char>,
    first_help: Seq<char>,
    first_spec: BucketSpec,
    first_strategy: Strategy,
    second_help: Seq<char>,
    second_spec: BucketSpec,
    second_strategy: Strategy,
)
    requires
        create_outcome(s, name, first_help, first_spec, first_strategy) is Ok,
    ensures
        create_outcome(s, name, first_help, first_spec, first_strategy)->Ok_0 == s.push(
            InstrumentView::fresh(
                name,
                first_help,
                InstrumentKind::Histogram,
                layout(first_spec, first_strategy),
            ),
        ),
        create_outcome(
            create_outcome(s, name, first_help, first_spec, first_strategy)->Ok_0,
            name,
            second_help,
            second_spec,
            second_strategy,
        ) is Err,
        histogram_valid(second_spec, second_strategy) ==> create_outcome(
            create_outcome(s, name, first_help, first_spec, first_strategy)->Ok_0,
            name,
            second_help,
            second_spec,
            second_strategy,
        ) == Err::<Seq<InstrumentView>, MetricsError>(MetricsError::RegistrationConflict),
{
    let made = InstrumentView::fresh(
        name,
        first_help,
        InstrumentKind::Histogram,
        layout(first_spec, first_strategy),
    );
    assert(s.push(made)[s.len() as int].name == name);
}

} // verus!
