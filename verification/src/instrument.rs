//! Instruments: named measurement sinks and what they hold.

use crate::buckets::{
    bucket_index, bucket_of, is_strictly_increasing, lemma_bucket_of, representable, ticks,
    usable_boundaries,
};
use crate::error::MetricsError;
use vstd::prelude::*;

verus! {

/// The kinds of instrument.
#[derive(Clone, Copy, Debug, PartialEq, Eq, Structural)]
pub enum InstrumentKind {
    /// A total that only grows.
    Counter,
    /// A level that is set to the latest value.
    Gauge,
    /// A tally of observations per bucket.
    Histogram,
}

/// A measured value as it reaches an adapter: a finite number of ticks, or
/// one of the values that are no finite number.
#[derive(Clone, Copy, Debug, PartialEq, Eq, Structural)]
pub enum Sample {
    Finite(i64),
    NotANumber,
    PositiveInfinity,
    NegativeInfinity,
}

impl Sample {
    #[verifier::when_used_as_spec(spec_is_finite)]
    pub fn is_finite(self) -> (b: bool)
        ensures
            b == (self is Finite),
    {
        match self {
            Sample::Finite(_) => true,
            _ => false,
        }
    }

    pub open spec fn spec_is_finite(self) -> bool {
        self is Finite
    }
}

/// One recording: what is written, and to which kind of instrument.
#[derive(Clone, Copy, Debug, PartialEq, Eq, Structural)]
pub enum Recording {
    /// Add to the total of a counter.
    Increase(u64),
    /// Set the level of a gauge.
    Level(Sample),
    /// Tally a value in a histogram.
    Observation(Sample),
}

impl Recording {
    /// The kind of instrument that the recording is meant for.
    pub open spec fn kind(self) -> InstrumentKind {
        match self {
            Recording::Increase(_) => InstrumentKind::Counter,
            Recording::Level(_) => InstrumentKind::Gauge,
            Recording::Observation(_) => InstrumentKind::Histogram,
        }
    }

    /// Whether the value to record is a finite number.
    pub open spec fn finite(self) -> bool {
        match self {
            Recording::Increase(_) => true,
            Recording::Level(v) => v is Finite,
            Recording::Observation(v) => v is Finite,
        }
    }

    /// Whether the value to record is a finite number.
    pub fn is_finite(self) -> (b: bool)
        ensures
            b == self.finite(),
    {
        match self {
            Recording::Increase(_) => true,
            Recording::Level(v) => v.is_finite(),
            Recording::Observation(v) => v.is_finite(),
        }
    }
}

/// Whether a character may stand first in a name: a letter of the ASCII
/// alphabet, `_` or `:`.
pub open spec fn name_start(c: char) -> bool {
    ('a' <= c && c <= 'z') || ('A' <= c && c <= 'Z') || c == '_' || c == ':'
}

/// Whether a character may stand in a name after the first: what may stand
/// first, or an ASCII digit.
pub open spec fn name_part(c: char) -> bool {
    name_start(c) || ('0' <= c && c <= '9')
}

/// Whether a name is well formed: it is not empty, begins with a letter of
/// the ASCII alphabet, `_` or `:`, and goes on with these and ASCII digits
/// only. This is the rule for metric names of the exposition format.
pub open spec fn valid_name(name: Seq<char>) -> bool {
    &&& name.len() > 0
    &&& name_start(name[0])
    &&& forall|i: int| 0 < i < name.len() ==> name_part(#[trigger] name[i])
}

/// Whether a name is well formed.
pub fn is_valid_name(name: &str) -> (b: bool)
    ensures
        b == valid_name(name@),
{
    let n: usize = name.unicode_len();
    if n == 0 {
        return false;
    }
    let first: char = name.get_char(0);
    if !(('a' <= first && first <= 'z') || ('A' <= first && first <= 'Z') || first == '_' || first
        == ':') {
        return false;
    }
    let mut i: usize = 1;
    while i < n
        invariant
            1 <= i <= n,
            n == name@.len(),
            forall|k: int| 0 < k < i ==> name_part(#[trigger] name@[k]),
        decreases n - i,
    {
        let c: char = name.get_char(i);
        if !(('a' <= c && c <= 'z') || ('A' <= c && c <= 'Z') || c == '_' || c == ':' || ('0' <= c
            && c <= '9')) {
            return false;
        }
        i += 1;
    }
    true
}

/// What an instrument is and holds, as mathematical values.
pub struct InstrumentView {
    pub name: Seq<char>,
    pub help: Seq<char>,
    pub kind: InstrumentKind,
    /// The total of a counter; zero for the other kinds.
    pub total: nat,
    /// The level of a gauge; zero for the other kinds.
    pub level: int,
    /// The boundaries of a histogram; empty for the other kinds.
    pub boundaries: Seq<int>,
    /// The tally of a histogram, one entry per boundary and a last one for
    /// the overflow bucket; empty for the other kinds.
    pub counts: Seq<nat>,
    /// How many values a histogram has observed; zero for the other kinds.
    pub samples: nat,
    /// The sum of the values that a histogram has observed; zero for the
    /// other kinds.
    pub sum: int,
}

/// The largest total and the largest tally that an instrument holds: both
/// stop growing there.
pub open spec fn ceiling() -> nat {
    u64::MAX as nat
}

/// `a + b`, stopped at the ceiling.
pub open spec fn capped_sum(a: nat, b: nat) -> nat {
    if a + b <= ceiling() {
        a + b
    } else {
        ceiling()
    }
}

impl InstrumentView {
    /// What every instrument satisfies.
    pub open spec fn wf(self) -> bool {
        &&& valid_name(self.name)
        &&& self.help.len() > 0
        &&& self.total <= ceiling()
        &&& i64::MIN <= self.level <= i64::MAX
        &&& forall|k: int| 0 <= k < self.counts.len() ==> #[trigger] self.counts[k] <= ceiling()
        &&& forall|k: int|
            0 <= k < self.boundaries.len() ==> representable(#[trigger] self.boundaries[k])
        &&& self.samples <= ceiling()
        &&& -(self.samples * 0x8000_0000_0000_0000) <= self.sum <= self.samples
            * 0x7fff_ffff_ffff_ffff
        &&& self.kind != InstrumentKind::Counter ==> self.total == 0
        &&& self.kind != InstrumentKind::Gauge ==> self.level == 0
        &&& self.kind != InstrumentKind::Histogram ==> self.samples == 0
        &&& if self.kind == InstrumentKind::Histogram {
            usable_boundaries(self.boundaries) && self.counts.len() == self.boundaries.len() + 1
        } else {
            self.boundaries.len() == 0 && self.counts.len() == 0
        }
    }

    /// An instrument to which nothing was recorded yet.
    pub open spec fn fresh(
        name: Seq<char>,
        help: Seq<char>,
        kind: InstrumentKind,
        boundaries: Seq<int>,
    ) -> InstrumentView {
        InstrumentView {
            name,
            help,
            kind,
            total: 0,
            level: 0,
            boundaries: if kind == InstrumentKind::Histogram {
                boundaries
            } else {
                Seq::empty()
            },
            counts: if kind == InstrumentKind::Histogram {
                Seq::new(boundaries.len() + 1, |k: int| 0nat)
            } else {
                Seq::empty()
            },
            samples: 0,
            sum: 0,
        }
    }

    /// The instrument after `delta` was added to its total.
    pub open spec fn after_increase(self, delta: nat) -> InstrumentView {
        InstrumentView { total: capped_sum(self.total, delta), ..self }
    }

    /// The instrument after its level was set to `value`.
    pub open spec fn after_level(self, value: int) -> InstrumentView {
        InstrumentView { level: value, ..self }
    }

    /// The instrument after `value` was observed: it is tallied in the
    /// bucket it falls into, counted as one more sample, and added to the
    /// sum. A histogram that has counted samples up to the ceiling counts
    /// no more of them and leaves its sum as it is.
    pub open spec fn after_observe(self, value: int) -> InstrumentView {
        let b = bucket_of(self.boundaries, value);
        InstrumentView {
            counts: self.counts.update(b, capped_sum(self.counts[b], 1)),
            samples: capped_sum(self.samples, 1),
            sum: if self.samples < ceiling() {
                self.sum + value
            } else {
                self.sum
            },
            ..self
        }
    }

    /// The instrument after a recording of its kind with a finite value.
    pub open spec fn after(self, recording: Recording) -> InstrumentView {
        match recording {
            Recording::Increase(delta) => self.after_increase(delta as nat),
            Recording::Level(Sample::Finite(v)) => self.after_level(v as int),
            Recording::Observation(Sample::Finite(v)) => self.after_observe(v as int),
            _ => self,
        }
    }

    /// What a recording comes to: a value that is no finite number is
    /// refused with `NonFiniteValue`, whatever the instrument; a finite
    /// value meant for another kind with `UnknownInstrument`; any other
    /// recording is made.
    pub open spec fn outcome(self, recording: Recording) -> Result<InstrumentView, MetricsError> {
        if !recording.finite() {
            Err(MetricsError::NonFiniteValue)
        } else if self.kind != recording.kind() {
            Err(MetricsError::UnknownInstrument)
        } else {
            Ok(self.after(recording))
        }
    }
}

/// A named measurement sink of one kind, with what was recorded to it.
pub struct Instrument {
    name: String,
    help: String,
    kind: InstrumentKind,
    total: u64,
    level: i64,
    boundaries: Vec<i64>,
    counts: Vec<u64>,
    samples: u64,
    sum: i128,
}

impl View for Instrument {
    type V = InstrumentView;

    closed spec fn view(&self) -> InstrumentView {
        InstrumentView {
            name: self.name@,
            help: self.help@,
            kind: self.kind,
            total: self.total as nat,
            level: self.level as int,
            boundaries: ticks(self.boundaries@),
            counts: self.counts@.map_values(|c: u64| c as nat),
            samples: self.samples as nat,
            sum: self.sum as int,
        }
    }
}

impl Instrument {
    /// Every instrument is well formed.
    #[verifier::type_invariant]
    pub open spec fn inv(self) -> bool {
        self@.wf()
    }

    /// A counter at zero. Refused as malformed, with `RegistrationConflict`,
    /// when the name is malformed or the help text is empty.
    pub fn counter(name: &str, help: &str) -> (r: Result<Instrument, MetricsError>)
        ensures
            r is Ok <==> valid_name(name@) && help@.len() > 0,
            r is Ok ==> r->Ok_0@ == InstrumentView::fresh(
                name@,
                help@,
                InstrumentKind::Counter,
                Seq::empty(),
            ),
            r is Err ==> r->Err_0 == MetricsError::RegistrationConflict,
    {
        Instrument::plain(name, help, InstrumentKind::Counter)
    }

    /// A gauge at zero. Refused as malformed, with `RegistrationConflict`,
    /// when the name is malformed or the help text is empty.
    pub fn gauge(name: &str, help: &str) -> (r: Result<Instrument, MetricsError>)
        ensures
            r is Ok <==> valid_name(name@) && help@.len() > 0,
            r is Ok ==> r->Ok_0@ == InstrumentView::fresh(
                name@,
                help@,
                InstrumentKind::Gauge,
                Seq::empty(),
            ),
            r is Err ==> r->Err_0 == MetricsError::RegistrationConflict,
    {
        Instrument::plain(name, help, InstrumentKind::Gauge)
    }

    fn plain(name: &str, help: &str, kind: InstrumentKind) -> (r: Result<Instrument, MetricsError>)
        requires
            kind != InstrumentKind::Histogram,
        ensures
            r is Ok <==> valid_name(name@) && help@.len() > 0,
            r is Ok ==> r->Ok_0@ == InstrumentView::fresh(name@, help@, kind, Seq::empty()),
            r is Err ==> r->Err_0 == MetricsError::RegistrationConflict,
    {
        if !is_valid_name(name) || help.is_empty() {
            return Err(MetricsError::RegistrationConflict);
        }
        let made = Instrument {
            name: name.to_owned(),
            help: help.to_owned(),
            kind,
            total: 0,
            level: 0,
            boundaries: Vec::new(),
            counts: Vec::new(),
            samples: 0,
            sum: 0,
        };
        proof {
            assert(made@.boundaries =~= Seq::<int>::empty());
            assert(made@.counts =~= Seq::<nat>::empty());
        }
        Ok(made)
    }

    /// A histogram with the given boundaries and an empty tally.
    ///
    /// Fails with `InvalidBucketSpec` when there is no boundary or the
    /// boundaries are not strictly increasing; otherwise with
    /// `RegistrationConflict` when the name is malformed or the help text is empty.
    pub fn histogram(name: &str, help: &str, boundaries: Vec<i64>) -> (r: Result<
        Instrument,
        MetricsError,
    >)
        ensures
            !usable_boundaries(ticks(boundaries@)) ==> r == Err::<Instrument, MetricsError>(
                MetricsError::InvalidBucketSpec,
            ),
            usable_boundaries(ticks(boundaries@)) && (!valid_name(name@) || help@.len() == 0) ==> r
                == Err::<Instrument, MetricsError>(MetricsError::RegistrationConflict),
            usable_boundaries(ticks(boundaries@)) && valid_name(name@) && help@.len() > 0 ==> r is Ok
                && r->Ok_0@ == InstrumentView::fresh(
                name@,
                help@,
                InstrumentKind::Histogram,
                ticks(boundaries@),
            ),
    {
        if boundaries.len() < 1 || !is_strictly_increasing(&boundaries) {
            return Err(MetricsError::InvalidBucketSpec);
        }
        if !is_valid_name(name) || help.is_empty() {
            return Err(MetricsError::RegistrationConflict);
        }
        let mut counts: Vec<u64> = Vec::new();
        let mut i: usize = 0;
        while i < boundaries.len()
            invariant
                i <= boundaries.len(),
                counts.len() == i,
                forall|k: int| 0 <= k < i ==> counts[k] == 0,
            decreases boundaries.len() - i,
        {
            counts.push(0);
            i += 1;
        }
        counts.push(0);
        let ghost wanted = InstrumentView::fresh(
            name@,
            help@,
            InstrumentKind::Histogram,
            ticks(boundaries@),
        );
        let made = Instrument {
            name: name.to_owned(),
            help: help.to_owned(),
            kind: InstrumentKind::Histogram,
            total: 0,
            level: 0,
            boundaries,
            counts,
            samples: 0,
            sum: 0,
        };
        proof {
            assert(made@.counts =~= wanted.counts);
            assert(made@ == wanted);
        }
        Ok(made)
    }

    pub fn name(&self) -> (r: &str)
        ensures
            r@ == self@.name,
    {
        self.name.as_str()
    }

    pub fn help(&self) -> (r: &str)
        ensures
            r@ == self@.help,
    {
        self.help.as_str()
    }

    pub fn kind(&self) -> (r: InstrumentKind)
        ensures
            r == self@.kind,
    {
        self.kind
    }

    /// The total of a counter; zero for the other kinds.
    pub fn total(&self) -> (r: u64)
        ensures
            r == self@.total,
    {
        self.total
    }

    /// The level of a gauge; zero for the other kinds.
    pub fn level(&self) -> (r: i64)
        ensures
            r == self@.level,
    {
        self.level
    }

    /// The boundaries of a histogram; empty for the other kinds.
    pub fn boundaries(&self) -> (r: &Vec<i64>)
        ensures
            ticks(r@) == self@.boundaries,
    {
        &self.boundaries
    }

    /// The tally of a histogram, bucket by bucket, the overflow bucket last;
    /// empty for the other kinds.
    pub fn counts(&self) -> (r: &Vec<u64>)
        ensures
            r@.map_values(|c: u64| c as nat) == self@.counts,
    {
        &self.counts
    }

    /// How many values a histogram has observed; zero for the other kinds.
    pub fn samples(&self) -> (r: u64)
        ensures
            r == self@.samples,
    {
        self.samples
    }

    /// The sum of the values that a histogram has observed; zero for the
    /// other kinds.
    pub fn sum(&self) -> (r: i128)
        ensures
            r == self@.sum,
    {
        self.sum
    }

    /// Whether the instrument goes by the given name.
    pub fn is_named(&self, name: &String) -> (b: bool)
        ensures
            b == (self@.name == name@),
    {
        self.name == *name
    }

    /// Adds `delta` to the total of a counter; the total stops at the
    /// ceiling. An instrument of another kind is left as it is, with
    /// `UnknownInstrument`.
    pub fn increase(&mut self, delta: u64) -> (r: Result<(), MetricsError>)
        ensures
            old(self)@.kind == InstrumentKind::Counter ==> r is Ok && final(self)@ == old(self)@.after_increase(delta as nat),
            old(self)@.kind != InstrumentKind::Counter ==> r == Err::<(), MetricsError>(
                MetricsError::UnknownInstrument,
            ) && final(self)@ == old(self)@,
    {
        proof {
            use_type_invariant(&*self);
        }
        match self.kind {
            InstrumentKind::Counter => {
                let raised: u64 = self.total.saturating_add(delta);
                self.total = raised;
                Ok(())
            },
            _ => Err(MetricsError::UnknownInstrument),
        }
    }

    /// Sets the level of a gauge to a finite value. A value that is no
    /// finite number is refused with `NonFiniteValue`; otherwise an
    /// instrument of another kind with `UnknownInstrument`. Either way the
    /// instrument is left as it is.
    pub fn set_level(&mut self, value: Sample) -> (r: Result<(), MetricsError>)
        ensures
            !value.is_finite() ==> r == Err::<(), MetricsError>(MetricsError::NonFiniteValue)
                && final(self)@ == old(self)@,
            value.is_finite() && old(self)@.kind != InstrumentKind::Gauge ==> r == Err::<
                (),
                MetricsError,
            >(MetricsError::UnknownInstrument) && final(self)@ == old(self)@,
            value.is_finite() && old(self)@.kind == InstrumentKind::Gauge ==> r is Ok && final(self)@ == old(self)@.after_level(value->Finite_0 as int),
    {
        proof {
            use_type_invariant(&*self);
        }
        match value {
            Sample::Finite(v) => match self.kind {
                InstrumentKind::Gauge => {
                    self.level = v;
                    Ok(())
                },
                _ => Err(MetricsError::UnknownInstrument),
            },
            _ => Err(MetricsError::NonFiniteValue),
        }
    }

    /// Tallies a finite value in the bucket of a histogram that it falls
    /// into; the tally of a bucket stops at the ceiling. A value that is no
    /// finite number is refused with `NonFiniteValue`; otherwise an
    /// instrument of another kind with `UnknownInstrument`. Either way the
    /// instrument is left as it is.
    pub fn observe(&mut self, value: Sample) -> (r: Result<(), MetricsError>)
        ensures
            !value.is_finite() ==> r == Err::<(), MetricsError>(MetricsError::NonFiniteValue)
                && final(self)@ == old(self)@,
            value.is_finite() && old(self)@.kind != InstrumentKind::Histogram ==> r == Err::<
                (),
                MetricsError,
            >(MetricsError::UnknownInstrument) && final(self)@ == old(self)@,
            value.is_finite() && old(self)@.kind == InstrumentKind::Histogram ==> r is Ok && final(self)@ == old(self)@.after_observe(value->Finite_0 as int),
    {
        proof {
            use_type_invariant(&*self);
        }
        match value {
            Sample::Finite(v) => match self.kind {
                InstrumentKind::Histogram => {
                    let b: usize = bucket_index(&self.boundaries, v);
                    let tally: u64 = self.counts[b];
                    self.counts[b] = tally.saturating_add(1);
                    if self.samples < u64::MAX {
                        self.samples = self.samples + 1;
                        self.sum = self.sum + (v as i128);
                    }
                    proof {
                        assert(self@.counts =~= old(self)@.after_observe(v as int).counts);
                    }
                    Ok(())
                },
                _ => Err(MetricsError::UnknownInstrument),
            },
            _ => Err(MetricsError::NonFiniteValue),
        }
    }

    /// Makes a recording, or refuses it and leaves the instrument as it is.
    pub fn record(&mut self, recording: Recording) -> (r: Result<(), MetricsError>)
        ensures
            match old(self)@.outcome(recording) {
                Ok(v) => r is Ok && final(self)@ == v,
                Err(e) => r == Err::<(), MetricsError>(e) && final(self)@ == old(self)@,
            },
    {
        match recording {
            Recording::Increase(delta) => self.increase(delta),
            Recording::Level(value) => self.set_level(value),
            Recording::Observation(value) => self.observe(value),
        }
    }
}

/// Adding to a counter leaves it a well-formed counter under the same name
/// and never lowers its total; the total grows by the whole of `delta` as
/// long as that stays at or below the ceiling.
pub proof fn lemma_increase_grows(v: InstrumentView, delta: nat)
    requires
        v.wf(),
        v.kind == InstrumentKind::Counter,
    ensures
        v.after_increase(delta).wf(),
        v.after_increase(delta).total >= v.total,
        v.total + delta <= ceiling() ==> v.after_increase(delta).total == v.total + delta,
        v.after_increase(delta) == (InstrumentView { total: v.after_increase(delta).total, ..v }),
{
}

/// Observing a value leaves a histogram well formed with the same
/// boundaries, lowers the tally of no bucket, raises the tally of the
/// bucket that the value falls into by one unless it stands at the ceiling,
/// and leaves every other bucket as it was. Below the ceiling the number of
/// samples grows by exactly one and the sum by exactly the value.
pub proof fn lemma_observe_grows(v: InstrumentView, value: int)
    requires
        v.wf(),
        v.kind == InstrumentKind::Histogram,
        representable(value),
    ensures
        v.after_observe(value).samples >= v.samples,
        v.samples < ceiling() ==> v.after_observe(value).samples == v.samples + 1
            && v.after_observe(value).sum == v.sum + value,
        v.samples == ceiling() ==> v.after_observe(value).samples == v.samples
            && v.after_observe(value).sum == v.sum,
        v.after_observe(value).wf(),
        v.after_observe(value).boundaries == v.boundaries,
        v.after_observe(value).counts.len() == v.counts.len(),
        0 <= bucket_of(v.boundaries, value) < v.counts.len(),
        forall|k: int|
            0 <= k < v.counts.len() ==> #[trigger] v.after_observe(value).counts[k] >= v.counts[k],
        forall|k: int|
            0 <= k < v.counts.len() && k != bucket_of(v.boundaries, value)
                ==> #[trigger] v.after_observe(value).counts[k] == v.counts[k],
        v.counts[bucket_of(v.boundaries, value)] < ceiling() ==> v.after_observe(
            value,
        ).counts[bucket_of(v.boundaries, value)] == v.counts[bucket_of(v.boundaries, value)] + 1,
{
    lemma_bucket_of(v.boundaries, value);
}

/// A recording of a value that is no finite number is refused with
/// `NonFiniteValue` on every instrument, and a refused recording changes
/// nothing; a recording that is made leaves the instrument well formed,
/// under the same name and of the same kind.
pub proof fn lemma_outcome(v: InstrumentView, recording: Recording)
    requires
        v.wf(),
    ensures
        !recording.finite() ==> v.outcome(recording) == Err::<InstrumentView, MetricsError>(
            MetricsError::NonFiniteValue,
        ),
        v.outcome(recording) is Ok <==> recording.finite() && v.kind == recording.kind(),
        v.outcome(recording) is Ok ==> {
            let after = v.outcome(recording)->Ok_0;
            &&& after.wf()
            &&& after.name == v.name
            &&& after.help == v.help
            &&& after.kind == v.kind
            &&& after.boundaries == v.boundaries
            &&& after.total >= v.total
            &&& after.samples >= v.samples
            &&& after.counts.len() == v.counts.len()
            &&& forall|k: int| 0 <= k < v.counts.len() ==> #[trigger] after.counts[k] >= v.counts[k]
        },
{
    if v.outcome(recording) is Ok {
        match recording {
            Recording::Increase(delta) => {
                lemma_increase_grows(v, delta as nat);
            },
            Recording::Level(_) => {},
            Recording::Observation(value) => {
                lemma_observe_grows(v, value->Finite_0 as int);
            },
        }
    }
}

/// The sum of a tally.
pub open spec fn tally_sum(counts: Seq<nat>) -> nat
    decreases counts.len(),
{
    if counts.len() == 0 {
        0
    } else {
        tally_sum(counts.drop_last()) + counts.last()
    }
}

/// The cumulative count of a bucket: how many values were tallied in it and
/// in the buckets before it.
pub open spec fn cumulative(counts: Seq<nat>, i: int) -> nat {
    tally_sum(counts.take(i + 1))
}

proof fn lemma_tally_sum_update(s: Seq<nat>, b: int, x: nat)
    requires
        0 <= b < s.len(),
    ensures
        tally_sum(s.update(b, x)) == tally_sum(s) - s[b] + x,
    decreases s.len(),
{
    let u = s.update(b, x);
    if b == s.len() - 1 {
        assert(u.drop_last() =~= s.drop_last());
    } else {
        assert(u.drop_last() =~= s.drop_last().update(b, x));
        lemma_tally_sum_update(s.drop_last(), b, x);
    }
}

/// Observing a value raises by one the cumulative count of every bucket
/// whose boundary is at or above the value, and that of the overflow bucket,
/// and leaves the cumulative count of every other bucket as it was, as long
/// as the bucket that the value falls into stands below the ceiling.
pub proof fn lemma_observe_cumulative(v: InstrumentView, value: int, i: int)
    requires
        v.wf(),
        v.kind == InstrumentKind::Histogram,
        0 <= i < v.counts.len(),
        v.counts[bucket_of(v.boundaries, value)] < ceiling(),
    ensures
        i < v.boundaries.len() ==> (bucket_of(v.boundaries, value) <= i <==> value
            <= v.boundaries[i]),
        i == v.boundaries.len() ==> bucket_of(v.boundaries, value) <= i,
        cumulative(v.after_observe(value).counts, i) == cumulative(v.counts, i) + if bucket_of(
            v.boundaries,
            value,
        ) <= i {
            1nat
        } else {
            0nat
        },
{
    let b = bucket_of(v.boundaries, value);
    lemma_bucket_of(v.boundaries, value);
    let raised = (v.counts[b] + 1) as nat;
    let after = v.counts.update(b, raised);
    assert(v.after_observe(value).counts == after);
    if b <= i {
        assert(after.take(i + 1) =~= v.counts.take(i + 1).update(b, raised));
        lemma_tally_sum_update(v.counts.take(i + 1), b, raised);
    } else {
        assert(after.take(i + 1) =~= v.counts.take(i + 1));
    }
    if i < v.boundaries.len() {
        if b < i {
            assert(v.boundaries[b] < v.boundaries[i]);
        }
    }
}

} // verus!
