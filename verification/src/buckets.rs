//! Bucket layouts: the boundary sequences of histograms.

use crate::error::MetricsError;
use vstd::arithmetic::mul::*;
use vstd::arithmetic::power::*;
use vstd::prelude::*;

verus! {

/// How the boundaries of a histogram grow from one to the next.
#[derive(Clone, Copy, Debug, PartialEq, Eq, Structural)]
pub enum Strategy {
    /// Each boundary is the one before it times the width.
    Exponential,
    /// Each boundary is the one before it plus the width.
    Linear,
}

/// The parameters of a boundary sequence: `count` boundaries that begin at
/// `start` and grow by `width`.
#[derive(Clone, Copy, Debug, PartialEq, Eq, Structural)]
pub struct BucketSpec {
    pub start: i64,
    pub width: i64,
    pub count: usize,
}

/// The `i`-th boundary of the exponential layout.
pub open spec fn exponential_boundary(start: int, width: int, i: nat) -> int {
    start * pow(width, i)
}

/// The `i`-th boundary of the linear layout.
pub open spec fn linear_boundary(start: int, width: int, i: nat) -> int {
    start + width * i
}

/// Whether a boundary can be held in a tick count.
pub open spec fn representable(v: int) -> bool {
    i64::MIN <= v <= i64::MAX
}

/// The parameters that the exponential layout accepts: a positive start, a
/// width above one, at least one boundary, and a last boundary that a tick
/// count can hold.
pub open spec fn exponential_valid(start: int, width: int, count: nat) -> bool {
    &&& start > 0
    &&& width > 1
    &&& count >= 1
    &&& representable(exponential_boundary(start, width, (count - 1) as nat))
}

/// The parameters that the linear layout accepts: a width other than zero,
/// at least one boundary, and a last boundary that a tick count can hold.
pub open spec fn linear_valid(start: int, width: int, count: nat) -> bool {
    &&& width != 0
    &&& count >= 1
    &&& representable(linear_boundary(start, width, (count - 1) as nat))
}

/// The whole exponential boundary sequence.
pub open spec fn exponential_layout(start: int, width: int, count: nat) -> Seq<int> {
    Seq::new(count, |i: int| exponential_boundary(start, width, i as nat))
}

/// The whole linear boundary sequence.
pub open spec fn linear_layout(start: int, width: int, count: nat) -> Seq<int> {
    Seq::new(count, |i: int| linear_boundary(start, width, i as nat))
}

/// A boundary sequence as mathematical integers.
pub open spec fn ticks(s: Seq<i64>) -> Seq<int> {
    s.map_values(|v: i64| v as int)
}

/// Each boundary lies strictly below the next.
pub open spec fn strictly_increasing(s: Seq<int>) -> bool {
    forall|i: int, j: int| 0 <= i < j < s.len() ==> s[i] < s[j]
}

/// What a histogram accepts as its boundaries: at least one, strictly
/// increasing.
pub open spec fn usable_boundaries(s: Seq<int>) -> bool {
    s.len() >= 1 && strictly_increasing(s)
}

/// The parameters that a strategy accepts.
pub open spec fn strategy_valid(spec: BucketSpec, strategy: Strategy) -> bool {
    match strategy {
        Strategy::Exponential => exponential_valid(
            spec.start as int,
            spec.width as int,
            spec.count as nat,
        ),
        Strategy::Linear => linear_valid(spec.start as int, spec.width as int, spec.count as nat),
    }
}

/// The boundary sequence that a strategy lays out.
pub open spec fn layout(spec: BucketSpec, strategy: Strategy) -> Seq<int> {
    match strategy {
        Strategy::Exponential => exponential_layout(
            spec.start as int,
            spec.width as int,
            spec.count as nat,
        ),
        Strategy::Linear => linear_layout(spec.start as int, spec.width as int, spec.count as nat),
    }
}

/// The parameters from which a histogram can be built: the strategy accepts
/// them, and what it lays out is strictly increasing.
pub open spec fn histogram_valid(spec: BucketSpec, strategy: Strategy) -> bool {
    strategy_valid(spec, strategy) && usable_boundaries(layout(spec, strategy))
}

/// Lays out `count` boundaries, the first at `start` and each following one
/// `width` times the one before it.
///
/// Fails with `InvalidBucketSpec` when `start` is not positive, `width` is
/// not above one, `count` is zero, or a boundary exceeds what a tick count
/// can hold.
pub fn exponential_buckets(start: i64, width: i64, count: usize) -> (r: Result<
    Vec<i64>,
    MetricsError,
>)
    ensures
        r is Ok <==> exponential_valid(start as int, width as int, count as nat),
        r is Ok ==> ticks(r->Ok_0@) == exponential_layout(
            start as int,
            width as int,
            count as nat,
        ),
        r is Ok ==> r->Ok_0@.len() == count && forall|i: int|
            0 <= i < count ==> #[trigger] r->Ok_0@[i] == exponential_boundary(
                start as int,
                width as int,
                i as nat,
            ),
        r is Err ==> r->Err_0 == MetricsError::InvalidBucketSpec,
{
    if count < 1 || start <= 0 || width <= 1 {
        return Err(MetricsError::InvalidBucketSpec);
    }
    let mut buckets: Vec<i64> = Vec::new();
    let mut next: i64 = start;
    buckets.push(next);
    proof {
        lemma_pow0(width as int);
    }
    let mut i: usize = 1;
    while i < count
        invariant
            start > 0,
            width > 1,
            1 <= i <= count,
            buckets.len() == i,
            next == exponential_boundary(start as int, width as int, (i - 1) as nat),
            forall|k: int|
                0 <= k < i ==> buckets[k] == exponential_boundary(
                    start as int,
                    width as int,
                    k as nat,
                ),
        decreases count - i,
    {
        proof {
            lemma_exponential_step(start as int, width as int, (i - 1) as nat);
        }
        match next.checked_mul(width) {
            Some(v) => {
                next = v;
                buckets.push(v);
            },
            None => {
                proof {
                    if i < count - 1 {
                        lemma_exponential_grows(
                            start as int,
                            width as int,
                            i as nat,
                            (count - 1) as nat,
                        );
                    }
                    lemma_exponential_grows(start as int, width as int, (i - 1) as nat, i as nat);
                }
                return Err(MetricsError::InvalidBucketSpec);
            },
        }
        i += 1;
    }
    proof {
        assert(ticks(buckets@) =~= exponential_layout(start as int, width as int, count as nat));
    }
    Ok(buckets)
}

/// Lays out `count` boundaries, the `i`-th of them at `start + width * i`.
/// A negative width gives a decreasing sequence.
///
/// Fails with `InvalidBucketSpec` when `width` is zero, `count` is zero, or
/// a boundary lies outside what a tick count can hold.
pub fn linear_buckets(start: i64, width: i64, count: usize) -> (r: Result<Vec<i64>, MetricsError>)
    ensures
        r is Ok <==> linear_valid(start as int, width as int, count as nat),
        r is Ok ==> ticks(r->Ok_0@) == linear_layout(start as int, width as int, count as nat),
        r is Ok ==> r->Ok_0@.len() == count && forall|i: int|
            0 <= i < count ==> #[trigger] r->Ok_0@[i] == start + width * i,
        r is Err ==> r->Err_0 == MetricsError::InvalidBucketSpec,
{
    if count < 1 || width == 0 {
        return Err(MetricsError::InvalidBucketSpec);
    }
    let mut buckets: Vec<i64> = Vec::new();
    let mut next: i64 = start;
    buckets.push(next);
    proof {
        assert(width as int * 0 == 0) by (nonlinear_arith);
    }
    let mut i: usize = 1;
    while i < count
        invariant
            width != 0,
            1 <= i <= count,
            buckets.len() == i,
            next == linear_boundary(start as int, width as int, (i - 1) as nat),
            forall|k: int|
                0 <= k < i ==> buckets[k] == linear_boundary(start as int, width as int, k as nat),
        decreases count - i,
    {
        proof {
            lemma_linear_step(start as int, width as int, (i - 1) as nat);
        }
        match next.checked_add(width) {
            Some(v) => {
                next = v;
                buckets.push(v);
            },
            None => {
                proof {
                    if i < count - 1 {
                        lemma_linear_moves(
                            start as int,
                            width as int,
                            i as nat,
                            (count - 1) as nat,
                        );
                    }
                }
                return Err(MetricsError::InvalidBucketSpec);
            },
        }
        i += 1;
    }
    proof {
        assert(ticks(buckets@) =~= linear_layout(start as int, width as int, count as nat));
    }
    Ok(buckets)
}

/// Lays out the boundaries of `spec` by the given strategy.
pub fn compute_boundaries(spec: BucketSpec, strategy: Strategy) -> (r: Result<
    Vec<i64>,
    MetricsError,
>)
    ensures
        r is Ok <==> strategy_valid(spec, strategy),
        r is Ok ==> ticks(r->Ok_0@) == layout(spec, strategy),
        r is Ok ==> r->Ok_0@.len() == spec.count && forall|i: int|
            0 <= i < spec.count ==> #[trigger] r->Ok_0@[i] == layout(spec, strategy)[i],
        r is Err ==> r->Err_0 == MetricsError::InvalidBucketSpec,
{
    match strategy {
        Strategy::Exponential => exponential_buckets(spec.start, spec.width, spec.count),
        Strategy::Linear => linear_buckets(spec.start, spec.width, spec.count),
    }
}

/// Whether each boundary lies strictly below the next.
pub fn is_strictly_increasing(boundaries: &Vec<i64>) -> (b: bool)
    ensures
        b == strictly_increasing(ticks(boundaries@)),
{
    let mut i: usize = 1;
    while i < boundaries.len()
        invariant
            1 <= i,
            forall|a: int, b: int|
                0 <= a < b < i && b < boundaries.len() ==> boundaries[a] < boundaries[b],
        decreases boundaries.len() - i,
    {
        if boundaries[i - 1] >= boundaries[i] {
            proof {
                let s = ticks(boundaries@);
                assert(!(s[i - 1] < s[i as int]));
            }
            return false;
        }
        proof {
            assert forall|a: int, b: int|
                0 <= a < b < i + 1 && b < boundaries.len() implies boundaries[a]
                < boundaries[b] by {
                if b == i && a < i - 1 {
                    assert(boundaries[a] < boundaries[i - 1]);
                }
            }
        }
        i += 1;
    }
    true
}

/// Lays out the boundaries of a histogram: those of the strategy, refused
/// unless they are strictly increasing.
pub fn histogram_boundaries(spec: BucketSpec, strategy: Strategy) -> (r: Result<
    Vec<i64>,
    MetricsError,
>)
    ensures
        r is Ok <==> histogram_valid(spec, strategy),
        r is Ok ==> ticks(r->Ok_0@) == layout(spec, strategy),
        r is Ok ==> r->Ok_0@.len() == spec.count && forall|i: int|
            0 <= i < spec.count ==> #[trigger] r->Ok_0@[i] == layout(spec, strategy)[i],
        r is Err ==> r->Err_0 == MetricsError::InvalidBucketSpec,
{
    match compute_boundaries(spec, strategy) {
        Ok(boundaries) => {
            if is_strictly_increasing(&boundaries) {
                Ok(boundaries)
            } else {
                Err(MetricsError::InvalidBucketSpec)
            }
        },
        Err(e) => Err(e),
    }
}

/// The index of the bucket that `value` falls into: the first boundary at or
/// above it, or the number of boundaries for the overflow bucket.
pub fn bucket_index(boundaries: &Vec<i64>, value: i64) -> (idx: usize)
    ensures
        idx == bucket_of(ticks(boundaries@), value as int),
        idx <= boundaries.len(),
{
    let ghost s = ticks(boundaries@);
    let mut i: usize = 0;
    while i < boundaries.len()
        invariant
            i <= boundaries.len(),
            s == ticks(boundaries@),
            bucket_of(s, value as int) == first_at_or_above(s, value as int, i as int),
        decreases boundaries.len() - i,
    {
        if value <= boundaries[i] {
            return i;
        }
        i += 1;
    }
    i
}

/// The bucket that a value falls into, counted from `from`: the first
/// boundary at or above the value, or the number of boundaries where there
/// is none.
pub open spec fn first_at_or_above(s: Seq<int>, v: int, from: int) -> int
    decreases s.len() - from,
{
    if from < 0 || from >= s.len() {
        s.len() as int
    } else if v <= s[from] {
        from
    } else {
        first_at_or_above(s, v, from + 1)
    }
}

/// The bucket that a value falls into. Each boundary is the inclusive upper
/// bound of its bucket; a value above every boundary falls into the
/// overflow bucket, whose index is the number of boundaries.
pub open spec fn bucket_of(s: Seq<int>, v: int) -> int {
    first_at_or_above(s, v, 0)
}

/// Each exponential boundary is the one before it times the width.
pub proof fn lemma_exponential_step(start: int, width: int, i: nat)
    ensures
        exponential_boundary(start, width, i + 1) == exponential_boundary(start, width, i) * width,
{
    lemma_pow_adds(width, i, 1);
    lemma_pow1(width);
    lemma_mul_is_associative(start, pow(width, i), width);
}

/// Each linear boundary is the one before it plus the width.
pub proof fn lemma_linear_step(start: int, width: int, i: nat)
    ensures
        linear_boundary(start, width, i + 1) == linear_boundary(start, width, i) + width,
{
    lemma_mul_is_distributive_add(width, i as int, 1);
}

/// With a positive start and a width above one, exponential boundaries are
/// positive and grow strictly with the index.
pub proof fn lemma_exponential_grows(start: int, width: int, i: nat, j: nat)
    requires
        start > 0,
        width > 1,
        i < j,
    ensures
        0 < exponential_boundary(start, width, i) < exponential_boundary(start, width, j),
{
    lemma_pow_positive(width, i);
    lemma_pow_strictly_increases(width as nat, i, j);
    lemma_mul_strictly_positive(start, pow(width, i));
    lemma_mul_strict_inequality(pow(width, i), pow(width, j), start);
    lemma_mul_is_commutative(start, pow(width, i));
    lemma_mul_is_commutative(start, pow(width, j));
}

/// Linear boundaries move with the index in the direction of the width.
pub proof fn lemma_linear_moves(start: int, width: int, i: nat, j: nat)
    requires
        i < j,
    ensures
        width > 0 ==> linear_boundary(start, width, i) < linear_boundary(start, width, j),
        width < 0 ==> linear_boundary(start, width, i) > linear_boundary(start, width, j),
        width == 0 ==> linear_boundary(start, width, i) == linear_boundary(start, width, j),
{
    assert(width > 0 ==> width * i < width * j) by (nonlinear_arith)
        requires
            i < j,
    ;
    assert(width < 0 ==> width * i > width * j) by (nonlinear_arith)
        requires
            i < j,
    ;
    assert(width == 0 ==> width * i == width * j) by (nonlinear_arith);
}

/// For every accepted `(start, width, count)` the exponential layout has
/// exactly `count` boundaries, begins at `start`, and is strictly
/// increasing.
pub proof fn lemma_exponential_layout(start: int, width: int, count: nat)
    requires
        exponential_valid(start, width, count),
    ensures
        exponential_layout(start, width, count).len() == count,
        exponential_layout(start, width, count)[0] == start,
        strictly_increasing(exponential_layout(start, width, count)),
        usable_boundaries(exponential_layout(start, width, count)),
        forall|i: int|
            0 <= i < count ==> representable(
                #[trigger] exponential_layout(start, width, count)[i],
            ),
{
    let s = exponential_layout(start, width, count);
    lemma_pow0(width);
    assert forall|i: int, j: int| 0 <= i < j < s.len() implies s[i] < s[j] by {
        lemma_exponential_grows(start, width, i as nat, j as nat);
    }
    assert forall|i: int| 0 <= i < count implies representable(#[trigger] s[i]) by {
        if i < count - 1 {
            lemma_exponential_grows(start, width, i as nat, (count - 1) as nat);
        }
        if i > 0 {
            lemma_exponential_grows(start, width, 0, i as nat);
        }
    }
}

/// For every accepted `(start, width, count)` the linear layout has exactly
/// `count` boundaries, and the `i`-th of them is `start + width * i`.
pub proof fn lemma_linear_layout(start: int, width: int, count: nat)
    requires
        linear_valid(start, width, count),
        representable(start),
    ensures
        linear_layout(start, width, count).len() == count,
        forall|i: int|
            0 <= i < count ==> #[trigger] linear_layout(start, width, count)[i] == start + width
                * i,
        forall|i: int|
            0 <= i < count ==> representable(#[trigger] linear_layout(start, width, count)[i]),
        usable_boundaries(linear_layout(start, width, count)) <==> width > 0 || count == 1,
{
    let s = linear_layout(start, width, count);
    assert forall|i: int| 0 <= i < count implies representable(#[trigger] s[i]) by {
        if 0 < i {
            lemma_linear_moves(start, width, 0, i as nat);
        }
        if i < count - 1 {
            lemma_linear_moves(start, width, i as nat, (count - 1) as nat);
        }
    }
    if width > 0 || count == 1 {
        assert forall|i: int, j: int| 0 <= i < j < s.len() implies s[i] < s[j] by {
            lemma_linear_moves(start, width, i as nat, j as nat);
        }
    } else {
        lemma_linear_moves(start, width, 0, 1);
        assert(s[0] > s[1]);
    }
}

/// The bucket of a value is the one index below which every boundary lies
/// under the value and at which, if it names a boundary, the boundary is at
/// or above the value.
pub proof fn lemma_bucket_of(s: Seq<int>, v: int)
    ensures
        0 <= bucket_of(s, v) <= s.len(),
        bucket_of(s, v) < s.len() ==> v <= s[bucket_of(s, v)],
        forall|k: int| 0 <= k < bucket_of(s, v) ==> s[k] < v,
{
    lemma_first_at_or_above(s, v, 0);
}

proof fn lemma_first_at_or_above(s: Seq<int>, v: int, from: int)
    requires
        0 <= from <= s.len(),
    ensures
        from <= first_at_or_above(s, v, from) <= s.len(),
        first_at_or_above(s, v, from) < s.len() ==> v <= s[first_at_or_above(s, v, from)],
        forall|k: int| from <= k < first_at_or_above(s, v, from) ==> s[k] < v,
    decreases s.len() - from,
{
    if from < s.len() && v > s[from] {
        lemma_first_at_or_above(s, v, from + 1);
    }
}

/// In a strictly increasing boundary sequence a value at or below a boundary
/// and above the one before it falls into that boundary's bucket.
pub proof fn lemma_bucket_between(s: Seq<int>, v: int, i: int)
    requires
        strictly_increasing(s),
        0 <= i < s.len(),
        v <= s[i],
        i > 0 ==> s[i - 1] < v,
    ensures
        bucket_of(s, v) == i,
{
    lemma_bucket_of(s, v);
    let b = bucket_of(s, v);
    if b < i {
        if b < i - 1 {
            assert(s[b] < s[i - 1]);
        }
    } else if b > i {
        assert(s[i] < v);
    }
}

} // verus!
