//! Sampling an evaluator over a grid.
//!
//! The evaluator is called once per grid point with the point's signed
//! offsets `(i, j, l)`, in the order of the point's canonical index. Mapping
//! offsets to domain coordinates is the evaluator's business (see
//! `coordinate`).
use vstd::prelude::*;
use crate::grid::{GridShape, SampleError};

verus! {

/// What the evaluator gives at a point: whether a predicate holds there, or
/// a signed residual that is zero on the solution set.
#[derive(Debug)]
pub enum Sample<R> {
    Holds(bool),
    Residual(R),
}

/// The outcome of a sampling pass of one result kind.
#[derive(Debug)]
pub enum SampledField<R> {
    /// Every point gave a residual: the value grid, in index order.
    Residuals(Vec<R>),
    /// Every point gave a predicate result: the indices where it held, to
    /// be drawn directly.
    Marked(Vec<usize>),
}

/// `s` holds results of `eval` at the points of indices `start`,
/// `start + 1`, ... of `shape`.
pub open spec fn samples_from<R, F: Fn(i64, i64, i64) -> R>(
    eval: F,
    shape: GridShape,
    start: nat,
    s: Seq<R>,
) -> bool {
    forall|k: int|
        0 <= k < s.len() ==> {
            let p = shape.point((start + k) as nat);
            call_ensures(eval, (p.0, p.1, p.2), #[trigger] s[k])
        }
}

/// `eval` accepts every point of indices `start` to `end` (exclusive).
pub open spec fn accepts_range<R, F: Fn(i64, i64, i64) -> R>(
    eval: F,
    shape: GridShape,
    start: nat,
    end: nat,
) -> bool {
    forall|k: nat|
        start <= k < end ==> {
            let p = #[trigger] shape.point(k);
            call_requires(eval, (p.0, p.1, p.2))
        }
}

/// Calls `eval` on the points of indices `start` to `end` (exclusive), in
/// order, and returns the results.
pub fn sample_range<R, F: Fn(i64, i64, i64) -> R>(
    shape: &GridShape,
    start: usize,
    end: usize,
    eval: &F,
) -> (r: Vec<R>)
    requires
        shape.wf(),
        start <= end <= shape.count(),
        accepts_range(*eval, *shape, start as nat, end as nat),
    ensures
        r@.len() == end - start,
        samples_from(*eval, *shape, start as nat, r@),
{
    let mut out: Vec<R> = Vec::new();
    let mut k: usize = start;
    while k < end
        invariant
            shape.wf(),
            start <= k <= end <= shape.count(),
            accepts_range(*eval, *shape, start as nat, end as nat),
            out@.len() == k - start,
            samples_from(*eval, *shape, start as nat, out@),
        decreases end - k,
    {
        let p = shape.point_of(k);
        assert(shape.point(k as nat) == p);
        let v = eval(p.0, p.1, p.2);
        out.push(v);
        k = k + 1;
    }
    out
}

/// Calls `eval` once on every point of the grid, in index order.
pub fn sample<R, F: Fn(i64, i64, i64) -> R>(shape: &GridShape, eval: &F) -> (r: Vec<R>)
    requires
        shape.wf(),
        accepts_range(*eval, *shape, 0, shape.count()),
    ensures
        r@.len() == shape.count(),
        samples_from(*eval, *shape, 0, r@),
{
    let n = shape.len();
    sample_range(shape, 0, n, eval)
}

pub open spec fn all_residuals<R>(s: Seq<Sample<R>>) -> bool {
    forall|k: int| 0 <= k < s.len() ==> #[trigger] s[k] is Residual
}

pub open spec fn all_predicates<R>(s: Seq<Sample<R>>) -> bool {
    forall|k: int| 0 <= k < s.len() ==> #[trigger] s[k] is Holds
}

/// The residuals of a pass that gave residuals only.
pub open spec fn residual_values<R>(s: Seq<Sample<R>>) -> Seq<R> {
    s.map_values(|x: Sample<R>| x->Residual_0)
}

/// The indices below `n` where the predicate held, in increasing order.
pub open spec fn marked_indices<R>(s: Seq<Sample<R>>, n: nat) -> Seq<usize>
    decreases n,
{
    if n == 0 {
        seq![]
    } else {
        let k = (n - 1) as nat;
        marked_indices(s, k) + if s[k as int] is Holds && s[k as int]->Holds_0 {
            seq![k as usize]
        } else {
            seq![]
        }
    }
}

fn is_all_residuals<R>(s: &Vec<Sample<R>>) -> (r: bool)
    ensures
        r == all_residuals(s@),
{
    let mut k: usize = 0;
    while k < s.len()
        invariant
            0 <= k <= s@.len(),
            forall|j: int| 0 <= j < k ==> #[trigger] s@[j] is Residual,
        decreases s.len() - k,
    {
        if let Sample::Holds(_) = &s[k] {
            return false;
        }
        k = k + 1;
    }
    true
}

fn is_all_predicates<R>(s: &Vec<Sample<R>>) -> (r: bool)
    ensures
        r == all_predicates(s@),
{
    let mut k: usize = 0;
    while k < s.len()
        invariant
            0 <= k <= s@.len(),
            forall|j: int| 0 <= j < k ==> #[trigger] s@[j] is Holds,
        decreases s.len() - k,
    {
        if let Sample::Residual(_) = &s[k] {
            return false;
        }
        k = k + 1;
    }
    true
}

fn residuals_of<R: Copy>(s: &Vec<Sample<R>>) -> (r: Vec<R>)
    requires
        all_residuals(s@),
    ensures
        r@ == residual_values(s@),
{
    let mut out: Vec<R> = Vec::new();
    let mut k: usize = 0;
    while k < s.len()
        invariant
            0 <= k <= s@.len(),
            all_residuals(s@),
            out@ == residual_values(s@).take(k as int),
        decreases s.len() - k,
    {
        assert(s@[k as int] is Residual);
        if let Sample::Residual(v) = &s[k] {
            out.push(*v);
        }
        assert(residual_values(s@).take(k + 1) == residual_values(s@).take(k as int).push(
            residual_values(s@)[k as int],
        ));
        k = k + 1;
    }
    assert(residual_values(s@).take(k as int) == residual_values(s@));
    out
}

fn marked_of<R>(s: &Vec<Sample<R>>) -> (r: Vec<usize>)
    ensures
        r@ == marked_indices(s@, s@.len()),
{
    let mut out: Vec<usize> = Vec::new();
    let mut k: usize = 0;
    while k < s.len()
        invariant
            0 <= k <= s@.len(),
            out@ == marked_indices(s@, k as nat),
        decreases s.len() - k,
    {
        if let Sample::Holds(true) = &s[k] {
            out.push(k);
        }
        k = k + 1;
    }
    out
}

/// `r` is `s` sorted by kind: the value grid of a pass of residuals only
/// (an empty pass included), the marked indices of a pass of predicate
/// results only, and `MixedResults` for a pass of both kinds.
pub open spec fn split_outcome<R>(s: Seq<Sample<R>>, r: Result<SampledField<R>, SampleError>) -> bool {
    &&& all_residuals(s) ==> r is Ok && r->Ok_0 is Residuals && r->Ok_0->Residuals_0@
        == residual_values(s)
    &&& !all_residuals(s) && all_predicates(s) ==> r is Ok && r->Ok_0 is Marked
        && r->Ok_0->Marked_0@ == marked_indices(s, s.len())
    &&& !all_residuals(s) && !all_predicates(s) <==> r == Err::<SampledField<R>, SampleError>(
        SampleError::MixedResults,
    )
}

/// Sorts a pass's results by kind. A pass of residuals only (an empty pass
/// included) gives its value grid; a pass of predicate results only gives
/// the indices where the predicate held; a pass of both kinds is refused
/// with `MixedResults`.
pub fn split_samples<R: Copy>(samples: &Vec<Sample<R>>) -> (r: Result<SampledField<R>, SampleError>)
    ensures
        split_outcome(samples@, r),
{
    if is_all_residuals(samples) {
        Ok(SampledField::Residuals(residuals_of(samples)))
    } else if is_all_predicates(samples) {
        Ok(SampledField::Marked(marked_of(samples)))
    } else {
        Err(SampleError::MixedResults)
    }
}

/// One sampling pass over the whole grid, its results sorted by kind: the
/// value grid when every point gave a residual, the indices to draw when
/// every point gave a predicate result, `MixedResults` otherwise.
pub fn sample_field<R: Copy, F: Fn(i64, i64, i64) -> Sample<R>>(shape: &GridShape, eval: &F) -> (r:
    Result<SampledField<R>, SampleError>)
    requires
        shape.wf(),
        accepts_range(*eval, *shape, 0, shape.count()),
    ensures
        exists|s: Seq<Sample<R>>|
            s.len() == shape.count() && samples_from(*eval, *shape, 0, s) && #[trigger] split_outcome(
                s,
                r,
            ),
{
    let samples = sample(shape, eval);
    let r = split_samples(&samples);
    assert(split_outcome(samples@, r));
    r
}

/// Results at consecutive indices, split into consecutive parts: part `i`
/// covers the indices `bounds[i]` to `bounds[i + 1]` (exclusive).
pub open spec fn partition_of<R, F: Fn(i64, i64, i64) -> R>(
    eval: F,
    shape: GridShape,
    bounds: Seq<nat>,
    parts: Seq<Seq<R>>,
) -> bool {
    &&& bounds.len() == parts.len() + 1
    &&& forall|i: int|
        0 <= i < parts.len() ==> {
            &&& bounds[i] <= bounds[i + 1]
            &&& (#[trigger] parts[i]).len() == bounds[i + 1] - bounds[i]
            &&& samples_from(eval, shape, bounds[i], parts[i])
        }
}

/// Every call of `eval` on the same arguments gives the same result.
pub open spec fn deterministic<R, F: Fn(i64, i64, i64) -> R>(eval: F) -> bool {
    forall|a: (i64, i64, i64), r1: R, r2: R|
        #[trigger] call_ensures(eval, a, r1) && #[trigger] call_ensures(eval, a, r2) ==> r1
            == r2
}

proof fn lemma_partition_suffix<R, F: Fn(i64, i64, i64) -> R>(
    eval: F,
    shape: GridShape,
    bounds: Seq<nat>,
    parts: Seq<Seq<R>>,
    full: Seq<R>,
    i: int,
)
    requires
        deterministic(eval),
        partition_of(eval, shape, bounds, parts),
        bounds.last() == full.len(),
        samples_from(eval, shape, 0, full),
        0 <= i <= parts.len(),
        bounds[i] <= full.len(),
    ensures
        parts.subrange(i, parts.len() as int).flatten() == full.subrange(
            bounds[i] as int,
            full.len() as int,
        ),
    decreases parts.len() - i,
{
    let rest = parts.subrange(i, parts.len() as int);
    if i == parts.len() {
        assert(rest.len() == 0);
    } else {
        let b0 = bounds[i] as int;
        let b1 = bounds[i + 1] as int;
        assert(bounds[i + 1] <= full.len()) by {
            lemma_bounds_increase(eval, shape, bounds, parts, i + 1);
        }
        lemma_partition_suffix(eval, shape, bounds, parts, full, i + 1);
        assert(rest.first() == parts[i]);
        assert(rest.drop_first() == parts.subrange(i + 1, parts.len() as int));
        assert(parts[i] == full.subrange(b0, b1)) by {
            assert forall|k: int| 0 <= k < b1 - b0 implies parts[i][k] == full[b0 + k] by {
                let p = shape.point((bounds[i] + k) as nat);
                assert(call_ensures(eval, (p.0, p.1, p.2), parts[i][k]));
                assert(call_ensures(eval, (p.0, p.1, p.2), full[b0 + k]));
            }
            assert(parts[i] =~= full.subrange(b0, b1));
        }
        assert(full.subrange(b0, full.len() as int) =~= full.subrange(b0, b1) + full.subrange(
            b1,
            full.len() as int,
        ));
    }
}

proof fn lemma_bounds_increase<R, F: Fn(i64, i64, i64) -> R>(
    eval: F,
    shape: GridShape,
    bounds: Seq<nat>,
    parts: Seq<Seq<R>>,
    i: int,
)
    requires
        partition_of(eval, shape, bounds, parts),
        0 <= i < bounds.len(),
    ensures
        bounds[i] <= bounds.last(),
    decreases bounds.len() - i,
{
    if i < parts.len() {
        assert(parts[i].len() == bounds[i + 1] - bounds[i]);
        lemma_bounds_increase(eval, shape, bounds, parts, i + 1);
    }
}

/// Sampling split into consecutive index ranges, each range sampled on its
/// own and the parts concatenated, gives the same value grid as one pass
/// over the whole grid, for a deterministic evaluator.
pub proof fn lemma_partitioned_sampling<R, F: Fn(i64, i64, i64) -> R>(
    eval: F,
    shape: GridShape,
    bounds: Seq<nat>,
    parts: Seq<Seq<R>>,
    full: Seq<R>,
)
    requires
        shape.wf(),
        deterministic(eval),
        partition_of(eval, shape, bounds, parts),
        bounds[0] == 0,
        bounds.last() == shape.count(),
        full.len() == shape.count(),
        samples_from(eval, shape, 0, full),
    ensures
        parts.flatten() == full,
{
    lemma_partition_suffix(eval, shape, bounds, parts, full, 0);
    assert(parts.subrange(0, parts.len() as int) == parts);
    assert(full.subrange(0, full.len() as int) == full);
}

} // verus!
