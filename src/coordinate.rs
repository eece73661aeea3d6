//! The map from a grid offset to a domain coordinate along one axis.
//!
//! With fidelity `f` and window `[lo, hi]`, the offset `i` (from `-f` to
//! `f`) lies at `(i / f) * (hi - lo) / 2`. The result is given exactly, as a
//! fraction.
//!
//! Contour geometry is given in half-cell positions: along an axis of
//! fidelity `f`, grid point `x` (offset `x - f`) has position `h = 2x`, and
//! an edge midpoint lies at an odd `h` in between. `half_coordinate` maps
//! such a position to the same domain coordinate that the sampler used, so
//! that geometry lines up with the sampled points.
use vstd::prelude::*;
use crate::grid::SampleError;

verus! {

/// The rational number `num / den`.
#[derive(Clone, Copy, Debug, PartialEq, Eq, Structural)]
pub struct Fraction {
    pub num: i128,
    pub den: u128,
}

/// Numerator and denominator of the coordinate of offset `i`.
pub open spec fn coordinate_of(i: int, fidelity: int, lo: int, hi: int) -> (int, int) {
    (i * (hi - lo), 2 * fidelity)
}

/// The domain coordinate of offset `i` on an axis of the given fidelity and
/// window. A window whose lower bound is not below its upper bound is
/// refused with `EmptyWindow`.
pub fn coordinate(i: i64, fidelity: u32, lo: i64, hi: i64) -> (r: Result<Fraction, SampleError>)
    requires
        fidelity >= 1,
        -fidelity <= i <= fidelity,
    ensures
        lo >= hi ==> r == Err::<Fraction, SampleError>(SampleError::EmptyWindow),
        lo < hi ==> r is Ok && (r->Ok_0.num as int, r->Ok_0.den as int) == coordinate_of(
            i as int,
            fidelity as int,
            lo as int,
            hi as int,
        ),
{
    if lo >= hi {
        return Err(SampleError::EmptyWindow);
    }
    let span: i128 = hi as i128 - lo as i128;
    proof {
        lemma_product_bound(i as int, span as int, 0x1_0000_0000, 0x2_0000_0000_0000_0000);
    }
    Ok(Fraction { num: i as i128 * span, den: 2 * fidelity as u128 })
}

/// Numerator and denominator of the coordinate of half-cell position `h`:
/// the offset `(h - 2 * fidelity) / 2` mapped as by `coordinate_of`.
pub open spec fn half_coordinate_of(h: int, fidelity: int, lo: int, hi: int) -> (int, int) {
    ((h - 2 * fidelity) * (hi - lo), 4 * fidelity)
}

/// The domain coordinate of half-cell position `h`, from `0` to
/// `4 * fidelity`, on an axis of the given fidelity and window. A window
/// whose lower bound is not below its upper bound is refused with
/// `EmptyWindow`.
pub fn half_coordinate(h: usize, fidelity: u32, lo: i64, hi: i64) -> (r: Result<
    Fraction,
    SampleError,
>)
    requires
        fidelity >= 1,
        h <= 4 * fidelity,
    ensures
        lo >= hi ==> r == Err::<Fraction, SampleError>(SampleError::EmptyWindow),
        lo < hi ==> r is Ok && (r->Ok_0.num as int, r->Ok_0.den as int) == half_coordinate_of(
            h as int,
            fidelity as int,
            lo as int,
            hi as int,
        ),
{
    if lo >= hi {
        return Err(SampleError::EmptyWindow);
    }
    let offset: i128 = h as i128 - 2 * fidelity as i128;
    let span: i128 = hi as i128 - lo as i128;
    proof {
        lemma_product_bound(offset as int, span as int, 0x2_0000_0000, 0x2_0000_0000_0000_0000);
    }
    Ok(Fraction { num: offset * span, den: 4 * fidelity as u128 })
}

/// The half-cell position of grid point `x` maps to the same rational
/// coordinate as the grid point's offset `x - fidelity`.
pub proof fn lemma_half_coordinate_on_grid(x: int, fidelity: int, lo: int, hi: int)
    requires
        fidelity >= 1,
        0 <= x <= 2 * fidelity,
    ensures
        half_coordinate_of(2 * x, fidelity, lo, hi).0 * coordinate_of(x - fidelity, fidelity, lo, hi).1
            == coordinate_of(x - fidelity, fidelity, lo, hi).0 * half_coordinate_of(
            2 * x,
            fidelity,
            lo,
            hi,
        ).1,
{
    assert((2 * x - 2 * fidelity) * (hi - lo) * (2 * fidelity) == (x - fidelity) * (hi - lo) * (4
        * fidelity)) by (nonlinear_arith);
}

proof fn lemma_product_bound(a: int, b: int, x: int, y: int)
    requires
        -x <= a <= x,
        -y <= b <= y,
    ensures
        -(x * y) <= a * b <= x * y,
    decreases
        (if a < 0 { 2int } else { 0int }) + (if b < 0 { 1int } else { 0int }),
{
    if a >= 0 && b >= 0 {
        assert(a * b <= x * y) by (nonlinear_arith)
            requires
                0 <= a <= x,
                0 <= b <= y,
        ;
        assert(0 <= a * b) by (nonlinear_arith)
            requires
                0 <= a,
                0 <= b,
        ;
    } else if a >= 0 {
        lemma_product_bound(a, -b, x, y);
        assert(a * (-b) == -(a * b)) by (nonlinear_arith);
    } else {
        lemma_product_bound(-a, b, x, y);
        assert((-a) * b == -(a * b)) by (nonlinear_arith);
    }
}

/// On a window symmetric about zero, opposite offsets map to opposite
/// coordinates.
pub proof fn lemma_coordinate_antisymmetric(i: int, fidelity: int, lo: int, hi: int)
    requires
        fidelity >= 1,
        -fidelity <= i <= fidelity,
        lo == -hi,
    ensures
        coordinate_of(-i, fidelity, lo, hi).0 == -coordinate_of(i, fidelity, lo, hi).0,
        coordinate_of(-i, fidelity, lo, hi).1 == coordinate_of(i, fidelity, lo, hi).1,
{
    assert((-i) * (hi - lo) == -(i * (hi - lo))) by (nonlinear_arith);
}

} // verus!
