//! Regular sampling grids and the sampler that fills a value grid from an
//! evaluator.
//!
//! A grid has `2 * f + 1` points along an axis of fidelity `f`; the point at
//! position `x` on that axis has the signed offset `x - f`, from `-f` to `f`.
//! Values are stored row-major with x fastest, then y, then z:
//! `index(x, y, z) = x + y * W + z * W * H`. A grid of z-fidelity zero is a
//! single plane.
use vstd::prelude::*;

verus! {

/// The shape of a sampling grid: a fidelity per axis.
#[derive(Clone, Copy, Debug, PartialEq, Eq, Structural)]
pub struct GridShape {
    pub fidelity_x: u32,
    pub fidelity_y: u32,
    pub fidelity_z: u32,
}

/// Why sampling was refused or failed.
#[derive(Clone, Copy, Debug, PartialEq, Eq, Structural)]
pub enum SampleError {
    /// The fidelity of a sampled axis is zero.
    FidelityTooSmall,
    /// The number of grid points does not fit in a `usize`.
    TooLarge,
    /// A window's lower bound is not below its upper bound.
    EmptyWindow,
    /// The evaluator gave both predicate and residual results in one pass.
    MixedResults,
}

impl GridShape {
    pub open spec fn width(self) -> nat {
        (2 * self.fidelity_x + 1) as nat
    }

    pub open spec fn height(self) -> nat {
        (2 * self.fidelity_y + 1) as nat
    }

    pub open spec fn depth(self) -> nat {
        (2 * self.fidelity_z + 1) as nat
    }

    /// The number of grid points.
    pub open spec fn count(self) -> nat {
        self.width() * self.height() * self.depth()
    }

    pub open spec fn wf(self) -> bool {
        &&& self.fidelity_x >= 1
        &&& self.fidelity_y >= 1
        &&& self.count() <= usize::MAX
    }

    /// The canonical offset of the grid position `(x, y, z)`.
    pub open spec fn index(self, x: nat, y: nat, z: nat) -> nat {
        x + y * self.width() + z * self.width() * self.height()
    }

    /// The signed offsets of the point stored at index `k`.
    pub open spec fn point(self, k: nat) -> (i64, i64, i64) {
        (
            (k % self.width() - self.fidelity_x) as i64,
            ((k / self.width()) % self.height() - self.fidelity_y) as i64,
            (k / (self.width() * self.height()) - self.fidelity_z) as i64,
        )
    }

    /// The shape of a plane grid.
    pub fn plane(fidelity_x: u32, fidelity_y: u32) -> (r: Result<GridShape, SampleError>)
        ensures
            (fidelity_x == 0 || fidelity_y == 0) <==> r == Err::<GridShape, SampleError>(
                SampleError::FidelityTooSmall,
            ),
            fidelity_x >= 1 && fidelity_y >= 1 && (GridShape {
                fidelity_x,
                fidelity_y,
                fidelity_z: 0,
            }).count() > usize::MAX <==> r == Err::<GridShape, SampleError>(
                SampleError::TooLarge,
            ),
            r is Err ==> r == Err::<GridShape, SampleError>(SampleError::FidelityTooSmall) || r
                == Err::<GridShape, SampleError>(SampleError::TooLarge),
            r is Ok ==> r->Ok_0.wf() && r->Ok_0 == (GridShape {
                fidelity_x,
                fidelity_y,
                fidelity_z: 0,
            }),
    {
        GridShape::volume_of(fidelity_x, fidelity_y, 0)
    }

    /// The shape of a volume grid.
    pub fn volume(fidelity_x: u32, fidelity_y: u32, fidelity_z: u32) -> (r: Result<
        GridShape,
        SampleError,
    >)
        ensures
            (fidelity_x == 0 || fidelity_y == 0 || fidelity_z == 0) <==> r == Err::<
                GridShape,
                SampleError,
            >(SampleError::FidelityTooSmall),
            fidelity_x >= 1 && fidelity_y >= 1 && fidelity_z >= 1 && (GridShape {
                fidelity_x,
                fidelity_y,
                fidelity_z,
            }).count() > usize::MAX <==> r == Err::<GridShape, SampleError>(
                SampleError::TooLarge,
            ),
            r is Err ==> r == Err::<GridShape, SampleError>(SampleError::FidelityTooSmall) || r
                == Err::<GridShape, SampleError>(SampleError::TooLarge),
            r is Ok ==> r->Ok_0.wf() && r->Ok_0 == (GridShape { fidelity_x, fidelity_y, fidelity_z }),
    {
        if fidelity_z == 0 {
            return Err(SampleError::FidelityTooSmall);
        }
        GridShape::volume_of(fidelity_x, fidelity_y, fidelity_z)
    }

    fn volume_of(fidelity_x: u32, fidelity_y: u32, fidelity_z: u32) -> (r: Result<
        GridShape,
        SampleError,
    >)
        ensures
            (fidelity_x == 0 || fidelity_y == 0) <==> r == Err::<GridShape, SampleError>(
                SampleError::FidelityTooSmall,
            ),
            fidelity_x >= 1 && fidelity_y >= 1 && (GridShape {
                fidelity_x,
                fidelity_y,
                fidelity_z,
            }).count() > usize::MAX <==> r == Err::<GridShape, SampleError>(
                SampleError::TooLarge,
            ),
            r is Err ==> r == Err::<GridShape, SampleError>(SampleError::FidelityTooSmall) || r
                == Err::<GridShape, SampleError>(SampleError::TooLarge),
            r is Ok ==> r->Ok_0.wf() && r->Ok_0 == (GridShape { fidelity_x, fidelity_y, fidelity_z }),
    {
        if fidelity_x == 0 || fidelity_y == 0 {
            return Err(SampleError::FidelityTooSmall);
        }
        let shape = GridShape { fidelity_x, fidelity_y, fidelity_z };
        let w: u128 = 2 * fidelity_x as u128 + 1;
        let h: u128 = 2 * fidelity_y as u128 + 1;
        let d: u128 = 2 * fidelity_z as u128 + 1;
        proof {
            assert(w * h <= 0x4_0000_0000_0000_0000 && w * h * d
                <= 0x8_0000_0000_0000_0000_0000_0000) by (nonlinear_arith)
                requires
                    w <= 0x2_0000_0000,
                    h <= 0x2_0000_0000,
                    d <= 0x2_0000_0000,
            ;
        }
        if w * h * d > usize::MAX as u128 {
            Err(SampleError::TooLarge)
        } else {
            Ok(shape)
        }
    }

    proof fn lemma_dimensions_fit(self)
        requires
            self.wf(),
        ensures
            self.width() <= self.width() * self.height(),
            self.width() * self.height() <= self.count(),
            self.height() <= self.count(),
            self.depth() <= self.count(),
    {
        let w = self.width();
        let h = self.height();
        let d = self.depth();
        assert(w <= w * h && w * h <= w * h * d && h <= w * h * d && d <= w * h * d)
            by (nonlinear_arith)
            requires
                w >= 1,
                h >= 1,
                d >= 1,
        ;
    }

    /// The number of grid points.
    pub fn len(&self) -> (r: usize)
        requires
            self.wf(),
        ensures
            r == self.count(),
    {
        proof {
            self.lemma_dimensions_fit();
        }
        let w = 2 * self.fidelity_x as usize + 1;
        let h = 2 * self.fidelity_y as usize + 1;
        let d = 2 * self.fidelity_z as usize + 1;
        proof {
            assert(w * h <= w * h * d) by (nonlinear_arith)
                requires
                    d >= 1,
            ;
        }
        w * h * d
    }

    /// The signed offsets of the point stored at index `k`.
    pub fn point_of(&self, k: usize) -> (r: (i64, i64, i64))
        requires
            self.wf(),
            k < self.count(),
        ensures
            r == self.point(k as nat),
    {
        proof {
            self.lemma_dimensions_fit();
        }
        let w = 2 * self.fidelity_x as usize + 1;
        let h = 2 * self.fidelity_y as usize + 1;
        let d = 2 * self.fidelity_z as usize + 1;
        proof {
            assert(w * h <= w * h * d) by (nonlinear_arith)
                requires
                    d >= 1,
            ;
            assert((k as int) / ((w * h) as int) < d) by (nonlinear_arith)
                requires
                    k < w * h * d,
                    w * h >= 1,
            ;
        }
        let x = k % w;
        let y = (k / w) % h;
        let z = k / (w * h);
        (
            x as i64 - self.fidelity_x as i64,
            y as i64 - self.fidelity_y as i64,
            z as i64 - self.fidelity_z as i64,
        )
    }
}

/// For a fixed width `w`, the row-major offset `x + y * w` is injective over
/// `0 <= x < w`, `0 <= y < h`.
pub proof fn lemma_index_injective(w: nat, h: nat, x1: nat, y1: nat, x2: nat, y2: nat)
    requires
        x1 < w,
        x2 < w,
        y1 < h,
        y2 < h,
        x1 + y1 * w == x2 + y2 * w,
    ensures
        x1 == x2,
        y1 == y2,
{
    assert(y1 == y2) by (nonlinear_arith)
        requires
            x1 < w,
            x2 < w,
            x1 + y1 * w == x2 + y2 * w,
    {
        if y1 < y2 {
            assert(y1 * w + w <= y2 * w);
        } else if y2 < y1 {
            assert(y2 * w + w <= y1 * w);
        }
    }
}

} // verus!
