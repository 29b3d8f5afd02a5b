//! A parameterised four-segment piecewise linear approximation of an
//! exponential curve, usable as an envelope.

use vstd::prelude::*;

verus! {

/// Normalisation constant shared by the input and the output coordinates.
pub const NORM: i32 = 32768;

/// Exclusive upper bound of the shape parameter: half of `NORM`.
pub const SIGMA_MAX: i32 = 16384;

/// Integer division as Rust's `/` performs it: the quotient is rounded toward zero.
pub open spec fn div_toward_zero(a: int, b: int) -> int {
    if a >= 0 && b > 0 {
        a / b
    } else if a >= 0 {
        -(a / (-b))
    } else if b > 0 {
        -((-a) / b)
    } else {
        (-a) / (-b)
    }
}

/// The curve with normalisation `norm` and shape parameter `sigma`, at input `x`.
/// Breakpoints lie at `norm/4 - sigma/2`, `norm/2 - sigma`, `3 norm/4 - sigma` and
/// `norm`; inputs below zero give `norm`, inputs above `norm` give zero.
/// The output is not clamped: for shapes near `norm / 2` the first segments fall
/// below zero (shape 16383 at input 1 gives -16382 for a `norm` of 32768), and
/// the curve is then not monotonic. Only at shape zero is it the straight line
/// from `norm` down to zero.
pub open spec fn curve(norm: int, sigma: int, x: int) -> int {
    if x < 0 {
        norm
    } else if x <= norm / 4 - sigma / 2 {
        div_toward_zero(x * (4 * sigma + norm), 2 * sigma - norm) + norm
    } else if x <= norm / 2 - sigma {
        div_toward_zero(norm * x, 2 * sigma - norm) + norm - sigma
    } else if x <= (3 * norm) / 4 - sigma {
        div_toward_zero(x * (2 * sigma - norm) + (norm - sigma) * (norm - 2 * sigma), norm)
    } else if x <= norm {
        div_toward_zero(x * (2 * sigma - norm) + norm * (norm - 2 * sigma), norm + 4 * sigma)
    } else {
        0
    }
}

/// Envelope shaper holding its shape parameter `sigma`.
pub struct LinExp<T> {
    sigma: T,
    norm: T,
    sigma_max: T,
}

impl LinExp<i32> {
    /// The current shape parameter.
    pub closed spec fn shape(&self) -> int {
        self.sigma as int
    }

    /// The normalisation is `NORM`, the bound is `SIGMA_MAX`, and the shape
    /// parameter lies in `[0, SIGMA_MAX)`.
    pub closed spec fn wf(&self) -> bool {
        &&& self.norm == NORM
        &&& self.sigma_max == SIGMA_MAX
        &&& 0 <= self.sigma < SIGMA_MAX
    }

    /// A well-formed shaper has its shape parameter in `[0, SIGMA_MAX)`.
    pub proof fn lemma_wf_shape(&self)
        requires
            self.wf(),
        ensures
            0 <= self.shape() < SIGMA_MAX,
    {
    }

    /// A shaper with shape parameter zero.
    pub fn new() -> (r: Self)
        ensures
            r.wf(),
            r.shape() == 0,
    {
        Self { sigma: 0, norm: NORM, sigma_max: SIGMA_MAX }
    }

    /// The curve at input `x` for the current shape parameter: `NORM` below zero,
    /// zero above `NORM`, and the four segments in between, which are not clamped
    /// to `[0, NORM]` (see `curve`).
    pub fn y(&self, x: i32) -> (r: i32)
        requires
            self.wf(),
        ensures
            r == curve(NORM as int, self.shape(), x as int),
            x < 0 ==> r == NORM,
            x > NORM ==> r == 0,
    {
        let norm = self.norm;
        let s = self.sigma;
        if x < 0 {
            norm
        } else if x <= norm / 4 - s / 2 {
            assert(0 <= x * (4 * s + norm) <= 8192 * 98304) by (nonlinear_arith)
                requires
                    0 <= x <= 8192,
                    0 < 4 * s + norm <= 98304,
            ;
            norm - (x * (4 * s + norm)) / (norm - 2 * s)
        } else if x <= norm / 2 - s {
            assert(0 <= norm * x <= 32768 * 16384) by (nonlinear_arith)
                requires
                    0 <= x <= 16384,
                    norm == 32768,
            ;
            norm - s - (norm * x) / (norm - 2 * s)
        } else if x <= (3 * norm) / 4 - s {
            assert(-24576 * 32768 <= x * (2 * s - norm) <= 0) by (nonlinear_arith)
                requires
                    0 <= x <= 24576,
                    -32768 <= 2 * s - norm < 0,
            ;
            assert(0 <= (norm - s) * (norm - 2 * s) <= 32768 * 32768) by (nonlinear_arith)
                requires
                    0 < norm - s <= 32768,
                    0 < norm - 2 * s <= 32768,
            ;
            assert(x * (2 * s - norm) + (norm - s) * (norm - 2 * s) == (norm - 2 * s) * (
            norm - s - x)) by (nonlinear_arith);
            assert(0 <= (norm - 2 * s) * (norm - s - x)) by (nonlinear_arith)
                requires
                    0 < norm - 2 * s,
                    0 <= norm - s - x,
            ;
            (x * (2 * s - norm) + (norm - s) * (norm - 2 * s)) / norm
        } else if x <= norm {
            assert(-32768 * 32768 <= x * (2 * s - norm) <= 0) by (nonlinear_arith)
                requires
                    0 <= x <= 32768,
                    -32768 <= 2 * s - norm < 0,
            ;
            assert(0 <= norm * (norm - 2 * s) <= 32768 * 32768) by (nonlinear_arith)
                requires
                    norm == 32768,
                    0 < norm - 2 * s <= 32768,
            ;
            assert(x * (2 * s - norm) + norm * (norm - 2 * s) == (norm - 2 * s) * (norm - x))
                by (nonlinear_arith);
            assert(0 <= (norm - 2 * s) * (norm - x)) by (nonlinear_arith)
                requires
                    0 < norm - 2 * s,
                    0 <= norm - x,
            ;
            (x * (2 * s - norm) + norm * (norm - 2 * s)) / (norm + 4 * s)
        } else {
            0
        }
    }

    /// Sets the shape parameter; a value outside `[0, SIGMA_MAX)` sets it to zero.
    pub fn set_sigma(&mut self, sigma: i32)
        requires
            old(self).wf(),
        ensures
            final(self).wf(),
            final(self).shape() == if 0 <= sigma < SIGMA_MAX {
                sigma as int
            } else {
                0
            },
    {
        if sigma >= 0 && sigma < self.sigma_max {
            self.sigma = sigma;
        } else {
            self.sigma = 0;
        }
    }

    /// The exclusive upper bound of the shape parameter.
    pub fn get_sigma_max(&self) -> (r: i32)
        requires
            self.wf(),
        ensures
            r == SIGMA_MAX,
    {
        self.sigma_max
    }

    /// The normalisation constant of both coordinates.
    pub fn get_norm(&self) -> (r: i32)
        requires
            self.wf(),
        ensures
            r == NORM,
    {
        self.norm
    }
}

/// With shape parameter zero the curve is the straight line from `NORM` at input
/// zero down to zero at input `NORM`: strictly decreasing over `[0, NORM]`, and
/// neighbouring inputs differ in output by exactly one unit, at the breakpoints too.
pub proof fn lemma_zero_shape_strictly_decreasing(x1: int, x2: int)
    requires
        0 <= x1 < x2 <= NORM,
    ensures
        curve(NORM as int, 0, x1) > curve(NORM as int, 0, x2),
        x2 == x1 + 1 ==> curve(NORM as int, 0, x1) - curve(NORM as int, 0, x2) == 1,
{
    lemma_zero_shape_line(x1);
    lemma_zero_shape_line(x2);
}

/// With shape parameter zero every segment of the curve is `NORM - x`.
pub proof fn lemma_zero_shape_line(x: int)
    requires
        0 <= x <= NORM,
    ensures
        curve(NORM as int, 0, x) == NORM - x,
{
    assert((x * 32768) / 32768 == x) by (nonlinear_arith);
    assert((32768 * x) / 32768 == x) by (nonlinear_arith);
    assert((x * -32768 + 32768 * 32768) / 32768 == 32768 - x) by (nonlinear_arith)
        requires
            0 <= x <= 32768,
    ;
}

} // verus!
