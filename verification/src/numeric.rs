//! Numerical differentiation: wraps a value-only objective and synthesizes
//! a gradient via finite differences, making any function differentiable.

use vstd::prelude::*;
use vstd::pervasive::VecAdditionalExecFns;
use crate::fixed::{fx_abs, fx_abs_spec, fx_add, fx_add_spec, fx_div, fx_div_spec, fx_sub,
    fx_sub_spec};
use crate::types::{Function, Function1};
use crate::problems::Problem;

verus! {

/// The smallest probe step: 2⁻¹¹ as a fixed-point scalar, roughly the cube
/// root of the scalar resolution — the step that balances the rounding
/// error of a central difference against its curvature error.
pub const FD_STEP_FLOOR: i64 = 2097152;

/// The relative scaling of the probe step: `|xi|` shifted down to the same
/// 2⁻¹¹ magnitude.
pub const FD_STEP_DIVISOR: i64 = 2048;

/// The probe step used at coordinate value `xi`: `|xi| / 2¹¹`, but never
/// below `FD_STEP_FLOOR`. This is the fixed-point analogue of
/// `cbrt(machine_epsilon) * max(|xi|, floor)`, the customary step for a
/// central difference.
pub open spec fn fd_step_spec(xi: i64) -> i64 {
    let scaled = (fx_abs_spec(xi) as int) / (FD_STEP_DIVISOR as int);
    if scaled > FD_STEP_FLOOR {
        scaled as i64
    } else {
        FD_STEP_FLOOR
    }
}

/// Computes the probe step for coordinate value `xi`.
fn fd_step(xi: i64) -> (r: i64)
    ensures
        r == fd_step_spec(xi),
        r >= FD_STEP_FLOOR,
{
    let a = fx_abs(xi);
    let scaled = ((a as u64) / (FD_STEP_DIVISOR as u64)) as i64;
    if scaled > FD_STEP_FLOOR {
        scaled
    } else {
        FD_STEP_FLOOR
    }
}

/// The central-difference estimate of `∂f/∂xᵢ` at `x`:
/// `(f(x + h·eᵢ) − f(x − h·eᵢ)) / (2h)` with `h = fd_step_spec(x[i])`.
pub open spec fn central_diff_at<F: Function>(f: &F, x: Seq<i64>, i: int) -> i64 {
    let h = fd_step_spec(x[i]);
    let fp = f.value_spec(x.update(i, fx_add_spec(x[i], h)));
    let fm = f.value_spec(x.update(i, fx_sub_spec(x[i], h)));
    fx_div_spec(fx_sub_spec(fp, fm), fx_add_spec(h, h))
}

/// Wraps a function for which to provide numeric differentiation.
///
/// Uses a central difference with per-coordinate probe step
/// `h = fd_step_spec(xᵢ)`: two evaluations per coordinate, for roughly
/// squared error reduction compared to a one-sided difference. The choice
/// is fixed: `gradient` computes exactly `central_diff_at` for every
/// coordinate.
pub struct NumericalDifferentiation<F: Function> {
    function: F,
}

impl<F: Function> NumericalDifferentiation<F> {
    /// The wrapped function.
    pub closed spec fn inner_spec(&self) -> F {
        self.function
    }

    /// Creates a new differentiable function by using the supplied
    /// `function` in combination with numeric differentiation to find the
    /// derivatives.
    pub fn new(function: F) -> (r: Self)
        ensures
            r.inner_spec() == function,
    {
        NumericalDifferentiation { function }
    }
}

impl<F: Function + Default> Default for NumericalDifferentiation<F> {
    /// Wraps the default value of the wrapped function type. Nothing is
    /// known of a generic type's default value, so nothing more can be
    /// promised of the result.
    fn default() -> (r: Self) {
        NumericalDifferentiation::new(F::default())
    }
}

impl<F: Function> Function for NumericalDifferentiation<F> {
    open spec fn dims_ok(&self, n: nat) -> bool {
        self.inner_spec().dims_ok(n)
    }

    open spec fn value_spec(&self, position: Seq<i64>) -> i64 {
        self.inner_spec().value_spec(position)
    }

    fn value(&self, position: &Vec<i64>) -> (r: i64) {
        self.function.value(position)
    }
}

impl<F: Function> Function1 for NumericalDifferentiation<F> {
    open spec fn gradient_spec(&self, position: Seq<i64>) -> Seq<i64> {
        Seq::new(position.len(), |i: int| central_diff_at(&self.inner_spec(), position, i))
    }

    fn gradient(&self, position: &Vec<i64>) -> (r: Vec<i64>) {
        let mut xbuf: Vec<i64> = position.clone();
        proof {
            assert(xbuf@ =~= position@);
        }
        let mut g: Vec<i64> = Vec::new();
        let mut i: usize = 0;
        while i < position.len()
            invariant
                0 <= i <= position@.len(),
                self.inner_spec().dims_ok(position@.len()),
                xbuf@ == position@,
                g@.len() == i as int,
                forall|j: int|
                    0 <= j < i ==> g@[j] == central_diff_at(&self.inner_spec(), position@, j),
            decreases position@.len() - i,
        {
            let xi = position[i];
            let h = fd_step(xi);
            xbuf.set(i, fx_add(xi, h));
            let fp = self.function.value(&xbuf);
            xbuf.set(i, fx_sub(xi, h));
            proof {
                assert(xbuf@ =~= position@.update(i as int, fx_sub_spec(xi, h)));
            }
            let fm = self.function.value(&xbuf);
            xbuf.set(i, xi);
            proof {
                assert(xbuf@ =~= position@);
            }
            g.push(fx_div(fx_sub(fp, fm), fx_add(h, h)));
            i += 1;
        }
        proof {
            assert(g@ =~= self.gradient_spec(position@));
        }
        g
    }
}

impl<F: Problem> Problem for NumericalDifferentiation<F> {
    open spec fn dimensions_spec(&self) -> nat {
        self.inner_spec().dimensions_spec()
    }

    open spec fn domain_spec(&self) -> Seq<(i64, i64)> {
        self.inner_spec().domain_spec()
    }

    open spec fn minimum_spec(&self) -> (Seq<i64>, i64) {
        self.inner_spec().minimum_spec()
    }

    fn dimensions(&self) -> (r: usize) {
        self.function.dimensions()
    }

    fn domain(&self) -> (r: Vec<(i64, i64)>) {
        self.function.domain()
    }

    fn minimum(&self) -> (r: (Vec<i64>, i64)) {
        self.function.minimum()
    }

    fn random_start(&self) -> (r: Vec<i64>) {
        self.function.random_start()
    }
}

} // verus!
