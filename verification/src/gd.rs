//! The full-batch iterative minimizer: compute the gradient, check
//! convergence, delegate step selection to a line search, repeat.

use vstd::prelude::*;
use crate::fixed::SCALE;
use crate::line_search::{ArmijoLineSearch, LineSearch};
use crate::types::{Function, Function1, Minimizer, Solution};
use crate::utils::{is_saddle_point, is_saddle_point_spec, neg_vec, neg_vec_spec};

verus! {

/// Default convergence threshold: roughly `1e-4` as a fixed-point scalar.
pub const GRADIENT_TOLERANCE_DEFAULT: i64 = 429497;

/// One half as a fixed-point scalar.
pub const HALF: i64 = 2147483648;

/// A simple Gradient Descent optimizer.
pub struct GradientDescent<T> {
    line_search: T,
    gradient_tolerance: i64,
    max_iterations: Option<u64>,
}

impl<T> GradientDescent<T> {
    /// The configured line search strategy.
    pub closed spec fn line_search_spec(&self) -> T {
        self.line_search
    }

    /// The convergence threshold: the driver stops as soon as every
    /// absolute gradient component is at most this value.
    pub closed spec fn gradient_tolerance_spec(&self) -> i64 {
        self.gradient_tolerance
    }

    /// The configured iteration cap, or `None` for an unbounded run.
    pub closed spec fn max_iterations_spec(&self) -> Option<u64> {
        self.max_iterations
    }

    /// The number of line-search steps the driver takes at most: the
    /// configured cap, or `u64::MAX` when none is set.
    pub open spec fn cap_spec(&self) -> nat {
        match self.max_iterations_spec() {
            Option::Some(m) => m as nat,
            Option::None => u64::MAX as nat,
        }
    }
}

impl GradientDescent<ArmijoLineSearch> {
    /// Creates a new `GradientDescent` optimizer using the following
    /// defaults:
    ///
    /// - **`line_search`** = `ArmijoLineSearch(0.5, 1.0, 0.5)`, the three
    ///   parameters given as fixed-point scalars
    /// - **`gradient_tolerance`** = roughly `1e-4`
    /// - **`max_iterations`** = `None`
    pub fn new() -> (r: GradientDescent<ArmijoLineSearch>)
        ensures
            r.gradient_tolerance_spec() == GRADIENT_TOLERANCE_DEFAULT,
            r.max_iterations_spec() is None,
            r.line_search_spec().control_spec() == HALF,
            r.line_search_spec().initial_step_spec() == SCALE,
            r.line_search_spec().decay_spec() == HALF,
            r.line_search_spec().wf(),
    {
        GradientDescent {
            line_search: ArmijoLineSearch::new(HALF, SCALE, HALF),
            gradient_tolerance: GRADIENT_TOLERANCE_DEFAULT,
            max_iterations: None,
        }
    }
}

impl<T> GradientDescent<T> {
    /// Specifies the line search method to use.
    pub fn line_search<S>(self, line_search: S) -> (r: GradientDescent<S>)
        ensures
            r.line_search_spec() == line_search,
            r.gradient_tolerance_spec() == self.gradient_tolerance_spec(),
            r.max_iterations_spec() == self.max_iterations_spec(),
    {
        GradientDescent {
            line_search,
            gradient_tolerance: self.gradient_tolerance,
            max_iterations: self.max_iterations,
        }
    }

    /// Adjusts the gradient tolerance which is used as abort criterion to
    /// decide whether we reached a plateau.
    pub fn gradient_tolerance(self, gradient_tolerance: i64) -> (r: Self)
        requires
            gradient_tolerance > 0,
        ensures
            r.gradient_tolerance_spec() == gradient_tolerance,
            r.line_search_spec() == self.line_search_spec(),
            r.max_iterations_spec() == self.max_iterations_spec(),
    {
        GradientDescent {
            line_search: self.line_search,
            gradient_tolerance,
            max_iterations: self.max_iterations,
        }
    }

    /// Adjusts the number of maximally run iterations. A value of `None`
    /// instructs the optimizer to ignore the number of iterations.
    pub fn max_iterations(self, max_iterations: Option<u64>) -> (r: Self)
        requires
            max_iterations matches Some(m) ==> m > 0,
        ensures
            r.max_iterations_spec() == max_iterations,
            r.line_search_spec() == self.line_search_spec(),
            r.gradient_tolerance_spec() == self.gradient_tolerance_spec(),
    {
        GradientDescent {
            line_search: self.line_search,
            gradient_tolerance: self.gradient_tolerance,
            max_iterations,
        }
    }

    /// The record that a minimization run leaves: the positions visited, in
    /// order, starting at the initial position and ending at the returned
    /// one. Every position before the last had some absolute gradient
    /// component above the tolerance — otherwise the run would have stopped
    /// there — and each next position, with its value, is a result that the
    /// configured line search admits at the previous position along the
    /// negated gradient. The run ends either within tolerance of a flat
    /// area or after exactly `cap_spec()` line-search steps.
    pub open spec fn run_trail_ok<F: Function1>(
        &self,
        f: &F,
        init: Seq<i64>,
        result: Seq<i64>,
        trail: Seq<Seq<i64>>,
    ) -> bool
        where
            T: LineSearch<F>,
    {
        &&& trail.len() >= 1
        &&& trail.first() == init
        &&& trail.last() == result
        &&& forall|i: int|
            0 <= i < trail.len() - 1 ==> !is_saddle_point_spec(
                f.gradient_spec(#[trigger] trail[i]),
                self.gradient_tolerance_spec(),
            )
        &&& forall|i: int|
            0 <= i < trail.len() - 1 ==> self.line_search_spec().search_post(
                f,
                #[trigger] trail[i],
                neg_vec_spec(f.gradient_spec(trail[i])),
                trail[i + 1],
                f.value_spec(trail[i + 1]),
            )
        &&& is_saddle_point_spec(f.gradient_spec(trail.last()), self.gradient_tolerance_spec())
            || trail.len() == self.cap_spec() + 1
    }
}

/// Along a recorded gradient-descent run with a valid Armijo line search,
/// no step increases the objective: every visited position's value is at
/// most the value at the start position.
pub proof fn lemma_armijo_trail_value_bound<F: Function1>(
    gd: &GradientDescent<ArmijoLineSearch>,
    f: &F,
    init: Seq<i64>,
    result: Seq<i64>,
    trail: Seq<Seq<i64>>,
    j: int,
)
    requires
        gd.line_search_spec().wf(),
        gd.run_trail_ok(f, init, result, trail),
        0 <= j < trail.len(),
    ensures
        f.value_spec(trail[j]) <= f.value_spec(init),
    decreases j,
{
    if j > 0 {
        lemma_armijo_trail_value_bound(gd, f, init, result, trail, j - 1);
        assert(gd.line_search_spec().search_post(
            f,
            trail[j - 1],
            neg_vec_spec(f.gradient_spec(trail[j - 1])),
            trail[j],
            f.value_spec(trail[j]),
        ));
    } else {
        assert(trail[0] == trail.first());
    }
}

/// The solution of such a run is at least as good as the start position:
/// the returned value never exceeds the objective's value at the start.
pub proof fn lemma_armijo_run_non_increasing<F: Function1>(
    gd: &GradientDescent<ArmijoLineSearch>,
    f: &F,
    init: Seq<i64>,
    result: Seq<i64>,
    trail: Seq<Seq<i64>>,
)
    requires
        gd.line_search_spec().wf(),
        gd.run_trail_ok(f, init, result, trail),
    ensures
        f.value_spec(result) <= f.value_spec(init),
{
    lemma_armijo_trail_value_bound(gd, f, init, result, trail, trail.len() - 1);
    assert(trail[trail.len() - 1] == trail.last());
}

impl<F: Function1, S: LineSearch<F>> Minimizer<F> for GradientDescent<S> {
    type Solution = Solution;

    #[verifier::loop_isolation(false)]
    fn minimize(&self, function: &F, initial_position: Vec<i64>) -> (r: Solution)
        ensures
            exists|trail: Seq<Seq<i64>>|
                self.run_trail_ok(function, initial_position@, r.position@, trail),
    {
        let ghost init = initial_position@;
        let cap: u64 = match self.max_iterations {
            Some(m) => m,
            None => u64::MAX,
        };
        let mut position = initial_position;
        let mut value = function.value(&position);
        let mut iteration: u64 = 0;
        let ghost mut trail: Seq<Seq<i64>> = seq![init];
        while iteration < cap
            invariant
                function.dims_ok(init.len()),
                position@.len() == init.len(),
                value == function.value_spec(position@),
                iteration <= cap,
                cap as nat == self.cap_spec(),
                trail.len() == iteration + 1,
                trail.first() == init,
                trail.last() == position@,
                forall|i: int|
                    0 <= i < trail.len() - 1 ==> !is_saddle_point_spec(
                        function.gradient_spec(#[trigger] trail[i]),
                        self.gradient_tolerance_spec(),
                    ),
                forall|i: int|
                    0 <= i < trail.len() - 1 ==> self.line_search_spec().search_post(
                        function,
                        #[trigger] trail[i],
                        neg_vec_spec(function.gradient_spec(trail[i])),
                        trail[i + 1],
                        function.value_spec(trail[i + 1]),
                    ),
            decreases cap - iteration,
        {
            let gradient = function.gradient(&position);
            if is_saddle_point(&gradient, self.gradient_tolerance) {
                proof {
                    assert(self.run_trail_ok(function, init, position@, trail));
                }
                return Solution::new(position, value);
            }
            let direction = neg_vec(&gradient);
            let (next_position, next_value) = self.line_search.search(
                function,
                &position,
                &direction,
            );
            proof {
                let old_trail = trail;
                trail = trail.push(next_position@);
                assert forall|i: int|
                    0 <= i < trail.len() - 1 implies self.line_search_spec().search_post(
                    function,
                    #[trigger] trail[i],
                    neg_vec_spec(function.gradient_spec(trail[i])),
                    trail[i + 1],
                    function.value_spec(trail[i + 1]),
                ) by {
                    if i < old_trail.len() - 1 {
                        assert(trail[i] == old_trail[i]);
                        assert(trail[i + 1] == old_trail[i + 1]);
                    } else {
                        assert(trail[i] == position@);
                        assert(trail[i + 1] == next_position@);
                        assert(direction@ == neg_vec_spec(function.gradient_spec(position@)));
                        assert(next_value == function.value_spec(next_position@));
                    }
                }
            }
            position = next_position;
            value = next_value;
            iteration = iteration + 1;
        }
        proof {
            assert(self.run_trail_ok(function, init, position@, trail));
        }
        Solution::new(position, value)
    }
}

} // verus!
