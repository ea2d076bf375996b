//! Line search strategies: given a position and a descent direction, choose
//! a step length and return the stepped position with its objective value.

use vstd::prelude::*;
use crate::fixed::{fx_mul, fx_mul_spec, fx_neg, fx_neg_spec, fx_sub, fx_sub_spec, SCALE};
use crate::types::{Function, Function1};
use crate::utils::{dot, dot_spec, step_position, step_position_spec};

verus! {

/// Defines a line search method, i.e., a way of choosing an appropriate step
/// width starting at `initial_position` along `direction`.
///
/// `search` returns the stepped position together with the objective's value
/// at that position: the pair is never stale, and the position keeps the
/// dimensionality of the start position.
pub trait LineSearch<F: Function1>: Sized {
    /// The strategy's relation between the inputs of a search and the pair
    /// it returns: what `search` promises beyond the common clauses. Each
    /// strategy opens this to its exact behaviour, so a driver that records
    /// the positions a run visited pins every step to the configured
    /// strategy.
    spec fn search_post(
        &self,
        f: &F,
        x: Seq<i64>,
        d: Seq<i64>,
        new_position: Seq<i64>,
        new_value: i64,
    ) -> bool;

    /// Performs the actual line search given the current `position` `x` and
    /// a `direction` to go to. Returns the new position and its value.
    fn search(
        &self,
        function: &F,
        initial_position: &Vec<i64>,
        direction: &Vec<i64>,
    ) -> (r: (Vec<i64>, i64))
        requires
            function.dims_ok(initial_position@.len()),
            direction@.len() == initial_position@.len(),
        ensures
            r.0@.len() == initial_position@.len(),
            r.1 == function.value_spec(r.0@),
            self.search_post(function, initial_position@, direction@, r.0@, r.1),
    ;
}

/// Uses a fixed step width `γ` in each iteration instead of performing an
/// actual line search.
#[derive(Debug, Copy, Clone)]
pub struct NoLineSearch {
    fixed_step_width: i64,
}

impl NoLineSearch {
    /// The configured step width.
    pub closed spec fn step_width_spec(&self) -> i64 {
        self.fixed_step_width
    }

    /// Creates a new `NoLineSearch` given the static step width, which must
    /// be positive.
    pub fn new(fixed_step_width: i64) -> (r: NoLineSearch)
        requires
            fixed_step_width > 0,
        ensures
            r.step_width_spec() == fixed_step_width,
    {
        NoLineSearch { fixed_step_width }
    }
}

impl<F: Function1> LineSearch<F> for NoLineSearch {
    /// The stepped position is exactly `x + step_width * d`, elementwise in
    /// fixed-point arithmetic.
    open spec fn search_post(
        &self,
        f: &F,
        x: Seq<i64>,
        d: Seq<i64>,
        new_position: Seq<i64>,
        new_value: i64,
    ) -> bool {
        new_position == step_position_spec(x, self.step_width_spec(), d)
    }

    fn search(
        &self,
        function: &F,
        initial_position: &Vec<i64>,
        direction: &Vec<i64>,
    ) -> (r: (Vec<i64>, i64)) {
        let position = step_position(initial_position, self.fixed_step_width, direction);
        let value = function.value(&position);
        (position, value)
    }
}

/// Brute-force line search minimizing the objective function over a set of
/// step width candidates, also known as exact line search.
///
/// The candidate step widths are `start_step_width * increase_factor^k` for
/// `k = 0, 1, 2, ...` as long as they do not exceed `stop_step_width`, each
/// computed with fixed-point multiplication (see `step_width_at`).
#[derive(Debug, Copy, Clone)]
pub struct ExactLineSearch {
    start_step_width: i64,
    stop_step_width: i64,
    increase_factor: i64,
}

impl ExactLineSearch {
    /// The first candidate step width.
    pub closed spec fn start_spec(&self) -> i64 {
        self.start_step_width
    }

    /// The bound that no candidate step width exceeds.
    pub closed spec fn stop_spec(&self) -> i64 {
        self.stop_step_width
    }

    /// The factor by which the candidate step width grows, as a fixed-point
    /// scalar greater than one.
    pub closed spec fn factor_spec(&self) -> i64 {
        self.increase_factor
    }

    /// The constraints that `new` establishes: positive start, a larger
    /// stop, and a growth factor strictly greater than one.
    pub open spec fn wf(&self) -> bool {
        0 < self.start_spec() && self.start_spec() < self.stop_spec() && self.factor_spec()
            > SCALE
    }

    /// The `k`-th candidate step width.
    pub open spec fn step_width_at(&self, k: nat) -> i64
        decreases k,
    {
        if k == 0 {
            self.start_spec()
        } else {
            fx_mul_spec(self.step_width_at((k - 1) as nat), self.factor_spec())
        }
    }

    /// Creates a new `ExactLineSearch` given the `start_step_width`, the
    /// `stop_step_width` and the `increase_factor`. The set of evaluated step
    /// widths `γ` is `{ γ | γ = start_step_width · increase_factorᵏ, k ∈ N,
    /// γ <= stop_step_width }`, assuming that `start_step_width` <
    /// `stop_step_width` and `increase_factor` > 1.
    pub fn new(start_step_width: i64, stop_step_width: i64, increase_factor: i64) -> (r:
        ExactLineSearch)
        requires
            0 < start_step_width,
            start_step_width < stop_step_width,
            increase_factor > SCALE,
        ensures
            r.start_spec() == start_step_width,
            r.stop_spec() == stop_step_width,
            r.factor_spec() == increase_factor,
            r.wf(),
    {
        ExactLineSearch { start_step_width, stop_step_width, increase_factor }
    }
}

/// One growth step never shrinks a positive candidate step width.
proof fn lemma_exact_step_grows(ls: ExactLineSearch, k: nat)
    requires
        ls.start_spec() > 0,
        ls.factor_spec() > SCALE,
    ensures
        ls.step_width_at(k) >= ls.start_spec(),
        ls.step_width_at(k + 1) >= ls.step_width_at(k),
    decreases k,
{
    if k > 0 {
        lemma_exact_step_grows(ls, (k - 1) as nat);
    }
    let s = ls.step_width_at(k);
    let f = ls.factor_spec();
    assert(s * f >= s * SCALE) by (nonlinear_arith)
        requires
            s >= 0,
            f > SCALE,
    ;
    assert((s * SCALE) / (SCALE as int) == s) by (nonlinear_arith)
        requires
            SCALE > 0,
    ;
    vstd::arithmetic::div_mod::lemma_div_is_ordered(s * SCALE, s * f, SCALE as int);
}

/// Later candidate step widths are never smaller than earlier ones.
proof fn lemma_exact_step_monotone(ls: ExactLineSearch, k1: nat, k2: nat)
    requires
        ls.start_spec() > 0,
        ls.factor_spec() > SCALE,
        k1 <= k2,
    ensures
        ls.step_width_at(k1) <= ls.step_width_at(k2),
    decreases k2 - k1,
{
    lemma_exact_step_grows(ls, k1);
    if k1 < k2 {
        lemma_exact_step_monotone(ls, k1 + 1, k2);
    }
}

/// Once one growth step makes no progress, every later candidate equals the
/// stalled one: the candidate sequence is constant from there on.
proof fn lemma_exact_step_stall(ls: ExactLineSearch, i: nat, j: nat)
    requires
        ls.step_width_at(i + 1) == ls.step_width_at(i),
        j >= i,
    ensures
        ls.step_width_at(j) == ls.step_width_at(i),
    decreases j - i,
{
    if j > i {
        lemma_exact_step_stall(ls, i, (j - 1) as nat);
        if j - 1 == i {
        } else {
            assert(ls.step_width_at(j) == fx_mul_spec(ls.step_width_at((j - 1) as nat), ls.factor_spec()));
        }
    }
}

/// A zero step multiplies to zero and leaves the position unchanged.
proof fn lemma_zero_step_is_identity(x: Seq<i64>, d: Seq<i64>, t: i64)
    requires
        d.len() == x.len(),
    ensures
        fx_mul_spec(0i64, t) == 0,
        step_position_spec(x, 0i64, d) == x,
{
    vstd::arithmetic::div_mod::lemma_div_of0(SCALE as int);
    assert(step_position_spec(x, 0i64, d) =~= x);
}

/// A decay step strictly shrinks a positive step width and keeps it
/// nonnegative.
proof fn lemma_decay_shrinks(s: i64, d: i64)
    requires
        s > 0,
        0 < d < SCALE,
    ensures
        0 <= fx_mul_spec(s, d) < s,
{
    assert(s * d < SCALE * s) by (nonlinear_arith)
        requires
            s > 0,
            0 < d < SCALE,
    ;
    assert(s * d >= 0) by (nonlinear_arith)
        requires
            s > 0,
            d > 0,
    ;
    vstd::arithmetic::div_mod::lemma_multiply_divide_lt(s * d, SCALE as int, s as int);
}

impl<F: Function1> LineSearch<F> for ExactLineSearch {
    /// The returned value is not above the value at the start position, the
    /// returned position is the start position or one of the candidates
    /// within the bound, and (for a configuration that `new` can produce)
    /// the value is not above the value at any candidate within the bound.
    open spec fn search_post(
        &self,
        f: &F,
        x: Seq<i64>,
        d: Seq<i64>,
        new_position: Seq<i64>,
        new_value: i64,
    ) -> bool {
        &&& new_value <= f.value_spec(x)
        &&& new_position == x || (exists|j: nat|
            #[trigger] self.step_width_at(j) <= self.stop_spec() && new_position
                == step_position_spec(x, self.step_width_at(j), d))
        &&& self.wf() ==> forall|j: nat|
            #[trigger] self.step_width_at(j) <= self.stop_spec() ==> new_value <= f.value_spec(
                step_position_spec(x, self.step_width_at(j), d),
            )
    }

    fn search(
        &self,
        function: &F,
        initial_position: &Vec<i64>,
        direction: &Vec<i64>,
    ) -> (r: (Vec<i64>, i64)) {
        let initial_value = function.value(initial_position);
        if self.start_step_width <= 0 || self.increase_factor <= SCALE {
            let position = initial_position.clone();
            proof {
                assert(position@ =~= initial_position@);
                assert(!self.wf());
            }
            return (position, initial_value);
        }
        let mut min_position = initial_position.clone();
        proof {
            assert(min_position@ =~= initial_position@);
        }
        let mut min_value = initial_value;
        let mut step_width = self.start_step_width;
        let mut stalled: bool = false;
        let ghost mut k: nat = 0;
        while step_width <= self.stop_step_width && !stalled
            invariant
                function.dims_ok(initial_position@.len()),
                direction@.len() == initial_position@.len(),
                self.start_spec() > 0,
                self.factor_spec() > SCALE,
                min_position@.len() == initial_position@.len(),
                min_value == function.value_spec(min_position@),
                min_value <= function.value_spec(initial_position@),
                step_width == self.step_width_at(k),
                stalled ==> k > 0 && self.step_width_at(k) == self.step_width_at((k - 1) as nat),
                min_position@ == initial_position@ || (exists|j: nat|
                    #[trigger] self.step_width_at(j) <= self.stop_spec() && min_position@
                        == step_position_spec(
                        initial_position@,
                        self.step_width_at(j),
                        direction@,
                    )),
                forall|j: nat|
                    j < k ==> min_value <= function.value_spec(
                        step_position_spec(
                            initial_position@,
                            #[trigger] self.step_width_at(j),
                            direction@,
                        ),
                    ),
            decreases (if step_width <= self.stop_spec() {
                self.stop_spec() - step_width + 1
            } else {
                0int
            }), (if stalled { 0int } else { 1int }),
        {
            let position = step_position(initial_position, step_width, direction);
            let value = function.value(&position);
            if value < min_value {
                min_position = position;
                min_value = value;
            }
            proof {
                lemma_exact_step_grows(*self, k);
            }
            let next = fx_mul(step_width, self.increase_factor);
            proof {
                assert(next == self.step_width_at(k + 1));
                assert(next >= step_width);
            }
            if next <= step_width {
                stalled = true;
            }
            step_width = next;
            proof {
                k = k + 1;
            }
        }
        proof {
            if self.wf() {
                assert forall|j: nat|
                    #[trigger] self.step_width_at(j) <= self.stop_spec() implies min_value
                    <= function.value_spec(
                    step_position_spec(initial_position@, self.step_width_at(j), direction@),
                ) by {
                    if j >= k {
                        if stalled {
                            lemma_exact_step_stall(*self, (k - 1) as nat, j);
                        } else {
                            lemma_exact_step_monotone(*self, k, j);
                            assert(false);
                        }
                    }
                }
            }
        }
        (min_position, min_value)
    }
}

/// Backtracking line search evaluating the Armijo rule at each step width.
#[derive(Debug, Copy, Clone)]
pub struct ArmijoLineSearch {
    control_parameter: i64,
    initial_step_width: i64,
    decay_factor: i64,
}

impl ArmijoLineSearch {
    /// The control parameter of the sufficient-decrease test, strictly
    /// between zero and one.
    pub closed spec fn control_spec(&self) -> i64 {
        self.control_parameter
    }

    /// The step width tried first.
    pub closed spec fn initial_step_spec(&self) -> i64 {
        self.initial_step_width
    }

    /// The factor by which the step width shrinks after a failed test,
    /// strictly between zero and one.
    pub closed spec fn decay_spec(&self) -> i64 {
        self.decay_factor
    }

    /// The constraints that `new` establishes.
    pub open spec fn wf(&self) -> bool {
        0 < self.control_spec() && self.control_spec() < SCALE && 0 < self.initial_step_spec()
            && 0 < self.decay_spec() && self.decay_spec() < SCALE
    }

    /// The `k`-th step width of the decay sequence.
    pub open spec fn decay_step_at(&self, k: nat) -> i64
        decreases k,
    {
        if k == 0 {
            self.initial_step_spec()
        } else {
            fx_mul_spec(self.decay_step_at((k - 1) as nat), self.decay_spec())
        }
    }

    /// The required decrease per unit of step width: `-control * m`, where
    /// `m` is the directional derivative of `f` at `x` along `d`.
    pub open spec fn threshold_spec<F: Function1>(&self, f: &F, x: Seq<i64>, d: Seq<i64>) -> i64 {
        fx_mul_spec(fx_neg_spec(self.control_spec()), dot_spec(f.gradient_spec(x), d))
    }

    /// The Armijo sufficient-decrease test at step width `step`:
    /// `f(x + step·d) <= f(x) - step·threshold`.
    pub open spec fn accepts<F: Function1>(
        &self,
        f: &F,
        x: Seq<i64>,
        d: Seq<i64>,
        step: i64,
    ) -> bool {
        f.value_spec(step_position_spec(x, step, d)) <= fx_sub_spec(
            f.value_spec(x),
            fx_mul_spec(step, self.threshold_spec(f, x, d)),
        )
    }

    /// Creates a new `ArmijoLineSearch` given the `control_parameter` ∈ (0,
    /// 1), the `initial_step_width` > 0 and the `decay_factor` ∈ (0, 1), all
    /// as fixed-point scalars.
    ///
    /// Armijo used in his paper the values 0.5, 1.0 and 0.5, respectively.
    pub fn new(control_parameter: i64, initial_step_width: i64, decay_factor: i64) -> (r:
        ArmijoLineSearch)
        requires
            0 < control_parameter < SCALE,
            0 < initial_step_width,
            0 < decay_factor < SCALE,
        ensures
            r.control_spec() == control_parameter,
            r.initial_step_spec() == initial_step_width,
            r.decay_spec() == decay_factor,
            r.wf(),
    {
        ArmijoLineSearch { control_parameter, initial_step_width, decay_factor }
    }
}

impl<F: Function1> LineSearch<F> for ArmijoLineSearch {
    /// With a configuration that `new` can produce, the value does not
    /// increase. A non-positive threshold hands the start pair back
    /// unchanged: a non-descent direction is a caller error, and fixed-point
    /// truncation can bring the threshold to zero even for a barely
    /// descending direction, so rather than stopping the whole run the
    /// search deliberately makes no step — this outcome is part of the
    /// contract. With a positive threshold, the returned position is reached
    /// by the first step width of the decay sequence that satisfies the
    /// Armijo test, and every earlier (larger) step width provably fails it.
    open spec fn search_post(
        &self,
        f: &F,
        x: Seq<i64>,
        d: Seq<i64>,
        new_position: Seq<i64>,
        new_value: i64,
    ) -> bool {
        &&& self.wf() ==> new_value <= f.value_spec(x)
        &&& self.threshold_spec(f, x, d) <= 0 ==> new_position == x
        &&& self.wf() && self.threshold_spec(f, x, d) > 0 ==> exists|kk: nat|
            #![trigger self.decay_step_at(kk)]
            new_position == step_position_spec(x, self.decay_step_at(kk), d) && self.accepts(
                f,
                x,
                d,
                self.decay_step_at(kk),
            ) && forall|j: nat|
                j < kk ==> !self.accepts(f, x, d, #[trigger] self.decay_step_at(j))
    }

    fn search(
        &self,
        function: &F,
        initial_position: &Vec<i64>,
        direction: &Vec<i64>,
    ) -> (r: (Vec<i64>, i64)) {
        let initial_value = function.value(initial_position);
        let gradient = function.gradient(initial_position);
        let m = dot(&gradient, direction);
        let t = fx_mul(fx_neg(self.control_parameter), m);
        if t <= 0 || self.initial_step_width <= 0 || self.decay_factor <= 0
            || self.decay_factor >= SCALE {
            let position = initial_position.clone();
            proof {
                assert(position@ =~= initial_position@);
            }
            return (position, initial_value);
        }
        let mut step_width = self.initial_step_width;
        let ghost mut kk: nat = 0;
        loop
            invariant
                function.dims_ok(initial_position@.len()),
                direction@.len() == initial_position@.len(),
                initial_value == function.value_spec(initial_position@),
                t == self.threshold_spec(function, initial_position@, direction@),
                t > 0,
                0 < self.decay_spec() < SCALE,
                step_width >= 0,
                step_width == self.decay_step_at(kk),
                forall|j: nat|
                    j < kk ==> !self.accepts(
                        function,
                        initial_position@,
                        direction@,
                        #[trigger] self.decay_step_at(j),
                    ),
            decreases step_width,
        {
            let position = step_position(initial_position, step_width, direction);
            let value = function.value(&position);
            if value <= fx_sub(initial_value, fx_mul(step_width, t)) {
                proof {
                    assert(step_width as int * t as int >= 0) by (nonlinear_arith)
                        requires
                            step_width >= 0,
                            t > 0,
                    ;
                    assert(fx_mul_spec(step_width, t) >= 0);
                }
                return (position, value);
            }
            proof {
                if step_width == 0 {
                    lemma_zero_step_is_identity(initial_position@, direction@, t);
                    assert(value == initial_value);
                    assert(false);
                }
                lemma_decay_shrinks(step_width, self.decay_spec());
            }
            step_width = fx_mul(step_width, self.decay_factor);
            proof {
                kk = kk + 1;
            }
        }
    }
}

} // verus!
