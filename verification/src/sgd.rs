//! The mini-batch iterative minimizer: shuffle the term indices each epoch,
//! partition them into mini-batches, step against each batch's partial
//! gradient, repeat for a fixed budget of epochs.

use vstd::prelude::*;
use vstd::pervasive::VecAdditionalExecFns;
use crate::fixed::{fx_mul, fx_mul_spec, fx_sub, fx_sub_spec};
use crate::rng::{clone_rng, random_u64, seed_rng, shuffle_indices};
use crate::types::{
    all_terms, lemma_all_terms_multiset_bounds, partial_gradient_at, sat_total,
    term_gradients_at, Function, Minimizer, Solution, Summation, Summation1,
};

verus! {

/// 0.01 as a fixed-point scalar: the default step width.
pub const STEP_WIDTH_DEFAULT: i64 = 42949673;

/// One mini-batch step: from `x`, move against the partial gradient over
/// `chunk`, scaled by `step`: elementwise `x[l] - step * ∂chunk/∂x[l]`.
pub open spec fn sgd_chunk_step<F: Summation1>(
    f: &F,
    x: Seq<i64>,
    chunk: Seq<usize>,
    step: i64,
) -> Seq<i64> {
    Seq::new(x.len(), |l: int| fx_sub_spec(x[l], fx_mul_spec(step, partial_gradient_at(f, x, chunk, l))))
}

/// One epoch: consume `order` in chunks of `batch` indices (the last chunk
/// may be smaller), applying one mini-batch step per chunk.
pub open spec fn sgd_epoch<F: Summation1>(
    f: &F,
    x: Seq<i64>,
    order: Seq<usize>,
    batch: nat,
    step: i64,
) -> Seq<i64>
    decreases order.len(),
{
    if batch == 0 || order.len() == 0 {
        x
    } else if order.len() <= batch {
        sgd_chunk_step(f, x, order, step)
    } else {
        sgd_epoch(
            f,
            sgd_chunk_step(f, x, order.take(batch as int), step),
            order.skip(batch as int),
            batch,
            step,
        )
    }
}

/// A whole run: one epoch per element of `orders`, first epoch first.
pub open spec fn sgd_run<F: Summation1>(
    f: &F,
    x: Seq<i64>,
    orders: Seq<Seq<usize>>,
    batch: nat,
    step: i64,
) -> Seq<i64>
    decreases orders.len(),
{
    if orders.len() == 0 {
        x
    } else {
        sgd_epoch(f, sgd_run(f, x, orders.drop_last(), batch, step), orders.last(), batch, step)
    }
}

/// Provides _stochastic_ Gradient Descent optimization, using a fixed step
/// width for each mini-batch.
pub struct StochasticGradientDescent {
    rng: rand_pcg::Pcg64,
    max_iterations: Option<u64>,
    mini_batch: usize,
    step_width: i64,
}

impl StochasticGradientDescent {
    /// The generator that each run clones before shuffling.
    pub closed spec fn rng_spec(&self) -> rand_pcg::Pcg64 {
        self.rng
    }

    /// The configured epoch cap, or `None` for an unbounded run.
    pub closed spec fn max_iterations_spec(&self) -> Option<u64> {
        self.max_iterations
    }

    /// The configured mini-batch size.
    pub closed spec fn mini_batch_spec(&self) -> usize {
        self.mini_batch
    }

    /// The configured step width.
    pub closed spec fn step_width_spec(&self) -> i64 {
        self.step_width
    }

    /// The number of epochs the driver runs: the configured cap, or
    /// `u64::MAX` when none is set.
    pub open spec fn cap_spec(&self) -> nat {
        match self.max_iterations_spec() {
            Option::Some(m) => m as nat,
            Option::None => u64::MAX as nat,
        }
    }

    /// Creates a new `StochasticGradientDescent` optimizer using the
    /// following defaults:
    ///
    /// - **`step_width`** = `0.01` as a fixed-point scalar
    /// - **`mini_batch`** = `1`
    /// - **`max_iterations`** = `None`
    ///
    /// The used random number generator is randomly seeded.
    pub fn new() -> (r: StochasticGradientDescent)
        ensures
            r.max_iterations_spec() is None,
            r.mini_batch_spec() == 1,
            r.step_width_spec() == STEP_WIDTH_DEFAULT,
    {
        StochasticGradientDescent {
            rng: seed_rng(random_u64()),
            max_iterations: None,
            mini_batch: 1,
            step_width: STEP_WIDTH_DEFAULT,
        }
    }

    /// Seeds the random number generator using the supplied `seed`.
    ///
    /// This is useful to create reproducible results.
    pub fn seed(&mut self, seed: u64)
        ensures
            final(self).max_iterations_spec() == old(self).max_iterations_spec(),
            final(self).mini_batch_spec() == old(self).mini_batch_spec(),
            final(self).step_width_spec() == old(self).step_width_spec(),
    {
        self.rng = seed_rng(seed);
    }

    /// Adjusts the number of maximally run iterations (epochs). A value of
    /// `None` instructs the optimizer to ignore the number of iterations.
    pub fn max_iterations(&mut self, max_iterations: Option<u64>)
        requires
            max_iterations matches Some(m) ==> m > 0,
        ensures
            final(self).max_iterations_spec() == max_iterations,
            final(self).mini_batch_spec() == old(self).mini_batch_spec(),
            final(self).step_width_spec() == old(self).step_width_spec(),
            final(self).rng_spec() == old(self).rng_spec(),
    {
        self.max_iterations = max_iterations;
    }

    /// Adjusts the mini batch size, i.e., how many terms are considered in
    /// one step at most.
    pub fn mini_batch(&mut self, mini_batch: usize)
        requires
            mini_batch > 0,
        ensures
            final(self).mini_batch_spec() == mini_batch,
            final(self).max_iterations_spec() == old(self).max_iterations_spec(),
            final(self).step_width_spec() == old(self).step_width_spec(),
            final(self).rng_spec() == old(self).rng_spec(),
    {
        self.mini_batch = mini_batch;
    }

    /// Adjusts the step size applied for each mini batch.
    pub fn step_width(&mut self, step_width: i64)
        requires
            step_width > 0,
        ensures
            final(self).step_width_spec() == step_width,
            final(self).max_iterations_spec() == old(self).max_iterations_spec(),
            final(self).mini_batch_spec() == old(self).mini_batch_spec(),
            final(self).rng_spec() == old(self).rng_spec(),
    {
        self.step_width = step_width;
    }
}

impl<F: Summation1> Minimizer<F> for StochasticGradientDescent {
    type Solution = Solution;

    /// Runs `cap_spec()` epochs. Each epoch shuffles the term indices into
    /// some order holding every index exactly once, then applies one
    /// mini-batch step per chunk; the returned position is exactly the
    /// result of running those epochs from the initial position.
    #[verifier::loop_isolation(false)]
    fn minimize(&self, function: &F, initial_position: Vec<i64>) -> (r: Solution)
        ensures
            self.mini_batch_spec() >= 1 ==> exists|orders: Seq<Seq<usize>>|
                #![trigger sgd_run(function, initial_position@, orders, self.mini_batch_spec() as nat, self.step_width_spec())]
                orders.len() == self.cap_spec() && (forall|e: int|
                    0 <= e < orders.len() ==> (#[trigger] orders[e]).to_multiset() == all_terms(
                        function.terms_spec(),
                    ).to_multiset()) && r.position@ == sgd_run(
                    function,
                    initial_position@,
                    orders,
                    self.mini_batch_spec() as nat,
                    self.step_width_spec(),
                ),
    {
        let ghost init = initial_position@;
        let cap: u64 = match self.max_iterations {
            Some(m) => m,
            None => u64::MAX,
        };
        let mut position = initial_position;
        let mut value = function.value(&position);
        let n_terms = function.terms();
        let mut order: Vec<usize> = Vec::new();
        let mut k: usize = 0;
        while k < n_terms
            invariant
                0 <= k <= n_terms,
                order@.len() == k as int,
                forall|j: int| 0 <= j < k ==> order@[j] == j as usize,
            decreases n_terms - k,
        {
            order.push(k);
            k += 1;
        }
        proof {
            assert(order@ =~= all_terms(function.terms_spec()));
        }
        let mut rng = clone_rng(&self.rng);
        let mut iteration: u64 = 0;
        let ghost mut orders: Seq<Seq<usize>> = Seq::empty();
        while iteration < cap
            invariant
                position@.len() == init.len(),
                value == function.value_spec(position@),
                iteration <= cap,
                order@.to_multiset() == all_terms(function.terms_spec()).to_multiset(),
                order@.len() == function.terms_spec(),
                orders.len() == iteration as int,
                forall|e: int|
                    0 <= e < orders.len() ==> (#[trigger] orders[e]).to_multiset() == all_terms(
                        function.terms_spec(),
                    ).to_multiset(),
                self.mini_batch >= 1 ==> position@ == sgd_run(
                    function,
                    init,
                    orders,
                    self.mini_batch as nat,
                    self.step_width,
                ),
            decreases cap - iteration,
        {
            shuffle_indices(&mut rng, &mut order);
            proof {
                lemma_all_terms_multiset_bounds(order@, function.terms_spec());
            }
            let ghost this_order = order@;
            let ghost epoch_start = position@;
            proof {
                assert(this_order.skip(0) =~= this_order);
            }
            let mut start: usize = 0;
            while start < order.len()
                invariant
                    0 <= start <= order@.len(),
                    order@ == this_order,
                    position@.len() == init.len(),
                    self.mini_batch >= 1 ==> sgd_epoch(
                        function,
                        epoch_start,
                        this_order,
                        self.mini_batch as nat,
                        self.step_width,
                    ) == sgd_epoch(
                        function,
                        position@,
                        this_order.skip(start as int),
                        self.mini_batch as nat,
                        self.step_width,
                    ),
                decreases order@.len() - start,
            {
                let remaining = order.len() - start;
                let b = if self.mini_batch < 1 {
                    1
                } else {
                    self.mini_batch
                };
                let len = if remaining < b {
                    remaining
                } else {
                    b
                };
                let mut chunk: Vec<usize> = Vec::new();
                let mut j: usize = 0;
                while j < len
                    invariant
                        0 <= j <= len,
                        start + len <= order@.len(),
                        chunk@.len() == j as int,
                        forall|t: int| 0 <= t < j ==> chunk@[t] == order@[start + t],
                    decreases len - j,
                {
                    chunk.push(order[start + j]);
                    j += 1;
                }
                let gradient = function.partial_gradient(&position, &chunk);
                let ghost pre = position@;
                let mut l: usize = 0;
                while l < position.len()
                    invariant
                        0 <= l <= position@.len(),
                        position@.len() == pre.len(),
                        gradient@.len() == pre.len(),
                        forall|t: int| l <= t < position@.len() ==> position@[t] == pre[t],
                        forall|t: int|
                            0 <= t < l ==> position@[t] == fx_sub_spec(
                                pre[t],
                                fx_mul_spec(self.step_width, gradient@[t]),
                            ),
                    decreases position@.len() - l,
                {
                    let nv = fx_sub(position[l], fx_mul(self.step_width, gradient[l]));
                    position.set(l, nv);
                    l += 1;
                }
                proof {
                    assert forall|t: int| 0 <= t < position@.len() implies position@[t]
                        == fx_sub_spec(
                        pre[t],
                        fx_mul_spec(
                            self.step_width,
                            partial_gradient_at(function, pre, chunk@, t),
                        ),
                    ) by {
                        assert(gradient@[t] == sat_total(
                            term_gradients_at(function, pre, chunk@, t),
                        ));
                    }
                    assert(position@ =~= sgd_chunk_step(function, pre, chunk@, self.step_width));
                    if self.mini_batch >= 1 {
                        let rem = this_order.skip(start as int);
                        if remaining <= b {
                            assert(chunk@ =~= rem);
                            assert(this_order.skip((start + len) as int) =~= Seq::<usize>::empty());
                        } else {
                            assert(chunk@ =~= rem.take(b as int));
                            assert(rem.skip(b as int) =~= this_order.skip((start + len) as int));
                        }
                    }
                }
                start = start + len;
            }
            proof {
                if self.mini_batch >= 1 {
                    assert(this_order.skip(order@.len() as int) =~= Seq::<usize>::empty());
                    assert(orders.push(this_order).drop_last() =~= orders);
                }
                orders = orders.push(this_order);
            }
            value = function.value(&position);
            iteration = iteration + 1;
        }
        proof {
            if self.mini_batch >= 1 {
                assert(orders.len() == self.cap_spec());
                assert(position@ == sgd_run(
                    function,
                    init,
                    orders,
                    self.mini_batch_spec() as nat,
                    self.step_width_spec(),
                ));
            }
        }
        Solution::new(position, value)
    }
}

} // verus!
