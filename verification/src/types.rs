//! The objective-function abstraction and the common minimizer interface.
//!
//! A `Function` maps a position (a vector of fixed-point scalars) to a
//! scalar value; `Function1` refines it with an analytical gradient. A
//! `Minimizer` turns a function and a start position into an `Evaluation`:
//! a position paired with the function's value there.

use vstd::prelude::*;
use vstd::math::abs;
use crate::fixed::{fx_add, fx_add_spec};

verus! {

/// Defines an objective function `f` that is subject to minimization.
pub trait Function {
    /// Which position lengths the function accepts; evaluating at any other
    /// length is a dimensionality mismatch.
    spec fn dims_ok(&self, n: nat) -> bool;

    /// The mathematical value of the function: what `value` computes.
    spec fn value_spec(&self, position: Seq<i64>) -> i64;

    /// Computes the objective function at a given `position` `x`, i.e.,
    /// `f(x) = y`.
    fn value(&self, position: &Vec<i64>) -> (r: i64)
        requires
            self.dims_ok(position@.len()),
        ensures
            r == self.value_spec(position@),
    ;
}

/// Defines an objective function `f` that is able to compute the first
/// derivative `f'(x)`.
pub trait Function1: Function {
    /// The mathematical gradient: what `gradient` computes.
    spec fn gradient_spec(&self, position: Seq<i64>) -> Seq<i64>;

    /// Computes the gradient of the objective function at a given `position`
    /// `x`, i.e., `∀ᵢ ∂/∂xᵢ f(x) = ∇f(x)`.
    fn gradient(&self, position: &Vec<i64>) -> (r: Vec<i64>)
        requires
            self.dims_ok(position@.len()),
        ensures
            r@ == self.gradient_spec(position@),
            r@.len() == position@.len(),
    ;
}

/// Captures the essence of a function evaluation: a position and the
/// objective's value at that position.
pub trait Evaluation {
    /// The position as a sequence of scalars.
    spec fn position_spec(&self) -> Seq<i64>;

    /// The objective value at that position.
    spec fn result_value_spec(&self) -> i64;

    /// Position `x` with the lowest corresponding value `f(x)`.
    fn position(&self) -> (r: &Vec<i64>)
        ensures
            r@ == self.position_spec(),
    ;

    /// The actual value `f(x)`.
    fn value(&self) -> (r: i64)
        ensures
            r == self.result_value_spec(),
    ;
}

/// Defines an optimizer that is able to minimize a given objective function
/// `F`.
///
/// Every minimizer hands back an evaluation whose value is the objective's
/// value at the returned position — never a stale pairing — and whose
/// position has the dimensionality of the start position.
pub trait Minimizer<F: Function> {
    /// Type of the solution the `Minimizer` returns.
    type Solution: Evaluation;

    /// Performs the actual minimization and returns a solution that
    /// might be better than the initially provided one.
    fn minimize(&self, function: &F, initial_position: Vec<i64>) -> (r: Self::Solution)
        requires
            function.dims_ok(initial_position@.len()),
        ensures
            r.position_spec().len() == initial_position@.len(),
            r.result_value_spec() == function.value_spec(r.position_spec()),
    ;
}

/// The index sequence `0, 1, ..., n-1` of all terms of a summation.
pub open spec fn all_terms(n: nat) -> Seq<usize> {
    Seq::new(n, |i: int| i as usize)
}

/// The saturating left-to-right total of a sequence of scalars.
pub open spec fn sat_total(vs: Seq<i64>) -> i64
    decreases vs.len(),
{
    if vs.len() == 0 {
        0
    } else {
        fx_add_spec(sat_total(vs.drop_last()), vs.last())
    }
}

/// Defines a summation of individual functions, i.e., `f(x) = ∑ᵢ fᵢ(x)`.
///
/// Every summation is an objective function (see the blanket `Function`
/// impl below): its value at `x` is the partial value over all term indices
/// `0..terms()`. The partial operations are the seam that lets stochastic
/// descent work on mini-batches without knowing the concrete objective.
///
/// The contracts of `partial_value` and `partial_gradient` quantify over any
/// sequence that lists the term values (or term-gradient components) in
/// order: the result is the saturating left-to-right total of that sequence.
pub trait Summation: Sized {
    /// Which position lengths the terms accept.
    spec fn sum_dims_ok(&self, n: nat) -> bool;

    /// The number of terms of the summation.
    spec fn terms_spec(&self) -> nat;

    /// The mathematical value of one term.
    spec fn term_value_spec(&self, position: Seq<i64>, term: nat) -> i64;

    /// Returns the number of individual functions that are terms of the
    /// summation.
    fn terms(&self) -> (r: usize)
        ensures
            r as nat == self.terms_spec(),
    ;

    /// Computes the value of one individual function identified by its index
    /// `term`, given the `position` `x`.
    fn term_value(&self, position: &Vec<i64>, term: usize) -> (r: i64)
        requires
            self.sum_dims_ok(position@.len()),
            (term as nat) < self.terms_spec(),
        ensures
            r == self.term_value_spec(position@, term as nat),
    ;

    /// Computes the partial sum over a set of individual functions identified
    /// by `terms`; duplicates and arbitrary order are legal and simply change
    /// the weighting.
    fn partial_value(&self, position: &Vec<i64>, terms: &Vec<usize>) -> (r: i64)
        requires
            self.sum_dims_ok(position@.len()),
            forall|i: int| 0 <= i < terms@.len() ==> (terms@[i] as nat) < self.terms_spec(),
        ensures
            forall|vs: Seq<i64>|
                vs.len() == terms@.len() && (forall|i: int|
                    0 <= i < vs.len() ==> vs[i] == self.term_value_spec(
                        position@,
                        terms@[i] as nat,
                    )) ==> r == #[trigger] sat_total(vs),
    {
        let ghost mut vals: Seq<i64> = Seq::empty();
        let mut acc: i64 = 0;
        let mut k: usize = 0;
        while k < terms.len()
            invariant
                0 <= k <= terms@.len(),
                self.sum_dims_ok(position@.len()),
                forall|i: int| 0 <= i < terms@.len() ==> (terms@[i] as nat) < self.terms_spec(),
                vals.len() == k as int,
                forall|i: int|
                    0 <= i < k ==> vals[i] == self.term_value_spec(position@, terms@[i] as nat),
                acc == sat_total(vals),
            decreases terms@.len() - k,
        {
            let v = self.term_value(position, terms[k]);
            acc = fx_add(acc, v);
            k += 1;
            proof {
                let pushed = vals.push(v);
                assert(pushed.drop_last() =~= vals);
                vals = pushed;
            }
        }
        proof {
            assert forall|vs: Seq<i64>|
                vs.len() == terms@.len() && (forall|i: int|
                    0 <= i < vs.len() ==> vs[i] == self.term_value_spec(
                        position@,
                        terms@[i] as nat,
                    )) implies acc == #[trigger] sat_total(vs) by {
                assert(vs =~= vals);
            }
        }
        acc
    }
}

/// A sequence holding the same elements as `all_terms(n)` holds only
/// indices below `n`.
pub proof fn lemma_all_terms_multiset_bounds(s: Seq<usize>, n: nat)
    requires
        s.to_multiset() == all_terms(n).to_multiset(),
    ensures
        forall|t: int| 0 <= t < s.len() ==> (#[trigger] s[t] as nat) < n,
{
    broadcast use vstd::seq_lib::group_to_multiset_ensures;

    assert forall|t: int| 0 <= t < s.len() implies (#[trigger] s[t] as nat) < n by {
        assert(s.contains(s[t]));
        assert(all_terms(n).to_multiset().count(s[t]) > 0);
        assert(all_terms(n).contains(s[t]));
        let j = choose|j: int| 0 <= j < all_terms(n).len() && all_terms(n)[j] == s[t];
        assert(all_terms(n)[j] == j as usize);
    }
}

/// The saturating total of a sequence of zeros is zero.
pub proof fn lemma_sat_total_zero(vs: Seq<i64>)
    requires
        forall|i: int| 0 <= i < vs.len() ==> vs[i] == 0i64,
    ensures
        sat_total(vs) == 0,
    decreases vs.len(),
{
    if vs.len() > 0 {
        lemma_sat_total_zero(vs.drop_last());
    }
}

/// The values of the terms `ts` of the summation `s` at position `x`.
pub open spec fn term_values<S: Summation>(s: &S, x: Seq<i64>, ts: Seq<usize>) -> Seq<i64> {
    Seq::new(ts.len(), |i: int| s.term_value_spec(x, ts[i] as nat))
}

/// The partial value of the summation `s` over the terms `ts` at `x`: the
/// saturating total of the term values, accumulated left to right.
pub open spec fn partial_value_spec<S: Summation>(s: &S, x: Seq<i64>, ts: Seq<usize>) -> i64 {
    sat_total(term_values(s, x, ts))
}

/// Component `l` of the gradients of the terms `ts` of `s` at position `x`.
pub open spec fn term_gradients_at<S: Summation1>(
    s: &S,
    x: Seq<i64>,
    ts: Seq<usize>,
    l: int,
) -> Seq<i64> {
    Seq::new(ts.len(), |i: int| s.term_gradient_spec(x, ts[i] as nat)[l])
}

/// Component `l` of the partial gradient of `s` over the terms `ts` at `x`:
/// the saturating total of component `l` of the term gradients.
pub open spec fn partial_gradient_at<S: Summation1>(
    s: &S,
    x: Seq<i64>,
    ts: Seq<usize>,
    l: int,
) -> i64 {
    sat_total(term_gradients_at(s, x, ts, l))
}

/// The exact (unclipped) total of a sequence of scalars.
spec fn int_total(vs: Seq<i64>) -> int
    decreases vs.len(),
{
    if vs.len() == 0 {
        0
    } else {
        int_total(vs.drop_last()) + vs.last()
    }
}

/// The total of the absolute values of a sequence of scalars.
pub open spec fn abs_total(vs: Seq<i64>) -> int
    decreases vs.len(),
{
    if vs.len() == 0 {
        0
    } else {
        abs_total(vs.drop_last()) + abs(vs.last() as int)
    }
}

/// `ts` mapped elementwise through `f`.
spec fn mapped(ts: Seq<usize>, f: spec_fn(usize) -> i64) -> Seq<i64> {
    Seq::new(ts.len(), |i: int| f(ts[i]))
}

/// The exact total is bounded by the total of absolute values, which is
/// nonnegative.
proof fn lemma_int_total_bound(vs: Seq<i64>)
    ensures
        -abs_total(vs) <= int_total(vs) <= abs_total(vs),
        abs_total(vs) >= 0,
    decreases vs.len(),
{
    if vs.len() > 0 {
        lemma_int_total_bound(vs.drop_last());
    }
}

/// While the total magnitude stays within the scalar range, the saturating
/// total equals the exact one: no intermediate sum is clipped.
proof fn lemma_sat_total_exact(vs: Seq<i64>)
    requires
        abs_total(vs) <= i64::MAX,
    ensures
        sat_total(vs) == int_total(vs),
    decreases vs.len(),
{
    lemma_int_total_bound(vs);
    if vs.len() > 0 {
        lemma_int_total_bound(vs.drop_last());
        lemma_sat_total_exact(vs.drop_last());
    }
}

/// Removing one element removes its contribution from both totals.
proof fn lemma_total_remove(vs: Seq<i64>, j: int)
    requires
        0 <= j < vs.len(),
    ensures
        int_total(vs) == int_total(vs.remove(j)) + vs[j],
        abs_total(vs) == abs_total(vs.remove(j)) + abs(vs[j] as int),
    decreases vs.len(),
{
    if j == vs.len() - 1 {
        assert(vs.remove(j) =~= vs.drop_last());
    } else {
        lemma_total_remove(vs.drop_last(), j);
        assert(vs.remove(j).drop_last() =~= vs.drop_last().remove(j));
        assert(vs.remove(j).last() == vs.last());
    }
}

/// Concatenation adds the totals.
proof fn lemma_total_concat(a: Seq<i64>, b: Seq<i64>)
    ensures
        int_total(a + b) == int_total(a) + int_total(b),
        abs_total(a + b) == abs_total(a) + abs_total(b),
    decreases b.len(),
{
    if b.len() == 0 {
        assert(a + b =~= a);
    } else {
        assert((a + b).drop_last() =~= a + b.drop_last());
        assert((a + b).last() == b.last());
        lemma_total_concat(a, b.drop_last());
    }
}

/// Index sequences holding the same indices give the same mapped totals,
/// whatever the order.
proof fn lemma_mapped_total_permutation(ts1: Seq<usize>, ts2: Seq<usize>, f: spec_fn(usize) -> i64)
    requires
        ts1.to_multiset() == ts2.to_multiset(),
    ensures
        int_total(mapped(ts1, f)) == int_total(mapped(ts2, f)),
        abs_total(mapped(ts1, f)) == abs_total(mapped(ts2, f)),
    decreases ts1.len(),
{
    broadcast use vstd::seq_lib::group_to_multiset_ensures;

    if ts1.len() == 0 {
        assert(ts1.to_multiset().len() == 0);
        assert(ts2.to_multiset().len() == ts2.len());
        assert(mapped(ts2, f).len() == 0);
    } else {
        let x = ts1.last();
        assert(ts1.contains(x));
        assert(ts2.to_multiset().count(x) > 0);
        assert(ts2.contains(x));
        let j = choose|j: int| 0 <= j < ts2.len() && ts2[j] == x;
        assert(mapped(ts2, f).remove(j) =~= mapped(ts2.remove(j), f));
        lemma_total_remove(mapped(ts2, f), j);
        assert(mapped(ts2, f)[j] == f(x));
        assert(ts1.drop_last() =~= ts1.remove(ts1.len() - 1));
        assert(mapped(ts1, f).drop_last() =~= mapped(ts1.drop_last(), f));
        assert(mapped(ts1, f).last() == f(x));
        assert(ts1.remove(ts1.len() - 1).to_multiset() =~= ts1.to_multiset().remove(x));
        assert(ts2.remove(j).to_multiset() =~= ts2.to_multiset().remove(x));
        assert(ts1.drop_last().to_multiset() == ts2.remove(j).to_multiset());
        lemma_mapped_total_permutation(ts1.drop_last(), ts2.remove(j), f);
    }
}

/// Splitting the terms of a summation splits its value: the partial values
/// over `a` and over `b` add up to the full value over all terms, whenever
/// `a` and `b` together hold each term index exactly once and the total
/// magnitude of the term values stays within the scalar range, so that no
/// sum saturates. Duplicate indices or a reordering inside `a` and `b` do
/// not matter.
pub proof fn lemma_partial_value_split<S: Summation>(
    s: &S,
    x: Seq<i64>,
    a: Seq<usize>,
    b: Seq<usize>,
)
    requires
        (a + b).to_multiset() == all_terms(s.terms_spec()).to_multiset(),
        abs_total(term_values(s, x, all_terms(s.terms_spec()))) <= i64::MAX,
    ensures
        partial_value_spec(s, x, a) + partial_value_spec(s, x, b) == s.value_spec(x),
{
    let f = |t: usize| s.term_value_spec(x, t as nat);
    let full = all_terms(s.terms_spec());
    assert(mapped(a, f) =~= term_values(s, x, a));
    assert(mapped(b, f) =~= term_values(s, x, b));
    assert(mapped(full, f) =~= term_values(s, x, full));
    assert(mapped(a + b, f) =~= mapped(a, f) + mapped(b, f));
    lemma_mapped_total_permutation(a + b, full, f);
    lemma_total_concat(mapped(a, f), mapped(b, f));
    lemma_int_total_bound(mapped(a, f));
    lemma_int_total_bound(mapped(b, f));
    lemma_sat_total_exact(mapped(a, f));
    lemma_sat_total_exact(mapped(b, f));
    lemma_sat_total_exact(mapped(full, f));
}

/// Splitting the terms of a summation splits each gradient component the
/// same way: for component `l`, the partial gradients over `a` and over `b`
/// add up to the full one, under the same conditions as
/// `lemma_partial_value_split`.
pub proof fn lemma_partial_gradient_split<S: Summation1>(
    s: &S,
    x: Seq<i64>,
    a: Seq<usize>,
    b: Seq<usize>,
    l: int,
)
    requires
        (a + b).to_multiset() == all_terms(s.terms_spec()).to_multiset(),
        abs_total(term_gradients_at(s, x, all_terms(s.terms_spec()), l)) <= i64::MAX,
    ensures
        partial_gradient_at(s, x, a, l) + partial_gradient_at(s, x, b, l) == partial_gradient_at(
            s,
            x,
            all_terms(s.terms_spec()),
            l,
        ),
{
    let f = |t: usize| s.term_gradient_spec(x, t as nat)[l];
    let full = all_terms(s.terms_spec());
    assert(mapped(a, f) =~= term_gradients_at(s, x, a, l));
    assert(mapped(b, f) =~= term_gradients_at(s, x, b, l));
    assert(mapped(full, f) =~= term_gradients_at(s, x, full, l));
    assert(mapped(a + b, f) =~= mapped(a, f) + mapped(b, f));
    lemma_mapped_total_permutation(a + b, full, f);
    lemma_total_concat(mapped(a, f), mapped(b, f));
    lemma_int_total_bound(mapped(a, f));
    lemma_int_total_bound(mapped(b, f));
    lemma_sat_total_exact(mapped(a, f));
    lemma_sat_total_exact(mapped(b, f));
    lemma_sat_total_exact(mapped(full, f));
}

/// Every summation is an objective function: its value at `x` is the partial
/// value over all terms.
impl<S: Summation> Function for S {
    open spec fn dims_ok(&self, n: nat) -> bool {
        self.sum_dims_ok(n)
    }

    open spec fn value_spec(&self, position: Seq<i64>) -> i64 {
        partial_value_spec(self, position, all_terms(self.terms_spec()))
    }

    fn value(&self, position: &Vec<i64>) -> (r: i64) {
        let n = self.terms();
        let mut idx: Vec<usize> = Vec::new();
        let mut k: usize = 0;
        while k < n
            invariant
                0 <= k <= n,
                idx@.len() == k as int,
                forall|j: int| 0 <= j < k ==> idx@[j] == j as usize,
            decreases n - k,
        {
            idx.push(k);
            k += 1;
        }
        proof {
            assert(idx@ =~= all_terms(self.terms_spec()));
        }
        let r = self.partial_value(position, &idx);
        proof {
            assert(r == sat_total(term_values(self, position@, idx@)));
        }
        r
    }
}

/// Defines a summation of individual functions `fᵢ(x)`, assuming that each
/// function has a first derivative.
pub trait Summation1: Summation {
    /// The mathematical gradient of one term.
    spec fn term_gradient_spec(&self, position: Seq<i64>, term: nat) -> Seq<i64>;

    /// Computes the gradient of one individual function identified by `term`
    /// at the given `position`.
    fn term_gradient(&self, position: &Vec<i64>, term: usize) -> (r: Vec<i64>)
        requires
            self.sum_dims_ok(position@.len()),
            (term as nat) < self.terms_spec(),
        ensures
            r@ == self.term_gradient_spec(position@, term as nat),
            r@.len() == position@.len(),
    ;

    /// Computes the partial gradient over a set of `terms` at the given
    /// `position`: elementwise, the saturating total of the term gradients.
    fn partial_gradient(&self, position: &Vec<i64>, terms: &Vec<usize>) -> (r: Vec<i64>)
        requires
            self.sum_dims_ok(position@.len()),
            forall|i: int| 0 <= i < terms@.len() ==> (terms@[i] as nat) < self.terms_spec(),
        ensures
            r@.len() == position@.len(),
            forall|l: int, vs: Seq<i64>|
                #![trigger r@[l], sat_total(vs)]
                0 <= l < r@.len() && vs.len() == terms@.len() && (forall|i: int|
                    0 <= i < vs.len() ==> vs[i] == self.term_gradient_spec(
                        position@,
                        terms@[i] as nat,
                    )[l]) ==> r@[l] == sat_total(vs),
    {
        let ghost mut cols: Seq<Seq<i64>> = Seq::new(position@.len(), |l: int| Seq::empty());
        let mut grad: Vec<i64> = Vec::new();
        let mut z: usize = 0;
        while z < position.len()
            invariant
                0 <= z <= position@.len(),
                grad@.len() == z as int,
                forall|j: int| 0 <= j < z ==> grad@[j] == 0i64,
            decreases position@.len() - z,
        {
            grad.push(0);
            z += 1;
        }
        let mut k: usize = 0;
        while k < terms.len()
            invariant
                0 <= k <= terms@.len(),
                self.sum_dims_ok(position@.len()),
                forall|i: int| 0 <= i < terms@.len() ==> (terms@[i] as nat) < self.terms_spec(),
                grad@.len() == position@.len(),
                cols.len() == position@.len(),
                forall|l: int|
                    0 <= l < cols.len() ==> (#[trigger] cols[l]).len() == k as int,
                forall|l: int, i: int|
                    0 <= l < cols.len() && 0 <= i < k ==> #[trigger] cols[l][i]
                        == self.term_gradient_spec(position@, terms@[i] as nat)[l],
                forall|l: int| 0 <= l < grad@.len() ==> grad@[l] == sat_total(#[trigger] cols[l]),
            decreases terms@.len() - k,
        {
            let tg = self.term_gradient(position, terms[k]);
            let ghost pre = grad@;
            let ghost precols = cols;
            let mut j: usize = 0;
            while j < grad.len()
                invariant
                    0 <= j <= grad@.len(),
                    grad@.len() == pre.len(),
                    tg@.len() == pre.len(),
                    forall|l: int| j <= l < grad@.len() ==> grad@[l] == pre[l],
                    forall|l: int| 0 <= l < j ==> grad@[l] == fx_add_spec(pre[l], tg@[l]),
                decreases grad@.len() - j,
            {
                let v = fx_add(grad[j], tg[j]);
                grad.set(j, v);
                j += 1;
            }
            k += 1;
            proof {
                cols = Seq::new(precols.len(), |l: int| precols[l].push(tg@[l]));
                assert forall|l: int| 0 <= l < grad@.len() implies grad@[l] == sat_total(
                    #[trigger] cols[l],
                ) by {
                    assert(cols[l].drop_last() =~= precols[l]);
                    assert(cols[l].last() == tg@[l]);
                }
            }
        }
        proof {
            assert forall|l: int, vs: Seq<i64>|
                #![trigger grad@[l], sat_total(vs)]
                0 <= l < grad@.len() && vs.len() == terms@.len() && (forall|i: int|
                    0 <= i < vs.len() ==> vs[i] == self.term_gradient_spec(
                        position@,
                        terms@[i] as nat,
                    )[l]) implies grad@[l] == sat_total(vs) by {
                assert(vs =~= cols[l]);
            }
        }
        grad
    }
}

/// Every summation of differentiable terms is a differentiable function:
/// its gradient at `x` is the partial gradient over all terms.
impl<S: Summation1> Function1 for S {
    open spec fn gradient_spec(&self, position: Seq<i64>) -> Seq<i64> {
        Seq::new(
            position.len(),
            |l: int| partial_gradient_at(self, position, all_terms(self.terms_spec()), l),
        )
    }

    fn gradient(&self, position: &Vec<i64>) -> (r: Vec<i64>) {
        let n = self.terms();
        let mut idx: Vec<usize> = Vec::new();
        let mut k: usize = 0;
        while k < n
            invariant
                0 <= k <= n,
                idx@.len() == k as int,
                forall|j: int| 0 <= j < k ==> idx@[j] == j as usize,
            decreases n - k,
        {
            idx.push(k);
            k += 1;
        }
        proof {
            assert(idx@ =~= all_terms(self.terms_spec()));
        }
        let r = self.partial_gradient(position, &idx);
        proof {
            assert forall|l: int| 0 <= l < r@.len() implies r@[l] == self.gradient_spec(
                position@,
            )[l] by {
                assert(r@[l] == sat_total(term_gradients_at(self, position@, idx@, l)));
            }
            assert(r@ =~= self.gradient_spec(position@));
        }
        r
    }
}

/// A solution of a minimization run providing only the minimal information.
///
/// Each `Minimizer` might yield different types of solution structs which
/// provide more information.
#[derive(Debug, Clone)]
pub struct Solution {
    /// Position `x` of the lowest corresponding value `f(x)` that has been
    /// found.
    pub position: Vec<i64>,
    /// The actual value `f(x)`.
    pub value: i64,
}

impl Solution {
    /// Creates a new `Solution` given the `position` as well as the
    /// corresponding `value`.
    pub fn new(position: Vec<i64>, value: i64) -> (r: Solution)
        ensures
            r.position@ == position@,
            r.value == value,
    {
        Solution { position, value }
    }
}

impl Evaluation for Solution {
    open spec fn position_spec(&self) -> Seq<i64> {
        self.position@
    }

    open spec fn result_value_spec(&self) -> i64 {
        self.value
    }

    fn position(&self) -> (r: &Vec<i64>) {
        &self.position
    }

    fn value(&self) -> (r: i64) {
        self.value
    }
}

} // verus!
