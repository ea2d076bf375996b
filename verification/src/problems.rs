//! Common optimization problems for testing purposes.
//!
//! ## Bowl-Shaped
//!
//! * `Sphere` — continuous, convex and unimodal: `f(x) = ∑ᵢ xᵢ²`, with its
//!   global minimum `f(0,...,0) = 0`. It is a summation of one term per
//!   coordinate, which also makes it a test bed for stochastic descent.
//!
//! ## Valley-Shaped
//!
//! * `Rosenbrock` — non-convex, with the global minimum inside a long,
//!   narrow, parabolic flat valley.

use vstd::prelude::*;
use crate::fixed::{fx_add, fx_add_spec, fx_mul, fx_mul_spec, fx_neg, fx_neg_spec, fx_sub,
    fx_sub_spec, SCALE};
use crate::rng::random_u64;
use crate::types::{
    all_terms, lemma_sat_total_zero, term_values, Function, Function1,
    Summation, Summation1,
};

verus! {

/// Specifies a well known optimization problem.
pub trait Problem: Function {
    /// The dimensionality of the input domain.
    spec fn dimensions_spec(&self) -> nat;

    /// The input domain: a lower and an upper bound for each dimension.
    spec fn domain_spec(&self) -> Seq<(i64, i64)>;

    /// The position and the value of the global minimum.
    spec fn minimum_spec(&self) -> (Seq<i64>, i64);

    /// Returns the dimensionality of the input domain.
    fn dimensions(&self) -> (r: usize)
        ensures
            r as nat == self.dimensions_spec(),
    ;

    /// Returns the input domain of the function in terms of lower and
    /// upper bounds, respectively, for each input dimension.
    fn domain(&self) -> (r: Vec<(i64, i64)>)
        ensures
            r@ == self.domain_spec(),
            r@.len() == self.dimensions_spec(),
    ;

    /// Returns the position as well as the value of the global minimum.
    /// The value is the function's own value at that position.
    fn minimum(&self) -> (r: (Vec<i64>, i64))
        ensures
            r.0@ == self.minimum_spec().0,
            r.1 == self.minimum_spec().1,
            r.0@.len() == self.dimensions_spec(),
            self.dims_ok(r.0@.len()),
            r.1 == self.value_spec(r.0@),
    ;

    /// Generates a random and **feasible** position to start a
    /// minimization: strictly inside the domain, with the right
    /// dimensionality.
    fn random_start(&self) -> (r: Vec<i64>)
        ensures
            r@.len() == self.dimensions_spec(),
            self.dims_ok(r@.len()),
            forall|i: int|
                0 <= i < r@.len() ==> self.domain_spec()[i].0 < #[trigger] r@[i]
                    && r@[i] < self.domain_spec()[i].1,
    ;

    /// Tests whether the supplied position is legal for this function:
    /// the right dimensionality, strictly inside the domain.
    fn is_legal_position(&self, position: &Vec<i64>) -> (r: bool)
        ensures
            r == (position@.len() == self.dimensions_spec() && (forall|i: int|
                0 <= i < position@.len() ==> self.domain_spec()[i].0 < #[trigger] position@[i]
                    && position@[i] < self.domain_spec()[i].1)),
    {
        let d = self.domain();
        if position.len() != d.len() {
            return false;
        }
        let mut i: usize = 0;
        while i < position.len()
            invariant
                0 <= i <= position@.len(),
                position@.len() == d@.len(),
                d@ == self.domain_spec(),
                forall|j: int|
                    0 <= j < i ==> self.domain_spec()[j].0 < #[trigger] position@[j]
                        && position@[j] < self.domain_spec()[j].1,
            decreases position@.len() - i,
        {
            let (lower, upper) = d[i];
            if !(lower < position[i] && position[i] < upper) {
                return false;
            }
            i += 1;
        }
        true
    }
}

/// Half the width of the box that `Sphere::random_start` draws from:
/// 5.12 as a fixed-point scalar.
pub const SPHERE_START_BOUND: i64 = 21990232555;

/// Half the width of the box that `Rosenbrock::random_start` draws from:
/// 2.048 as a fixed-point scalar.
pub const ROSENBROCK_START_BOUND: i64 = 8796093022;

/// Draws a scalar uniformly from `[-bound, bound]`.
fn random_in_symmetric_range(bound: i64) -> (r: i64)
    requires
        0 < bound < 4611686018427387903,
    ensures
        -bound <= r <= bound,
{
    let span: u64 = (2 * bound + 1) as u64;
    let draw = random_u64();
    let m: u64 = draw % span;
    (m as i64) - bound
}

/// n-dimensional Sphere function.
///
/// It is continuous, convex and unimodal:
///
/// > f(x) = ∑ᵢ xᵢ²
///
/// *Global minimum*: `f(0,...,0) = 0`
///
/// Each coordinate contributes one term `xᵢ²`, so the sphere function is a
/// summation of differentiable terms and works with stochastic descent.
#[derive(Debug, Copy, Clone)]
pub struct Sphere {
    dimensions: usize,
}

impl Sphere {
    /// The dimensionality.
    pub closed spec fn dim_spec(&self) -> nat {
        self.dimensions as nat
    }

    /// Creates a sphere function over `dimensions` coordinates.
    pub fn new(dimensions: usize) -> (r: Sphere)
        requires
            dimensions > 0,
        ensures
            r.dim_spec() == dimensions as nat,
    {
        Sphere { dimensions }
    }
}

impl Default for Sphere {
    /// The two-dimensional sphere function.
    fn default() -> (r: Sphere)
        ensures
            r.dim_spec() == 2,
    {
        Sphere::new(2)
    }
}

impl Summation for Sphere {
    open spec fn sum_dims_ok(&self, n: nat) -> bool {
        n == self.dim_spec()
    }

    open spec fn terms_spec(&self) -> nat {
        self.dim_spec()
    }

    open spec fn term_value_spec(&self, position: Seq<i64>, term: nat) -> i64 {
        fx_mul_spec(position[term as int], position[term as int])
    }

    fn terms(&self) -> (r: usize) {
        self.dimensions
    }

    fn term_value(&self, position: &Vec<i64>, term: usize) -> (r: i64) {
        fx_mul(position[term], position[term])
    }
}

impl Summation1 for Sphere {
    open spec fn term_gradient_spec(&self, position: Seq<i64>, term: nat) -> Seq<i64> {
        Seq::new(
            position.len(),
            |l: int|
                if l == term as int {
                    fx_add_spec(position[l], position[l])
                } else {
                    0i64
                },
        )
    }

    fn term_gradient(&self, position: &Vec<i64>, term: usize) -> (r: Vec<i64>) {
        let mut g: Vec<i64> = Vec::new();
        let mut l: usize = 0;
        while l < position.len()
            invariant
                0 <= l <= position@.len(),
                g@.len() == l as int,
                term < position@.len(),
                forall|j: int|
                    0 <= j < l ==> g@[j] == (if j == term as int {
                        fx_add_spec(position@[j], position@[j])
                    } else {
                        0i64
                    }),
            decreases position@.len() - l,
        {
            if l == term {
                g.push(fx_add(position[l], position[l]));
            } else {
                g.push(0);
            }
            l += 1;
        }
        proof {
            assert(g@ =~= self.term_gradient_spec(position@, term as nat));
        }
        g
    }
}

impl Problem for Sphere {
    open spec fn dimensions_spec(&self) -> nat {
        self.dim_spec()
    }

    open spec fn domain_spec(&self) -> Seq<(i64, i64)> {
        Seq::new(self.dim_spec(), |i: int| (i64::MIN, i64::MAX))
    }

    open spec fn minimum_spec(&self) -> (Seq<i64>, i64) {
        (Seq::new(self.dim_spec(), |i: int| 0i64), 0i64)
    }

    fn dimensions(&self) -> (r: usize) {
        self.dimensions
    }

    fn domain(&self) -> (r: Vec<(i64, i64)>) {
        let mut d: Vec<(i64, i64)> = Vec::new();
        let mut i: usize = 0;
        while i < self.dimensions
            invariant
                0 <= i <= self.dim_spec(),
                d@.len() == i as int,
                forall|j: int| 0 <= j < i ==> d@[j] == (i64::MIN, i64::MAX),
            decreases self.dim_spec() - i,
        {
            d.push((i64::MIN, i64::MAX));
            i += 1;
        }
        proof {
            assert(d@ =~= self.domain_spec());
        }
        d
    }

    fn minimum(&self) -> (r: (Vec<i64>, i64)) {
        let mut p: Vec<i64> = Vec::new();
        let mut i: usize = 0;
        while i < self.dimensions
            invariant
                0 <= i <= self.dim_spec(),
                p@.len() == i as int,
                forall|j: int| 0 <= j < i ==> p@[j] == 0i64,
            decreases self.dim_spec() - i,
        {
            p.push(0);
            i += 1;
        }
        proof {
            assert(p@ =~= self.minimum_spec().0);
            vstd::arithmetic::div_mod::lemma_div_of0(SCALE as int);
            let tv = term_values(self, p@, all_terms(self.terms_spec()));
            assert(forall|j: int| 0 <= j < tv.len() ==> tv[j] == 0i64);
            lemma_sat_total_zero(tv);
            assert(self.value_spec(p@) == 0);
        }
        (p, 0)
    }

    fn random_start(&self) -> (r: Vec<i64>) {
        let mut p: Vec<i64> = Vec::new();
        let mut i: usize = 0;
        while i < self.dimensions
            invariant
                0 <= i <= self.dim_spec(),
                p@.len() == i as int,
                forall|j: int|
                    0 <= j < i ==> -SPHERE_START_BOUND <= #[trigger] p@[j] <= SPHERE_START_BOUND,
            decreases self.dim_spec() - i,
        {
            p.push(random_in_symmetric_range(SPHERE_START_BOUND));
            i += 1;
        }
        p
    }
}

/// Two-dimensional Rosenbrock function.
///
/// A non-convex function with its global minimum inside a long, narrow,
/// parabolic shaped flat valley:
///
/// > f(x, y) = (a - x)² + b (y - x²)²
///
/// *Global minimum*: `f(a, a²) = 0`
#[derive(Debug, Copy, Clone)]
pub struct Rosenbrock {
    a: i64,
    b: i64,
}

impl Rosenbrock {
    /// The parameter `a`.
    pub closed spec fn a_spec(&self) -> i64 {
        self.a
    }

    /// The parameter `b`.
    pub closed spec fn b_spec(&self) -> i64 {
        self.b
    }

    /// Creates a new `Rosenbrock` function given `a` and `b`, commonly
    /// defined with 1 and 100 (as fixed-point scalars), which also
    /// corresponds to the `default`.
    pub fn new(a: i64, b: i64) -> (r: Rosenbrock)
        ensures
            r.a_spec() == a,
            r.b_spec() == b,
    {
        Rosenbrock { a, b }
    }
}

/// 100 as a fixed-point scalar: the customary Rosenbrock `b`.
pub const ROSENBROCK_B_DEFAULT: i64 = 429496729600;

impl Default for Rosenbrock {
    /// The customary Rosenbrock function with `a = 1` and `b = 100`.
    fn default() -> (r: Rosenbrock)
        ensures
            r.a_spec() == SCALE,
            r.b_spec() == ROSENBROCK_B_DEFAULT,
    {
        Rosenbrock::new(SCALE, ROSENBROCK_B_DEFAULT)
    }
}

impl Function for Rosenbrock {
    open spec fn dims_ok(&self, n: nat) -> bool {
        n == 2
    }

    open spec fn value_spec(&self, x: Seq<i64>) -> i64 {
        let t = fx_sub_spec(self.a_spec(), x[0]);
        let u = fx_sub_spec(x[1], fx_mul_spec(x[0], x[0]));
        fx_add_spec(fx_mul_spec(t, t), fx_mul_spec(self.b_spec(), fx_mul_spec(u, u)))
    }

    fn value(&self, position: &Vec<i64>) -> (r: i64) {
        let t = fx_sub(self.a, position[0]);
        let u = fx_sub(position[1], fx_mul(position[0], position[0]));
        fx_add(fx_mul(t, t), fx_mul(self.b, fx_mul(u, u)))
    }
}

impl Function1 for Rosenbrock {
    open spec fn gradient_spec(&self, x: Seq<i64>) -> Seq<i64> {
        let t = fx_sub_spec(self.a_spec(), x[0]);
        let u = fx_sub_spec(x[1], fx_mul_spec(x[0], x[0]));
        let two_b = fx_add_spec(self.b_spec(), self.b_spec());
        let four_b = fx_add_spec(two_b, two_b);
        seq![
            fx_sub_spec(fx_neg_spec(fx_add_spec(t, t)), fx_mul_spec(four_b, fx_mul_spec(x[0], u))),
            fx_mul_spec(two_b, u),
        ]
    }

    fn gradient(&self, position: &Vec<i64>) -> (r: Vec<i64>) {
        let t = fx_sub(self.a, position[0]);
        let u = fx_sub(position[1], fx_mul(position[0], position[0]));
        let two_b = fx_add(self.b, self.b);
        let four_b = fx_add(two_b, two_b);
        let d0 = fx_sub(fx_neg(fx_add(t, t)), fx_mul(four_b, fx_mul(position[0], u)));
        let d1 = fx_mul(two_b, u);
        let mut g: Vec<i64> = Vec::new();
        g.push(d0);
        g.push(d1);
        proof {
            assert(g@ =~= self.gradient_spec(position@));
        }
        g
    }
}

impl Problem for Rosenbrock {
    open spec fn dimensions_spec(&self) -> nat {
        2
    }

    open spec fn domain_spec(&self) -> Seq<(i64, i64)> {
        seq![(i64::MIN, i64::MAX), (i64::MIN, i64::MAX)]
    }

    open spec fn minimum_spec(&self) -> (Seq<i64>, i64) {
        (seq![self.a_spec(), fx_mul_spec(self.a_spec(), self.a_spec())], 0i64)
    }

    fn dimensions(&self) -> (r: usize) {
        2
    }

    fn domain(&self) -> (r: Vec<(i64, i64)>) {
        let mut d: Vec<(i64, i64)> = Vec::new();
        d.push((i64::MIN, i64::MAX));
        d.push((i64::MIN, i64::MAX));
        proof {
            assert(d@ =~= self.domain_spec());
        }
        d
    }

    fn minimum(&self) -> (r: (Vec<i64>, i64)) {
        let mut p: Vec<i64> = Vec::new();
        p.push(self.a);
        p.push(fx_mul(self.a, self.a));
        proof {
            assert(p@ =~= self.minimum_spec().0);
            vstd::arithmetic::div_mod::lemma_div_of0(SCALE as int);
            let x = p@;
            let t = fx_sub_spec(self.a_spec(), x[0]);
            let u = fx_sub_spec(x[1], fx_mul_spec(x[0], x[0]));
            assert(t == 0);
            assert(u == 0);
            assert(fx_mul_spec(t, t) == 0);
            assert(fx_mul_spec(u, u) == 0);
            assert(fx_mul_spec(self.b_spec(), fx_mul_spec(u, u)) == 0);
            assert(self.value_spec(p@) == 0);
        }
        (p, 0)
    }

    fn random_start(&self) -> (r: Vec<i64>) {
        let mut p: Vec<i64> = Vec::new();
        p.push(random_in_symmetric_range(ROSENBROCK_START_BOUND));
        p.push(random_in_symmetric_range(ROSENBROCK_START_BOUND));
        p
    }
}

} // verus!
