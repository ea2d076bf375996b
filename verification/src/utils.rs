//! Vector helpers shared by the minimizers and the line searches.

use vstd::prelude::*;
use crate::fixed::{
    fx_abs, fx_abs_spec, fx_add, fx_add_spec, fx_mul, fx_mul_spec, fx_neg, fx_neg_spec, fx_sub,
    fx_sub_spec,
};

verus! {

/// Whether every absolute gradient component lies within `tolerance`.
pub open spec fn is_saddle_point_spec(gradient: Seq<i64>, tolerance: i64) -> bool {
    forall|i: int| 0 <= i < gradient.len() ==> fx_abs_spec(gradient[i]) <= tolerance
}

/// Tests whether we reached a flat area, i.e., tests if all absolute
/// gradient components lie within the `tolerance`.
pub fn is_saddle_point(gradient: &Vec<i64>, tolerance: i64) -> (r: bool)
    ensures
        r == is_saddle_point_spec(gradient@, tolerance),
{
    let mut i: usize = 0;
    while i < gradient.len()
        invariant
            0 <= i <= gradient@.len(),
            forall|j: int| 0 <= j < i ==> fx_abs_spec(gradient@[j]) <= tolerance,
        decreases gradient@.len() - i,
    {
        if fx_abs(gradient[i]) > tolerance {
            return false;
        }
        i += 1;
    }
    true
}

/// Whether two scalars are close: equal, or apart by at most `eps`, or apart
/// by at most `eps` relative to the magnitudes of the two numbers.
pub open spec fn are_close_spec(a: i64, b: i64, eps: i64) -> bool {
    let d = fx_abs_spec(fx_sub_spec(a, b));
    a == b || d <= eps || d <= fx_mul_spec(eps, fx_add_spec(fx_abs_spec(a), fx_abs_spec(b)))
}

/// Tests whether two scalars are close, using the absolute difference for
/// small magnitudes and the relative error otherwise.
pub fn are_close(a: i64, b: i64, eps: i64) -> (r: bool)
    ensures
        r == are_close_spec(a, b, eps),
{
    if a == b {
        return true;
    }
    let d = fx_abs(fx_sub(a, b));
    if d <= eps {
        return true;
    }
    d <= fx_mul(eps, fx_add(fx_abs(a), fx_abs(b)))
}

/// The position reached from `x` by a step of length `step` along `d`:
/// elementwise `x[i] + step * d[i]`.
pub open spec fn step_position_spec(x: Seq<i64>, step: i64, d: Seq<i64>) -> Seq<i64> {
    Seq::new(x.len(), |i: int| fx_add_spec(x[i], fx_mul_spec(step, d[i])))
}

/// Computes `x + step * d` elementwise.
pub fn step_position(x: &Vec<i64>, step: i64, d: &Vec<i64>) -> (r: Vec<i64>)
    requires
        d@.len() == x@.len(),
    ensures
        r@ == step_position_spec(x@, step, d@),
{
    let mut r: Vec<i64> = Vec::new();
    let mut i: usize = 0;
    while i < x.len()
        invariant
            0 <= i <= x@.len(),
            d@.len() == x@.len(),
            r@.len() == i as int,
            forall|j: int| 0 <= j < i ==> r@[j] == fx_add_spec(x@[j], fx_mul_spec(step, d@[j])),
        decreases x@.len() - i,
    {
        r.push(fx_add(x[i], fx_mul(step, d[i])));
        i += 1;
    }
    proof {
        assert(r@ =~= step_position_spec(x@, step, d@));
    }
    r
}

/// The dot product of two vectors: the saturating total of the elementwise
/// fixed-point products, accumulated left to right.
pub open spec fn dot_spec(a: Seq<i64>, b: Seq<i64>) -> i64 {
    crate::types::sat_total(Seq::new(a.len(), |i: int| fx_mul_spec(a[i], b[i])))
}

/// Computes the dot product of two vectors of equal length.
pub fn dot(a: &Vec<i64>, b: &Vec<i64>) -> (r: i64)
    requires
        b@.len() == a@.len(),
    ensures
        r == dot_spec(a@, b@),
{
    let ghost mut vals: Seq<i64> = Seq::empty();
    let mut acc: i64 = 0;
    let mut i: usize = 0;
    while i < a.len()
        invariant
            0 <= i <= a@.len(),
            b@.len() == a@.len(),
            vals.len() == i as int,
            forall|j: int| 0 <= j < i ==> vals[j] == fx_mul_spec(a@[j], b@[j]),
            acc == crate::types::sat_total(vals),
        decreases a@.len() - i,
    {
        let v = fx_mul(a[i], b[i]);
        acc = fx_add(acc, v);
        i += 1;
        proof {
            let pushed = vals.push(v);
            assert(pushed.drop_last() =~= vals);
            vals = pushed;
        }
    }
    proof {
        assert(vals =~= Seq::new(a@.len(), |j: int| fx_mul_spec(a@[j], b@[j])));
    }
    acc
}

/// The elementwise saturating negation of a vector.
pub open spec fn neg_vec_spec(v: Seq<i64>) -> Seq<i64> {
    Seq::new(v.len(), |i: int| fx_neg_spec(v[i]))
}

/// Computes the elementwise negation of a vector, typically turning a
/// gradient into a descent direction.
pub fn neg_vec(v: &Vec<i64>) -> (r: Vec<i64>)
    ensures
        r@ == neg_vec_spec(v@),
{
    let mut r: Vec<i64> = Vec::new();
    let mut i: usize = 0;
    while i < v.len()
        invariant
            0 <= i <= v@.len(),
            r@.len() == i as int,
            forall|j: int| 0 <= j < i ==> r@[j] == fx_neg_spec(v@[j]),
        decreases v@.len() - i,
    {
        r.push(fx_neg(v[i]));
        i += 1;
    }
    proof {
        assert(r@ =~= neg_vec_spec(v@));
    }
    r
}

} // verus!
