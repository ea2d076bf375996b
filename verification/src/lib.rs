//! First-order numerical optimization: gradient descent and stochastic
//! gradient descent drivers, interchangeable line-search strategies, and a
//! finite-difference fallback for objectives without an analytical gradient.
//!
//! All quantities are saturating fixed-point numbers: an `i64` scaled by
//! [`fixed::SCALE`], so every arithmetic step has an exact integer meaning
//! that the contracts in this crate state and prove.

pub mod fixed;
pub mod types;
pub mod utils;
pub mod line_search;
pub mod gd;
pub mod numeric;
pub mod problems;
pub mod sgd;
mod rng;

pub use fixed::SCALE;
pub use types::{Evaluation, Function, Function1, Minimizer, Solution, Summation, Summation1};
pub use numeric::NumericalDifferentiation;
pub use line_search::{ArmijoLineSearch, ExactLineSearch, LineSearch, NoLineSearch};
pub use gd::GradientDescent;
pub use sgd::StochasticGradientDescent;
