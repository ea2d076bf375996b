use optimization::fixed::{fx_abs, fx_add, fx_div, fx_mul, fx_neg, fx_sub};
use optimization::problems::{Problem, Rosenbrock, Sphere};
use optimization::utils::{are_close, is_saddle_point};
use optimization::{
    ArmijoLineSearch, Evaluation, ExactLineSearch, Function, Function1, GradientDescent,
    LineSearch, Minimizer, NoLineSearch, NumericalDifferentiation, StochasticGradientDescent,
    Summation, Summation1, SCALE,
};

/// Converts a real number to its fixed-point representation.
fn fx(x: f64) -> i64 {
    (x * SCALE as f64).round() as i64
}

/// Converts a fixed-point scalar back to a real number.
fn fl(v: i64) -> f64 {
    v as f64 / SCALE as f64
}

/// Euclidean distance between a fixed-point position and a fixed-point
/// target, as a real number.
fn distance(p: &[i64], q: &[i64]) -> f64 {
    assert_eq!(p.len(), q.len());
    p.iter()
        .zip(q.iter())
        .map(|(&a, &b)| (fl(a) - fl(b)).powi(2))
        .sum::<f64>()
        .sqrt()
}

#[test]
fn test_fixed_point_ops() {
    assert_eq!(fx_add(fx(1.5), fx(2.25)), fx(3.75));
    assert_eq!(fx_add(i64::MAX, 1), i64::MAX);
    assert_eq!(fx_sub(i64::MIN, 1), i64::MIN);
    assert_eq!(fx_mul(fx(1.5), fx(-2.0)), fx(-3.0));
    assert_eq!(fx_mul(i64::MAX, fx(2.0)), i64::MAX);
    // quotients truncate toward zero
    assert_eq!(fx_div(fx(1.0), fx(3.0)), 1431655765);
    assert_eq!(fx_div(fx(-1.0), fx(3.0)), -1431655765);
    assert_eq!(fx_neg(i64::MIN), i64::MAX);
    assert_eq!(fx_abs(fx(-4.5)), fx(4.5));
}

#[test]
fn test_is_saddle_point() {
    assert!(is_saddle_point(&vec![fx(1.0), fx(2.0)], fx(2.0)));
    assert!(is_saddle_point(&vec![fx(1.0), fx(-2.0)], fx(2.0)));
    assert!(!is_saddle_point(&vec![fx(1.0), fx(2.1)], fx(2.0)));
    assert!(!is_saddle_point(&vec![fx(1.0), fx(-2.1)], fx(2.0)));
}

#[test]
fn test_are_close() {
    assert!(are_close(fx(1.0), fx(1.0), fx(0.00001)));
    assert!(are_close(i64::MAX, i64::MAX, fx(0.00001)));
    assert!(are_close(fx(1.0e-10), fx(0.0), fx(0.1)));
    assert!(!are_close(fx(0.001), fx(0.0), fx(0.000001)));
    assert!(!are_close(fx(2.0), fx(1.0), fx(0.00001)));
    assert!(!are_close(i64::MAX, i64::MIN, fx(0.00001)));
}

#[test]
fn test_accuracy() {
    let analytical_problem = Rosenbrock::default();
    let numerical_problem = NumericalDifferentiation::new(analytical_problem);

    for _ in 0..1000 {
        let position = analytical_problem.random_start();

        let analytical_gradient = analytical_problem.gradient(&position);
        let numerical_gradient = numerical_problem.gradient(&position);

        assert_eq!(analytical_gradient.len(), numerical_gradient.len());

        assert!(analytical_gradient
            .into_iter()
            .zip(numerical_gradient)
            .all(|(a, n)| are_close(a, n, fx(1.0e-3))));
    }
}

#[test]
fn test_sphere_value_exact() {
    let sphere = Sphere::new(2);
    assert_eq!(sphere.value(&vec![fx(1.5), fx(-2.0)]), fx(6.25));
    assert_eq!(sphere.value(&vec![fx(0.0), fx(0.0)]), 0);
}

#[test]
fn test_rosenbrock_value_and_gradient_exact() {
    let rosenbrock = Rosenbrock::default();
    assert_eq!(rosenbrock.value(&vec![fx(0.0), fx(0.0)]), fx(1.0));
    let g = rosenbrock.gradient(&vec![fx(0.0), fx(0.0)]);
    assert_eq!(g, vec![fx(-2.0), fx(0.0)]);
    let (minimum_position, minimum_value) = rosenbrock.minimum();
    assert_eq!(minimum_value, 0);
    assert_eq!(rosenbrock.value(&minimum_position), 0);
}

#[test]
fn test_fixed_step_width_exact() {
    let sphere = Sphere::new(2);
    let position = vec![fx(1.5), fx(-2.25)];
    let direction = vec![fx(0.5), fx(3.0)];
    let (new_position, new_value) = NoLineSearch::new(fx(0.25)).search(
        &sphere,
        &position,
        &direction,
    );
    for i in 0..2 {
        assert_eq!(new_position[i], fx_add(position[i], fx_mul(fx(0.25), direction[i])));
    }
    assert_eq!(new_position, vec![fx(1.625), fx(-1.5)]);
    assert_eq!(new_value, sphere.value(&new_position));
}

#[test]
fn test_exact_line_search_picks_best_candidate() {
    let sphere = Sphere::new(2);
    let position = vec![fx(1.0), fx(1.0)];
    let direction = vec![fx(-1.0), fx(-1.0)];
    let search = ExactLineSearch::new(fx(0.1), fx(2.0), fx(2.0));
    let (_, value) = search.search(&sphere, &position, &direction);

    assert!(value <= sphere.value(&position));
    let mut step = fx(0.1);
    while step <= fx(2.0) {
        let candidate: Vec<i64> = position
            .iter()
            .zip(direction.iter())
            .map(|(&x, &d)| fx_add(x, fx_mul(step, d)))
            .collect();
        assert!(value <= sphere.value(&candidate));
        step = fx_mul(step, fx(2.0));
    }
}

#[test]
fn test_armijo_accepts_largest_sufficient_step() {
    let sphere = Sphere::new(2);
    let position = vec![fx(1.0), fx(1.0)];
    let gradient = sphere.gradient(&position);
    let direction: Vec<i64> = gradient.iter().map(|&g| fx_neg(g)).collect();
    let search = ArmijoLineSearch::new(fx(0.5), fx(1.0), fx(0.5));
    let (new_position, new_value) = search.search(&sphere, &position, &direction);

    // The step 1.0 overshoots and fails the test; 0.5 lands exactly on the
    // minimum and satisfies it, so 0.5 is accepted.
    let f0 = sphere.value(&position);
    let m: i64 = gradient
        .iter()
        .zip(direction.iter())
        .fold(0, |acc, (&g, &d)| fx_add(acc, fx_mul(g, d)));
    let t = fx_mul(fx_neg(fx(0.5)), m);
    assert!(t > 0);
    // accepted step satisfies the Armijo condition
    assert!(new_value <= fx_sub(f0, fx_mul(fx(0.5), t)));
    // the larger candidate 1.0 does not
    let overshoot: Vec<i64> = position
        .iter()
        .zip(direction.iter())
        .map(|(&x, &d)| fx_add(x, fx_mul(fx(1.0), d)))
        .collect();
    assert!(sphere.value(&overshoot) > fx_sub(f0, fx_mul(fx(1.0), t)));
    assert_eq!(new_position, vec![fx(0.0), fx(0.0)]);
    assert_eq!(new_value, 0);
}

#[test]
fn test_gd_sphere_converges() {
    let minimizer = GradientDescent::new();
    let problem = Sphere::default();
    for _ in 0..100 {
        let start = problem.random_start();
        let solution = minimizer.minimize(&problem, start);
        let (minimum_position, _) = problem.minimum();
        assert!(distance(solution.position(), &minimum_position) < 1.0e-2);
    }
}

#[test]
fn test_gd_rosenbrock_converges() {
    let minimizer = GradientDescent::new().max_iterations(Some(2_000_000));
    let problem = Rosenbrock::default();
    let start = vec![fx(-3.0), fx(-4.0)];
    let solution = minimizer.minimize(&problem, start);
    let (minimum_position, _) = problem.minimum();
    assert!(distance(solution.position(), &minimum_position) < 1.0e-2);
}

#[test]
fn test_gd_numerical_sphere_converges() {
    let minimizer = GradientDescent::new();
    let problem = NumericalDifferentiation::new(Sphere::default());
    for _ in 0..100 {
        let start = problem.random_start();
        let solution = minimizer.minimize(&problem, start);
        let (minimum_position, _) = problem.minimum();
        assert!(distance(solution.position(), &minimum_position) < 1.0e-2);
    }
}

#[test]
fn test_numerical_gradient_exact_at_one() {
    // At x = (1, 0) the probe step is exactly 2^-11, and the central
    // difference over x0 evaluates to exactly 2.0 in fixed point.
    let numerical = NumericalDifferentiation::new(Sphere::new(2));
    let g = numerical.gradient(&vec![fx(1.0), fx(0.0)]);
    assert_eq!(g, vec![fx(2.0), fx(0.0)]);
    let default_numerical: NumericalDifferentiation<Sphere> = Default::default();
    assert_eq!(default_numerical.dimensions(), 2);
}

#[test]
fn test_sgd_determinism() {
    let problem = Sphere::new(4);
    let start = vec![fx(2.0), fx(-1.5), fx(0.5), fx(1.0)];

    let mut first = StochasticGradientDescent::new();
    first.seed(42);
    first.max_iterations(Some(50));
    first.mini_batch(2);

    let mut second = StochasticGradientDescent::new();
    second.seed(42);
    second.max_iterations(Some(50));
    second.mini_batch(2);

    let a = first.minimize(&problem, start.clone());
    let b = second.minimize(&problem, start.clone());
    assert_eq!(a.position, b.position);
    assert_eq!(a.value, b.value);

    // Each run clones the generator state, so running the same driver again
    // reproduces the result as well.
    let c = first.minimize(&problem, start);
    assert_eq!(a.position, c.position);
    assert_eq!(a.value, c.value);
}

#[test]
fn test_sgd_sphere_converges() {
    let problem = Sphere::new(3);
    let start = vec![fx(4.0), fx(-3.0), fx(2.5)];
    let mut minimizer = StochasticGradientDescent::new();
    minimizer.seed(7);
    minimizer.max_iterations(Some(500));
    minimizer.step_width(fx(0.05));
    let solution = minimizer.minimize(&problem, start);
    let (minimum_position, _) = problem.minimum();
    assert!(distance(solution.position(), &minimum_position) < 1.0e-2);
    assert_eq!(solution.value(), problem.value(solution.position()));
}

#[test]
fn test_partial_value_additivity() {
    let sphere = Sphere::new(4);
    let x = vec![fx(1.0), fx(-2.0), fx(0.5), fx(3.0)];
    let a = vec![0usize, 2];
    let b = vec![3usize, 1];
    let total = sphere.partial_value(&x, &a) + sphere.partial_value(&x, &b);
    assert_eq!(total, sphere.value(&x));
}

#[test]
fn test_partial_gradient_additivity() {
    let sphere = Sphere::new(4);
    let x = vec![fx(1.0), fx(-2.0), fx(0.5), fx(3.0)];
    let a = vec![0usize, 2];
    let b = vec![3usize, 1];
    let ga = sphere.partial_gradient(&x, &a);
    let gb = sphere.partial_gradient(&x, &b);
    let g = sphere.gradient(&x);
    for i in 0..4 {
        assert_eq!(ga[i] + gb[i], g[i]);
    }
}

#[test]
fn test_summation_term_values() {
    let sphere = Sphere::new(3);
    let x = vec![fx(1.0), fx(2.0), fx(-3.0)];
    assert_eq!(sphere.terms(), 3);
    assert_eq!(sphere.term_value(&x, 0), fx(1.0));
    assert_eq!(sphere.term_value(&x, 1), fx(4.0));
    assert_eq!(sphere.term_value(&x, 2), fx(9.0));
    assert_eq!(sphere.value(&x), fx(14.0));
    let g1 = sphere.term_gradient(&x, 1);
    assert_eq!(g1, vec![0, fx(4.0), 0]);
}

#[test]
fn test_problem_legality() {
    let sphere = Sphere::new(2);
    assert!(sphere.is_legal_position(&vec![fx(1.0), fx(2.0)]));
    assert!(!sphere.is_legal_position(&vec![fx(1.0)]));
    let start = sphere.random_start();
    assert!(sphere.is_legal_position(&start));
    assert_eq!(sphere.dimensions(), 2);
    assert_eq!(sphere.domain().len(), 2);
}

#[test]
fn test_solution_evaluation() {
    let solution = optimization::Solution::new(vec![fx(1.0)], fx(2.0));
    assert_eq!(solution.position(), &vec![fx(1.0)]);
    assert_eq!(solution.value(), fx(2.0));
}
