use compute::prelude::{Binomial, Distribution, Distribution1D, Normal};
use talos::numeric::{Draws, Real};
use talos::samplers::gibbs::{metropolis_verdict, Verdict};
use talos::samplers::{Gibbs, Sampler};
use talos::utils::Data;

use std::collections::HashMap;

/// Double-precision reals, drawn with the `alea` generator.
struct F64;

impl Real for F64 {
    type Value = f64;

    fn zero_spec() -> f64 {
        0.
    }

    fn one_spec() -> f64 {
        1.
    }

    fn add_spec(a: f64, b: f64) -> f64 {
        a + b
    }

    fn sub_spec(a: f64, b: f64) -> f64 {
        a - b
    }

    fn exp_spec(a: f64) -> f64 {
        a.exp()
    }

    fn min_spec(a: f64, b: f64) -> f64 {
        f64::min(a, b)
    }

    fn lt_spec(a: f64, b: f64) -> bool {
        a < b
    }

    fn neg_inf(a: f64) -> bool {
        a == f64::NEG_INFINITY
    }

    fn zero() -> f64 {
        Self::zero_spec()
    }

    fn one() -> f64 {
        Self::one_spec()
    }

    fn add(a: f64, b: f64) -> f64 {
        Self::add_spec(a, b)
    }

    fn sub(a: f64, b: f64) -> f64 {
        Self::sub_spec(a, b)
    }

    fn exp(a: f64) -> f64 {
        Self::exp_spec(a)
    }

    fn min(a: f64, b: f64) -> f64 {
        Self::min_spec(a, b)
    }

    fn lt(a: f64, b: f64) -> bool {
        Self::lt_spec(a, b)
    }

    fn is_neg_infinity(a: f64) -> bool {
        Self::neg_inf(a)
    }
}

impl Draws for F64 {
    fn normal(mean: f64, sd: f64) -> f64 {
        Normal::new(mean, sd).sample()
    }
    fn uniform() -> f64 {
        alea::f64()
    }
}

fn normal_ld(x: f64, mu: f64, sigma: f64) -> f64 {
    -sigma.ln() - 0.5 * ((x - mu) / sigma).powi(2)
}

fn mean(xs: &[f64]) -> f64 {
    xs.iter().sum::<f64>() / xs.len() as f64
}

fn std_dev(xs: &[f64]) -> f64 {
    let m = mean(xs);
    (xs.iter().map(|x| (x - m).powi(2)).sum::<f64>() / (xs.len() as f64 - 1.0)).sqrt()
}

fn standard_normal_2d(p: &[f64], _data: &()) -> f64 {
    normal_ld(p[0], 0.0, 1.0) + normal_ld(p[1], 0.0, 1.0)
}

#[test]
fn new_keeps_one_step_size_per_coordinate() {
    let s = Gibbs::<F64>::new(&[0.2, 0.2, 0.1]);
    assert_eq!(s.dims(), 3);
    assert_eq!(Gibbs::<F64>::new(&[]).dims(), 0);
}

#[test]
fn step_keeps_the_length() {
    alea::set_seed(11);
    for d in 0..6 {
        let s = Gibbs::<F64>::new(&vec![0.5; d]);
        let v: Vec<f64> = (0..d).map(|i| i as f64).collect();
        let model = |p: &[f64], _: &()| p.iter().map(|x| normal_ld(*x, 0.0, 1.0)).sum::<f64>();
        let w = s.step(&model, &v, &());
        assert_eq!(w.len(), v.len());
    }
}

#[test]
fn verdict_for_each_support_case() {
    assert_eq!(metropolis_verdict(true, false), Verdict::Accept);
    assert_eq!(metropolis_verdict(true, true), Verdict::Accept);
    assert_eq!(metropolis_verdict(false, true), Verdict::Reject);
    assert_eq!(metropolis_verdict(false, false), Verdict::Compare);
}

#[test]
fn a_chain_outside_the_support_always_moves() {
    alea::set_seed(5);
    // Zero density at exactly the starting point, finite everywhere else.
    let model = |p: &[f64], _: &()| if p[0] == 5.0 { f64::NEG_INFINITY } else { -1.0e6 };
    let s = Gibbs::<F64>::new(&[1.0e-3]);
    for _ in 0..1000 {
        let w = s.step(&model, &[5.0], &());
        assert_ne!(w[0], 5.0);
    }
}

#[test]
fn a_proposal_outside_the_support_is_refused() {
    alea::set_seed(6);
    let model = |p: &[f64], _: &()| if p[0] < 0.0 { f64::NEG_INFINITY } else { 0.0 };
    let s = Gibbs::<F64>::new(&[1.0]);
    let chain = s.sample(&model, &[0.0], &(), 2000);
    assert!(chain.iter().all(|v| v[0] >= 0.0));
}

#[test]
fn flat_density_accepts_every_proposal() {
    alea::set_seed(7);
    let model = |_: &[f64], _: &()| 0.0;
    let s = Gibbs::<F64>::new(&[1.0, 1.0]);
    let mut v = vec![0.0, 0.0];
    for _ in 0..200 {
        let w = s.step(&model, &v, &());
        assert_ne!(w[0], v[0]);
        assert_ne!(w[1], v[1]);
        v = w;
    }
}

#[test]
fn sample_returns_one_vector_per_sweep() {
    alea::set_seed(8);
    let s = Gibbs::<F64>::new(&[0.5, 0.5]);
    let chain = s.sample(&standard_normal_2d, &[1.0, -1.0], &(), 25);
    assert_eq!(chain.len(), 25);
    assert!(chain.iter().all(|v| v.len() == 2));
    assert!(s.sample(&standard_normal_2d, &[1.0, -1.0], &(), 0).is_empty());
}

#[test]
fn sample_par_returns_chains_of_equal_length() {
    let s = Gibbs::<F64>::new(&[0.5, 0.5]);
    let chains = s.sample_par(&standard_normal_2d, &[0.0, 0.0], &(), 50, 3);
    assert_eq!(chains.len(), 3);
    for chain in &chains {
        assert_eq!(chain.len(), 50);
        assert!(chain.iter().all(|v| v.len() == 2));
    }
    assert!(s.sample_par(&standard_normal_2d, &[0.0, 0.0], &(), 50, 0).is_empty());
}

#[test]
fn normal_posterior_is_recovered() {
    alea::set_seed(42);
    let (mu, sigma) = (3.0, 2.0);
    let model = |p: &[f64], _: &()| normal_ld(p[0], mu, sigma);
    let s = Gibbs::<F64>::new(&[4.0]);
    let chain = s.sample(&model, &[0.0], &(), 40000);
    let xs: Vec<f64> = chain.iter().skip(2000).map(|v| v[0]).collect();
    // The chain is autocorrelated: allow a few times the independent standard error.
    let se = sigma / (xs.len() as f64).sqrt();
    assert!((mean(&xs) - mu).abs() < 10.0 * se, "mean {}", mean(&xs));
    assert!((std_dev(&xs) - sigma).abs() < 0.1 * sigma, "std {}", std_dev(&xs));
}

fn beta_binomial_model(p: &[f64], data: &HashMap<&str, Data<f64>>) -> f64 {
    let theta = p[0];
    if !(0.0..=1.0).contains(&theta) {
        return f64::NEG_INFINITY;
    }
    let heads = data["heads"].unpack_int_array().unwrap();
    let trials = *data["trials"].unpack_int().unwrap() as f64;
    // Beta(2, 2) prior, up to its constant.
    let mut target = theta.ln() + (1.0 - theta).ln();
    for &n in heads {
        let n = n as f64;
        target = target + n * theta.ln() + (trials - n) * (1.0 - theta).ln();
    }
    target
}

#[test]
fn coin_flip_posterior_mean() {
    alea::set_seed(2021);
    let trials = 100;
    let flips = Binomial::new(trials, 0.7).sample_n(50);
    let mut data = HashMap::new();
    data.insert("heads", Data::IntArray(flips.iter().map(|&x| x as i32).collect()));
    data.insert("trials", Data::Int(trials as i32));

    let s = Gibbs::<F64>::new(&[0.01]);
    let chains = s.sample_par(&beta_binomial_model, &[0.5], &data, 10000, 4);
    assert_eq!(chains.len(), 4);
    let pooled: Vec<f64> =
        chains.iter().flat_map(|c| c.iter().skip(2000).map(|v| v[0])).collect();
    assert!((mean(&pooled) - 0.7).abs() < 0.05, "mean {}", mean(&pooled));
}

fn regression_model(p: &[f64], data: &(Vec<f64>, Vec<f64>)) -> f64 {
    let (m, b, s) = (p[0], p[1], p[2]);
    let (x, y) = data;
    let mut target = normal_ld(m, 4.0, 2.0);
    target = target + (-1.0_f64.ln() - (b - 2.0).abs() / 1.0);
    target = target + (1.0_f64.ln() - 1.0 * s);
    let noise = s.exp();
    for i in 0..x.len() {
        target = target + normal_ld(y[i], x[i] * m + b, noise);
    }
    target
}

#[test]
fn linear_regression_posterior_means() {
    alea::set_seed(7);
    let n = 500;
    let x: Vec<f64> = (0..n).map(|i| 10.0 * i as f64 / (n - 1) as f64).collect();
    let noise = Normal::new(0.0, 0.1);
    let y: Vec<f64> = x.iter().map(|xi| xi * 1.0 + 2.0 + noise.sample()).collect();
    let data = (x, y);

    let s = Gibbs::<F64>::new(&[0.2, 0.2, 0.1]);
    let chains = s.sample_par(&regression_model, &[4.0, 2.0, 1.0], &data, 3000, 4);
    let kept: Vec<&Vec<f64>> =
        chains.iter().flat_map(|c| c.iter().skip(1000).step_by(5)).collect();
    let slope: Vec<f64> = kept.iter().map(|v| v[0]).collect();
    let intercept: Vec<f64> = kept.iter().map(|v| v[1]).collect();
    assert!((mean(&slope) - 1.0).abs() < 0.1, "slope {}", mean(&slope));
    assert!((mean(&intercept) - 2.0).abs() < 0.1, "intercept {}", mean(&intercept));
}

#[test]
fn a_sweep_scans_coordinates_in_order_with_two_evaluations_each() {
    alea::set_seed(9);
    let calls = std::cell::RefCell::new(Vec::<Vec<f64>>::new());
    // Flat density: every proposal is taken.
    let model = |p: &[f64], _: &()| {
        calls.borrow_mut().push(p.to_vec());
        0.0
    };
    let s = Gibbs::<F64>::new(&[1.0, 1.0, 1.0]);
    let start = vec![10.0, 20.0, 30.0];
    let end = s.step(&model, &start, &());
    let calls = calls.into_inner();
    assert_eq!(calls.len(), 2 * 3);
    let mut running = start.clone();
    for i in 0..3 {
        let (current, proposed) = (&calls[2 * i], &calls[2 * i + 1]);
        assert_eq!(current, &running);
        for j in 0..3 {
            if j != i {
                assert_eq!(proposed[j], running[j]);
            }
        }
        assert_ne!(proposed[i], running[i]);
        running = proposed.clone();
    }
    assert_eq!(running, end);
}

#[test]
fn sample_records_each_sweep_in_order() {
    alea::set_seed(10);
    let calls = std::cell::RefCell::new(0usize);
    let model = |p: &[f64], _: &()| {
        *calls.borrow_mut() += 1;
        normal_ld(p[0], 0.0, 1.0)
    };
    let s = Gibbs::<F64>::new(&[0.5]);
    let chain = s.sample(&model, &[0.0], &(), 100);
    assert_eq!(chain.len(), 100);
    assert_eq!(calls.into_inner(), 2 * 1 * 100);
}

#[test]
fn traces_read_a_chain_by_coordinate() {
    let chain = vec![vec![1.0, 10.0, 100.0], vec![2.0, 20.0, 200.0]];
    assert_eq!(
        talos::samplers::traces(&chain, 3),
        vec![vec![1.0, 2.0], vec![10.0, 20.0], vec![100.0, 200.0]]
    );
    let empty: Vec<Vec<f64>> = vec![];
    assert_eq!(talos::samplers::traces(&empty, 2), vec![Vec::<f64>::new(), Vec::new()]);
}

#[test]
fn traces_of_a_sampled_chain() {
    alea::set_seed(12);
    let s = Gibbs::<F64>::new(&[0.5, 0.5]);
    let chain = s.sample(&standard_normal_2d, &[1.0, -1.0], &(), 30);
    let t = talos::samplers::traces(&chain, 2);
    assert_eq!(t.len(), 2);
    for k in 0..30 {
        assert_eq!(t[0][k], chain[k][0]);
        assert_eq!(t[1][k], chain[k][1]);
    }
}

#[test]
fn update_with_applies_the_metropolis_rule() {
    let s = Gibbs::<F64>::new(&[1.0]);
    let model = |p: &[f64], _: &()| normal_ld(p[0], 0.0, 1.0);
    // ld_c = 0, ld_p = -0.125, so the acceptance probability is exp(-0.125) = 0.8825.
    assert_eq!(s.update_with(&model, vec![0.0], 0, &(), 0.5, 0.99), vec![0.0]);
    assert_eq!(s.update_with(&model, vec![0.0], 0, &(), 0.5, 0.5), vec![0.5]);
    // A denser proposal is always taken.
    assert_eq!(s.update_with(&model, vec![2.0], 0, &(), -1.5, 0.999999), vec![0.5]);
}

#[test]
fn update_with_changes_only_its_coordinate() {
    let s = Gibbs::<F64>::new(&[1.0, 1.0, 1.0]);
    let flat = |_: &[f64], _: &()| 0.0;
    assert_eq!(s.update_with(&flat, vec![1.0, 2.0, 3.0], 1, &(), 0.25, 0.5), vec![1.0, 2.25, 3.0]);
}

#[test]
fn update_with_leaves_a_point_outside_the_support() {
    let s = Gibbs::<F64>::new(&[1.0]);
    let model = |p: &[f64], _: &()| if p[0] < 0.0 { f64::NEG_INFINITY } else { -1.0e9 * p[0] };
    // From outside the support every proposal is taken, whatever u is.
    assert_eq!(s.update_with(&model, vec![-1.0], 0, &(), 1.5, 0.999999), vec![0.5]);
    assert_eq!(s.update_with(&model, vec![-1.0], 0, &(), -0.5, 0.999999), vec![-1.5]);
    // From inside, a proposal outside is refused, whatever u is.
    assert_eq!(s.update_with(&model, vec![0.5], 0, &(), -1.0, 0.0), vec![0.5]);
}
