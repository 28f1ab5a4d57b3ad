//! Tests of the Monte Carlo sampling harness and the aggregate statistics.

use ising_lib::lattice2d::{
    flip_class_index, AcceptProb, Couplings, InitType, IsingError, Lattice2d, SpinType,
    UpdateRule, FLIP_CLASSES,
};
use ising_lib::monte_carlo_measurement::{mean_and_variance, MonteCarloParams};

/// The Metropolis acceptance decision for an energy delta `de` at inverse
/// temperature `beta`.
fn accept_prob(de: f64, beta: f64) -> AcceptProb {
    if de <= 0.0 {
        return AcceptProb::Always;
    }
    let p = (-beta * de).exp();
    if p >= 1.0 {
        AcceptProb::Always
    } else {
        AcceptProb::Chance((p * 18446744073709551616.0) as u64)
    }
}

/// Builds the lattice couplings from real-valued parameters.
fn couplings(j: f64, h: f64, beta: f64) -> Couplings {
    let mut accept = [AcceptProb::Always; FLIP_CLASSES];
    for s in [-1i32, 1i32] {
        for m in [-4i32, -2, 0, 2, 4] {
            let de = 2.0 * j * (s as f64) * (m as f64) + h * (s as f64);
            accept[flip_class_index(s, m)] = accept_prob(de, beta);
        }
    }
    Couplings {
        j_bits: j.to_bits(),
        h_bits: h.to_bits(),
        beta_bits: beta.to_bits(),
        accept,
    }
}

#[test]
fn test_sample_energy() {
    let params = MonteCarloParams {
        n_runs: 5,
        flips_to_skip: 1_000, // 1500_000,
        samples_per_run: 10,
        flips_to_skip_between_samples: 100,
    };
    let beta: f64 = 2.4; // roughly critical temp
                         // Initiate a lattice
    let mut lattice = Lattice2d::new(
        (9, 9),
        UpdateRule::Metropolis,
        SpinType::SpinHalf,
        InitType::Random,
        couplings(
            1.0,  // j interaction constant
            0.0,  // h static field term
            beta, // 1/TkB
        ),
    )
    .unwrap();
    let energy_samples = lattice.sample_energy(&params).unwrap();
    assert_eq!(energy_samples.len(), params.n_runs);
    assert_eq!(energy_samples[0].len(), params.samples_per_run);
    // The real-valued energies the caller forms from the samples.
    let j = 1.0f64;
    let h = 0.0f64;
    for row in &energy_samples {
        for terms in row {
            let energy = -j * (terms.neighbour_dot as f64) - h * (terms.spin_sum as f64);
            assert!(energy.abs() <= 4.0 * 81.0);
        }
    }
}

#[test]
fn test_sample_neighbor_correlations() {
    let params = MonteCarloParams {
        n_runs: 5,
        flips_to_skip: 1_000, // 1500_000,
        samples_per_run: 10,
        flips_to_skip_between_samples: 100,
    };
    let beta: f64 = 2.4; // roughly critical temp
                         // Initiate a lattice
    let mut lattice = Lattice2d::new(
        (9, 9),
        UpdateRule::Metropolis,
        SpinType::SpinHalf,
        InitType::Random,
        couplings(
            1.0,  // j interaction constant
            0.1,  // h static field term
            beta, // 1/TkB
        ),
    )
    .unwrap();
    let nn_corr = lattice.sample_neighbor_correlations(&params).unwrap();
    assert_eq!(nn_corr.len(), params.n_runs);
    assert_eq!(nn_corr[0].len(), params.samples_per_run);
    // Dividing by 4 * n_sites maps each raw dot product into [-1, +1], and
    // every dot product of a +-1 grid is even.
    for row in &nn_corr {
        for &dot in row {
            assert_eq!(dot.rem_euclid(2), 0);
            let corr = dot as f64 / (lattice.n_sites as f64) / 4.0;
            assert!((-1.0..=1.0).contains(&corr));
        }
    }
}

#[test]
fn test_sample_magnetization() {
    let params = MonteCarloParams {
        n_runs: 3,
        flips_to_skip: 200,
        samples_per_run: 4,
        flips_to_skip_between_samples: 50,
    };
    let mut lattice = Lattice2d::new(
        (6, 7),
        UpdateRule::Metropolis,
        SpinType::SpinHalf,
        InitType::Random,
        couplings(1.0, 0.0, 0.43),
    )
    .unwrap();
    let table = lattice.sample_magnetization(&params).unwrap();
    assert_eq!(table.len(), params.n_runs);
    for row in &table {
        assert_eq!(row.len(), params.samples_per_run);
        for &spin_sum in row {
            let mean = spin_sum as f64 / (lattice.n_sites as f64);
            assert!((-1.0..=1.0).contains(&mean));
        }
    }
}

#[test]
fn test_sample_run_matches_samples_per_run() {
    let params = MonteCarloParams {
        n_runs: 1,
        flips_to_skip: 50,
        samples_per_run: 7,
        flips_to_skip_between_samples: 10,
    };
    let mut lattice = Lattice2d::new(
        (5, 5),
        UpdateRule::Metropolis,
        SpinType::SpinHalf,
        InitType::Random,
        couplings(1.0, 0.0, 0.43),
    )
    .unwrap();
    // One run on a duplicated lattice is the unit of work a parallel
    // sampler hands to each thread.
    let mut replica = lattice.duplicate();
    let row = replica.sample_run_energy(&params).unwrap();
    assert_eq!(row.len(), params.samples_per_run);
    let row = lattice.sample_run_neighbor_correlations(&params).unwrap();
    assert_eq!(row.len(), params.samples_per_run);
    let row = lattice.sample_run_magnetization(&params).unwrap();
    assert_eq!(row.len(), params.samples_per_run);
}

#[test]
fn test_sampling_glauber_fails() {
    let params = MonteCarloParams {
        n_runs: 2,
        flips_to_skip: 10,
        samples_per_run: 2,
        flips_to_skip_between_samples: 5,
    };
    let mut lattice = Lattice2d::new(
        (4, 4),
        UpdateRule::Glauber,
        SpinType::SpinHalf,
        InitType::Random,
        couplings(1.0, 0.0, 0.43),
    )
    .unwrap();
    assert_eq!(
        lattice.sample_energy(&params).unwrap_err(),
        IsingError::UnsupportedUpdateRule
    );
    assert_eq!(
        lattice.sample_neighbor_correlations(&params).unwrap_err(),
        IsingError::UnsupportedUpdateRule
    );
    assert_eq!(
        lattice.sample_magnetization(&params).unwrap_err(),
        IsingError::UnsupportedUpdateRule
    );
}

#[test]
fn test_mean_and_variance_rejects_short_series() {
    let empty: Vec<i64> = vec![];
    assert_eq!(mean_and_variance(&empty).unwrap_err(), IsingError::TooFewRuns);
    let one = vec![5i64];
    assert_eq!(mean_and_variance(&one).unwrap_err(), IsingError::TooFewRuns);
    let two = vec![5i64, 7];
    assert!(mean_and_variance(&two).is_ok());
}

#[test]
fn test_mean_and_variance_exact() {
    let series = vec![1i64, 2, 3];
    let mv = mean_and_variance(&series).unwrap();
    // mean = 6/3 = 2
    assert_eq!(mv.mean_num, 6);
    assert_eq!(mv.mean_den, 3);
    assert_eq!(mv.mean_num as f64 / mv.mean_den as f64, 2.0);
    // sample variance = 1, variance of the mean = 1/3:
    // var_num = n * sum_sq - sum^2 = 3 * 14 - 36 = 6
    // var_den = n^2 * (n - 1) = 9 * 2 = 18
    assert_eq!(mv.var_num, 6);
    assert_eq!(mv.var_den, 18);
    let var = mv.var_num as f64 / mv.var_den as f64;
    assert!((var - 1.0 / 3.0).abs() < 1e-12);
}

#[test]
fn test_mean_and_variance_mixed_signs() {
    let series = vec![-3i64, 5, -1];
    let mv = mean_and_variance(&series).unwrap();
    // sum = 1, sum of squares = 35:
    // var_num = 3 * 35 - 1 = 104, var_den = 9 * 2 = 18.
    assert_eq!(mv.mean_num, 1);
    assert_eq!(mv.mean_den, 3);
    assert_eq!(mv.var_num, 104);
    assert_eq!(mv.var_den, 18);
    // The variance of the mean is never negative.
    assert!(mv.var_num >= 0 && mv.var_den > 0);
}
