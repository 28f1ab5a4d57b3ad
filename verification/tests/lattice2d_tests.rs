//! Tests of lattice construction, initialization, duplication and the
//! Metropolis update engine.

use ising_lib::lattice2d::{
    flip_class_index, AcceptProb, Couplings, InitType, IsingError, Lattice2d, SpinType,
    UpdateRule, FLIP_CLASSES,
};

/// The Metropolis acceptance decision for an energy delta `de` at inverse
/// temperature `beta`: certain acceptance when the flip does not raise the
/// energy, else probability `exp(-beta * de)` scaled to a 64-bit threshold.
fn accept_prob(de: f64, beta: f64) -> AcceptProb {
    if de <= 0.0 {
        return AcceptProb::Always;
    }
    let p = (-beta * de).exp();
    if p >= 1.0 {
        AcceptProb::Always
    } else {
        AcceptProb::Chance((p * 18446744073709551616.0) as u64)
    }
}

/// Builds the lattice couplings from real-valued parameters: for each flip
/// class (site spin `s`, neighbour sum `m`) the energy delta is
/// `dE = 2*j*s*m + h*s`.
fn couplings(j: f64, h: f64, beta: f64) -> Couplings {
    let mut accept = [AcceptProb::Always; FLIP_CLASSES];
    for s in [-1i32, 1i32] {
        for m in [-4i32, -2, 0, 2, 4] {
            let de = 2.0 * j * (s as f64) * (m as f64) + h * (s as f64);
            accept[flip_class_index(s, m)] = accept_prob(de, beta);
        }
    }
    Couplings {
        j_bits: j.to_bits(),
        h_bits: h.to_bits(),
        beta_bits: beta.to_bits(),
        accept,
    }
}

/// The default recipe: j = 1.0, h = 0.0, beta = 0.43.
fn default_couplings() -> Couplings {
    couplings(1.0, 0.0, 0.43)
}

#[test]
fn test_lattice_new_basic() {
    let lattice = Lattice2d::new(
        (5, 10),
        UpdateRule::Metropolis,
        SpinType::SpinHalf,
        InitType::Random,
        default_couplings(),
    )
    .unwrap();
    assert_eq!(lattice.spins.len(), lattice.dims.0 * lattice.dims.1);
    assert_eq!(lattice.n_sites, lattice.dims.0 * lattice.dims.1);
}

#[test]
fn test_lattice_new() {
    let lattice = Lattice2d::new(
        (7, 8),
        UpdateRule::Metropolis,
        SpinType::SpinHalf,
        InitType::Random,
        couplings(
            1.0,  // interaction constant, default 1.0
            0.0,  // external uniform magnetic field, default 0.0
            0.43, // beta = 1/(k_b * T), defaults to 0.43
        ),
    )
    .unwrap();
    assert_eq!(lattice.spins.len(), lattice.dims.0 * lattice.dims.1);
    assert_eq!(lattice.n_sites, lattice.dims.0 * lattice.dims.1);
}

#[test]
fn test_clone_lattice() {
    let lattice = Lattice2d::new(
        (3, 3),
        UpdateRule::Metropolis,
        SpinType::SpinHalf,
        InitType::Random,
        default_couplings(),
    )
    .unwrap();
    let _newlat = lattice.duplicate();
}

#[test]
fn test_update_n() {
    let mut lattice = Lattice2d::new(
        (5, 10),
        UpdateRule::Metropolis,
        SpinType::SpinHalf,
        InitType::Random,
        default_couplings(),
    )
    .unwrap();
    lattice.update_n(10).unwrap();
}

#[test]
fn test_get_dE() {
    let lattice = Lattice2d::new(
        (5, 6),
        UpdateRule::Metropolis,
        SpinType::SpinHalf,
        InitType::Random,
        default_couplings(),
    )
    .unwrap();
    let i0: usize = 0;
    let i1: usize = 3;
    let (prod, spin) = lattice.energy_delta_terms(i0, i1);
    // dE = 2*j*prod + h*spin, formed from the real-valued couplings.
    let _de: f64 = 2.0 * 1.0 * (prod as f64) + 0.0 * (spin as f64);
}

#[test]
fn test_init_spins() {
    let spins = Lattice2d::init_spins(&InitType::Random, (4, 5));
    assert_eq!(spins.len(), 4 * 5);
    assert!(spins[3 * 5 + 4] == 1 || spins[3 * 5 + 4] == -1);
    assert!(spins[0] == 1 || spins[0] == -1);

    let spins = Lattice2d::init_spins(&InitType::AllUp, (2, 3));
    assert_eq!(spins.len(), 2 * 3);
    assert_eq!(spins[1 * 3 + 1], 1i32);
}

#[test]
fn test_reset_spins() {
    let mut lattice = Lattice2d::new(
        (5, 10),
        UpdateRule::Metropolis,
        SpinType::SpinHalf,
        InitType::Random,
        default_couplings(),
    )
    .unwrap();
    lattice.reset_spins(); // all we test for here is runtime errors
}

#[test]
fn test_update_disp() {
    let mut lattice = Lattice2d::new(
        (5, 5),
        UpdateRule::Metropolis,
        SpinType::SpinHalf,
        InitType::Random,
        default_couplings(),
    )
    .unwrap();
    println!("{}", lattice.render_terminal());
    for _ in 0..3 {
        for _ in 0..1 {
            lattice.update().unwrap();
        }
        println!("{}", lattice.render_terminal());
    }
}

#[test]
fn test_invalid_dims_rejected() {
    let c = default_couplings();
    let zero_rows = Lattice2d::new(
        (0, 5),
        UpdateRule::Metropolis,
        SpinType::SpinHalf,
        InitType::Random,
        c,
    );
    assert_eq!(zero_rows.unwrap_err(), IsingError::InvalidDims);
    let zero_cols = Lattice2d::new(
        (5, 0),
        UpdateRule::Metropolis,
        SpinType::SpinHalf,
        InitType::AllUp,
        c,
    );
    assert_eq!(zero_cols.unwrap_err(), IsingError::InvalidDims);
}

#[test]
fn test_glauber_update_fails() {
    let mut lattice = Lattice2d::new(
        (4, 4),
        UpdateRule::Glauber,
        SpinType::SpinHalf,
        InitType::AllUp,
        default_couplings(),
    )
    .unwrap();
    assert_eq!(lattice.update().unwrap_err(), IsingError::UnsupportedUpdateRule);
    assert_eq!(lattice.update_n(5).unwrap_err(), IsingError::UnsupportedUpdateRule);
    // Zero trials perform no update, so nothing can fail.
    assert!(lattice.update_n(0).is_ok());
}

#[test]
fn test_reset_all_up_idempotent() {
    let mut lattice = Lattice2d::new(
        (4, 4),
        UpdateRule::Metropolis,
        SpinType::SpinHalf,
        InitType::AllUp,
        default_couplings(),
    )
    .unwrap();
    lattice.reset_spins();
    let mut first: Vec<i32> = Vec::new();
    for r in 0..4usize {
        for c in 0..4usize {
            first.push(lattice.get_spin(r, c));
        }
    }
    lattice.reset_spins();
    let mut second: Vec<i32> = Vec::new();
    for r in 0..4usize {
        for c in 0..4usize {
            second.push(lattice.get_spin(r, c));
        }
    }
    assert_eq!(first, second);
    assert!(first.iter().all(|&s| s == 1));
}

#[test]
fn test_duplicate_is_fresh_not_snapshot() {
    // At beta = 0 every flip is accepted, so one update flips exactly one
    // site of the all-up grid.
    let mut lattice = Lattice2d::new(
        (3, 3),
        UpdateRule::Metropolis,
        SpinType::SpinHalf,
        InitType::AllUp,
        couplings(1.0, 0.0, 0.0),
    )
    .unwrap();
    assert_eq!(lattice.get_spin_sum(), 9);
    lattice.update().unwrap();
    assert_eq!(lattice.get_spin_sum(), 7);
    // The duplicate is re-initialized from the recipe (all up), not copied
    // from the evolved configuration.
    let copy = lattice.duplicate();
    assert_eq!(copy.get_spin_sum(), 9);
    // The original is untouched by duplication.
    assert_eq!(lattice.get_spin_sum(), 7);
}

#[test]
fn test_single_site_lattice() {
    // On a 1x1 torus every neighbour of the one site is the site itself.
    let mut lattice = Lattice2d::new(
        (1, 1),
        UpdateRule::Metropolis,
        SpinType::SpinHalf,
        InitType::AllUp,
        default_couplings(),
    )
    .unwrap();
    assert_eq!(lattice.n_sites, 1);
    assert_eq!(lattice.get_spin_sum(), 1);
    assert_eq!(lattice.neighbour_spin_sum(0, 0), 4);
    assert_eq!(lattice.get_dot_spin_neighbours(), 4);
    lattice.update_n(3).unwrap();
    assert!(lattice.is_well_formed());
}

#[test]
fn test_is_well_formed() {
    let mut lattice = Lattice2d::new(
        (4, 6),
        UpdateRule::Metropolis,
        SpinType::SpinHalf,
        InitType::Random,
        default_couplings(),
    )
    .unwrap();
    assert!(lattice.is_well_formed());
    lattice.update_n(100).unwrap();
    assert!(lattice.is_well_formed());
    // A corrupt grid (a spin outside {-1, +1}) is detected.
    lattice.spins[3] = 5;
    assert!(!lattice.is_well_formed());
}

#[test]
fn test_update_n_zero_is_noop() {
    let mut lattice = Lattice2d::new(
        (4, 5),
        UpdateRule::Metropolis,
        SpinType::SpinHalf,
        InitType::Random,
        default_couplings(),
    )
    .unwrap();
    let before = lattice.spins.clone();
    lattice.update_n(0).unwrap();
    assert_eq!(lattice.spins, before);
}

#[test]
fn test_update_n_forced_flips_keep_sum_parity() {
    // At beta = 0 every trial flips exactly one site, and each flip moves
    // the spin sum by 2 — so after any number of trials the sum of a 3x3
    // all-up grid stays odd.
    let mut lattice = Lattice2d::new(
        (3, 3),
        UpdateRule::Metropolis,
        SpinType::SpinHalf,
        InitType::AllUp,
        couplings(1.0, 0.0, 0.0),
    )
    .unwrap();
    for n in [0usize, 1, 2, 5] {
        lattice.update_n(n).unwrap();
        let sum = lattice.get_spin_sum();
        assert_eq!(sum.rem_euclid(2), 1);
        assert!((-9..=9).contains(&sum));
    }
}
