//! A 2D Ising spin model: a toroidal lattice of binary spins evolved by
//! Metropolis dynamics, with measurement and Monte Carlo sampling support.

pub mod lattice2d;
pub mod measurement;
pub mod monte_carlo_measurement;
