//! Monte Carlo sampling: quantities estimated over many independent
//! equilibration-and-measurement runs, and the aggregate statistics over the
//! resulting series.
//!
//! Each sampler follows the same schedule. For every run the lattice is
//! (re-)initialized, `flips_to_skip` Metropolis trials let the chain
//! equilibrate, and then `samples_per_run` measurements are taken with
//! `flips_to_skip_between_samples` trials between consecutive measurements
//! to decorrelate them. The serial samplers drive the runs in sequence on
//! one lattice; the per-run samplers (`sample_run_*`) carry out exactly one
//! run on an already freshly initialized lattice, which is the unit of work
//! a caller hands to one thread when the runs execute in parallel on
//! independently duplicated lattices.
//!
//! Sampled values are the integer observables of the lattice; the caller
//! maps them through its real-valued couplings (energy is
//! `-j * neighbour_dot - h * spin_sum`, the neighbour correlation is the
//! dot product divided by `4 * n_sites`, the magnetization is the spin sum
//! divided by `n_sites`).

use vstd::prelude::*;

use crate::lattice2d::{IsingError, Lattice2d};
use crate::measurement::{dot_spin_neighbours_seq, spin_sum_seq};

verus! {

/// The longest series `mean_and_variance` accepts; with entries bounded by
/// `MAX_SAMPLE_ABS` this keeps every intermediate product inside `i128`.
pub const MAX_SERIES_LEN: usize = 0x4000_0000;

/// The largest entry magnitude `mean_and_variance` accepts. Every observable
/// the samplers produce fits: spin sums lie in [-n_sites, n_sites] and
/// neighbour dot products in [-4 n_sites, 4 n_sites], with n_sites at most
/// `MAX_SITES = 2^31`.
pub const MAX_SAMPLE_ABS: i64 = 0x2_0000_0000;

/// Parameters for Monte Carlo sampling.
#[derive(Clone, Copy, Debug)]
pub struct MonteCarloParams {
    /// Number of independent runs (replicas) to simulate.
    pub n_runs: usize,
    /// Update trials applied after (re)initialization, before any
    /// measurement, so the chain can equilibrate.
    pub flips_to_skip: usize,
    /// Number of measurements taken within one run after equilibration.
    pub samples_per_run: usize,
    /// Update trials applied between consecutive measurements of a run, to
    /// decorrelate successive samples.
    pub flips_to_skip_between_samples: usize,
}

/// One energy measurement, as its two integer sufficient statistics: the
/// physical energy is `E = -j * neighbour_dot - h * spin_sum`, which the
/// caller forms with its real-valued couplings.
#[derive(Clone, Copy, Debug, PartialEq, Eq, Structural)]
pub struct EnergyTerms {
    /// The dot product of every spin with the sum of its four neighbours.
    pub neighbour_dot: i64,
    /// The sum of all spin values.
    pub spin_sum: i64,
}

/// An exact mean and variance-of-the-mean of an integer series, as a pair of
/// rationals: the mean is `mean_num / mean_den` and the variance of the mean
/// is `var_num / var_den` (the sample variance divided by the number of
/// observations).
#[derive(Clone, Copy, Debug, PartialEq, Eq, Structural)]
pub struct MeanVariance {
    /// Mean numerator: the sum of the series.
    pub mean_num: i128,
    /// Mean denominator: the length of the series.
    pub mean_den: i128,
    /// Variance-of-the-mean numerator: `n * (sum of squares) - (sum)^2`.
    pub var_num: i128,
    /// Variance-of-the-mean denominator: `n * n * (n - 1)`.
    pub var_den: i128,
}

/// Whether one run with these parameters performs at least one update trial
/// — exactly the condition under which the unimplemented Glauber rule gets
/// the chance to fail.
pub open spec fn run_needs_updates(p: MonteCarloParams) -> bool {
    p.flips_to_skip >= 1 || (p.samples_per_run >= 1 && p.flips_to_skip_between_samples >= 1)
}

/// The bounds every energy sample of an `n`-site lattice obeys.
pub open spec fn energy_terms_bounded(e: EnergyTerms, n: int) -> bool {
    -4 * n <= e.neighbour_dot <= 4 * n && -n <= e.spin_sum <= n
}

/// The sum of the first `k` entries of the series `s`.
pub open spec fn series_sum_prefix(s: Seq<i64>, k: int) -> int
    decreases k,
{
    if k <= 0 {
        0
    } else {
        series_sum_prefix(s, k - 1) + s[k - 1]
    }
}

/// The sum of the series `s`.
pub open spec fn series_sum(s: Seq<i64>) -> int {
    series_sum_prefix(s, s.len() as int)
}

/// The sum of the squares of the first `k` entries of the series `s`.
pub open spec fn series_sum_sq_prefix(s: Seq<i64>, k: int) -> int
    decreases k,
{
    if k <= 0 {
        0
    } else {
        series_sum_sq_prefix(s, k - 1) + s[k - 1] * s[k - 1]
    }
}

/// The sum of the squares of the series `s`.
pub open spec fn series_sum_sq(s: Seq<i64>) -> int {
    series_sum_sq_prefix(s, s.len() as int)
}

impl Lattice2d {
    /// Measures both integer statistics of the energy at once: the
    /// neighbour dot product and the spin sum. The physical energy is
    /// `E = -j * neighbour_dot - h * spin_sum`.
    pub fn measure_energy_terms(&self) -> (r: EnergyTerms)
        requires
            self.wf(),
        ensures
            r.neighbour_dot as int == dot_spin_neighbours_seq(
                self.spins@,
                self.dims.0 as int,
                self.dims.1 as int,
            ),
            r.spin_sum as int == spin_sum_seq(self.spins@),
            energy_terms_bounded(r, self.n_sites as int),
            r.neighbour_dot as int % 2 == 0,
    {
        let dot = self.get_dot_spin_neighbours();
        let ss = self.get_spin_sum();
        EnergyTerms { neighbour_dot: dot, spin_sum: ss }
    }

    /// Carries out the measurement phase of one energy run on this (already
    /// freshly initialized) lattice: equilibrate with `flips_to_skip`
    /// trials, then take `samples_per_run` measurements separated by
    /// `flips_to_skip_between_samples` trials each. This is the unit of work
    /// one parallel run executes on its own duplicated lattice.
    pub fn sample_run_energy(&mut self, params: &MonteCarloParams) -> (r: Result<
        Vec<EnergyTerms>,
        IsingError,
    >)
        requires
            old(self).wf(),
        ensures
            final(self).wf(),
            final(self).same_recipe(*old(self)),
            r is Err <==> (old(self).update_rule is Glauber && run_needs_updates(*params)),
            r is Err ==> r == Err::<Vec<EnergyTerms>, IsingError>(
                IsingError::UnsupportedUpdateRule,
            ),
            r matches Ok(v) ==> v@.len() == params.samples_per_run && forall|i: int|
                0 <= i < v@.len() ==> energy_terms_bounded(
                    #[trigger] v@[i],
                    old(self).n_sites as int,
                ),
    {
        match self.update_n(params.flips_to_skip) {
            Ok(()) => {},
            Err(e) => {
                return Err(e);
            },
        }
        let mut samples: Vec<EnergyTerms> = Vec::new();
        let mut j: usize = 0;
        while j < params.samples_per_run
            invariant
                self.wf(),
                self.same_recipe(*old(self)),
                j <= params.samples_per_run,
                samples@.len() == j,
                forall|i: int|
                    0 <= i < samples@.len() ==> energy_terms_bounded(
                        #[trigger] samples@[i],
                        old(self).n_sites as int,
                    ),
                old(self).update_rule is Glauber ==> params.flips_to_skip == 0,
                old(self).update_rule is Glauber ==> (params.flips_to_skip_between_samples == 0
                    || j == 0),
            decreases params.samples_per_run - j,
        {
            match self.update_n(params.flips_to_skip_between_samples) {
                Ok(()) => {},
                Err(e) => {
                    return Err(e);
                },
            }
            let terms = self.measure_energy_terms();
            samples.push(terms);
            j = j + 1;
        }
        Ok(samples)
    }

    /// Monte Carlo sample of the energy observables. Returns one row per
    /// run and one entry per sample (shape `n_runs` x `samples_per_run`):
    /// each run resets the lattice, equilibrates it, and measures
    /// `samples_per_run` times.
    pub fn sample_energy(&mut self, params: &MonteCarloParams) -> (r: Result<
        Vec<Vec<EnergyTerms>>,
        IsingError,
    >)
        requires
            old(self).wf(),
        ensures
            final(self).wf(),
            final(self).same_recipe(*old(self)),
            r is Err <==> (old(self).update_rule is Glauber && params.n_runs >= 1
                && run_needs_updates(*params)),
            r is Err ==> r == Err::<Vec<Vec<EnergyTerms>>, IsingError>(
                IsingError::UnsupportedUpdateRule,
            ),
            r matches Ok(t) ==> t@.len() == params.n_runs && (forall|i: int|
                0 <= i < t@.len() ==> (#[trigger] t@[i])@.len() == params.samples_per_run)
                && (forall|i: int, j: int|
                0 <= i < t@.len() && 0 <= j < t@[i]@.len() ==> energy_terms_bounded(
                    #[trigger] t@[i]@[j],
                    old(self).n_sites as int,
                )),
    {
        let mut table: Vec<Vec<EnergyTerms>> = Vec::new();
        let mut i: usize = 0;
        while i < params.n_runs
            invariant
                self.wf(),
                self.same_recipe(*old(self)),
                i <= params.n_runs,
                table@.len() == i,
                forall|a: int|
                    0 <= a < table@.len() ==> (#[trigger] table@[a])@.len()
                        == params.samples_per_run,
                forall|a: int, b: int|
                    0 <= a < table@.len() && 0 <= b < table@[a]@.len() ==> energy_terms_bounded(
                        #[trigger] table@[a]@[b],
                        old(self).n_sites as int,
                    ),
                old(self).update_rule is Glauber && run_needs_updates(*params) ==> i == 0,
            decreases params.n_runs - i,
        {
            self.reset_spins();
            match self.sample_run_energy(params) {
                Ok(row) => {
                    table.push(row);
                },
                Err(e) => {
                    return Err(e);
                },
            }
            i = i + 1;
        }
        Ok(table)
    }

    /// Carries out one nearest-neighbour-correlation run on this (already
    /// freshly initialized) lattice; same schedule as `sample_run_energy`.
    /// Each sample is the raw neighbour dot product; dividing by
    /// `4 * n_sites` maps it into [-1, +1].
    pub fn sample_run_neighbor_correlations(&mut self, params: &MonteCarloParams) -> (r: Result<
        Vec<i64>,
        IsingError,
    >)
        requires
            old(self).wf(),
        ensures
            final(self).wf(),
            final(self).same_recipe(*old(self)),
            r is Err <==> (old(self).update_rule is Glauber && run_needs_updates(*params)),
            r is Err ==> r == Err::<Vec<i64>, IsingError>(IsingError::UnsupportedUpdateRule),
            r matches Ok(v) ==> v@.len() == params.samples_per_run && forall|i: int|
                0 <= i < v@.len() ==> -4 * (old(self).n_sites as int) <= #[trigger] v@[i] <= 4 * (
                old(self).n_sites as int) && v@[i] as int % 2 == 0,
    {
        match self.update_n(params.flips_to_skip) {
            Ok(()) => {},
            Err(e) => {
                return Err(e);
            },
        }
        let mut samples: Vec<i64> = Vec::new();
        let mut j: usize = 0;
        while j < params.samples_per_run
            invariant
                self.wf(),
                self.same_recipe(*old(self)),
                j <= params.samples_per_run,
                samples@.len() == j,
                forall|i: int|
                    0 <= i < samples@.len() ==> -4 * (old(self).n_sites as int)
                        <= #[trigger] samples@[i] <= 4 * (old(self).n_sites as int)
                        && samples@[i] as int % 2 == 0,
                old(self).update_rule is Glauber ==> params.flips_to_skip == 0,
                old(self).update_rule is Glauber ==> (params.flips_to_skip_between_samples == 0
                    || j == 0),
            decreases params.samples_per_run - j,
        {
            match self.update_n(params.flips_to_skip_between_samples) {
                Ok(()) => {},
                Err(e) => {
                    return Err(e);
                },
            }
            let dot = self.get_dot_spin_neighbours();
            samples.push(dot);
            j = j + 1;
        }
        Ok(samples)
    }

    /// Monte Carlo estimate of nearest-neighbour correlations, one row per
    /// run (shape `n_runs` x `samples_per_run`). Each entry is the raw
    /// neighbour dot product of one measured configuration; dividing by
    /// `4 * n_sites` maps it into [-1, +1].
    pub fn sample_neighbor_correlations(&mut self, params: &MonteCarloParams) -> (r: Result<
        Vec<Vec<i64>>,
        IsingError,
    >)
        requires
            old(self).wf(),
        ensures
            final(self).wf(),
            final(self).same_recipe(*old(self)),
            r is Err <==> (old(self).update_rule is Glauber && params.n_runs >= 1
                && run_needs_updates(*params)),
            r is Err ==> r == Err::<Vec<Vec<i64>>, IsingError>(IsingError::UnsupportedUpdateRule),
            r matches Ok(t) ==> t@.len() == params.n_runs && (forall|i: int|
                0 <= i < t@.len() ==> (#[trigger] t@[i])@.len() == params.samples_per_run)
                && (forall|i: int, j: int|
                0 <= i < t@.len() && 0 <= j < t@[i]@.len() ==> -4 * (old(self).n_sites as int)
                    <= #[trigger] t@[i]@[j] <= 4 * (old(self).n_sites as int) && t@[i]@[j] as int
                    % 2 == 0),
    {
        let mut table: Vec<Vec<i64>> = Vec::new();
        let mut i: usize = 0;
        while i < params.n_runs
            invariant
                self.wf(),
                self.same_recipe(*old(self)),
                i <= params.n_runs,
                table@.len() == i,
                forall|a: int|
                    0 <= a < table@.len() ==> (#[trigger] table@[a])@.len()
                        == params.samples_per_run,
                forall|a: int, b: int|
                    0 <= a < table@.len() && 0 <= b < table@[a]@.len() ==> -4 * (old(
                        self,
                    ).n_sites as int) <= #[trigger] table@[a]@[b] <= 4 * (old(self).n_sites as int)
                        && table@[a]@[b] as int % 2 == 0,
                old(self).update_rule is Glauber && run_needs_updates(*params) ==> i == 0,
            decreases params.n_runs - i,
        {
            self.reset_spins();
            match self.sample_run_neighbor_correlations(params) {
                Ok(row) => {
                    table.push(row);
                },
                Err(e) => {
                    return Err(e);
                },
            }
            i = i + 1;
        }
        Ok(table)
    }

    /// Carries out one magnetization run on this (already freshly
    /// initialized) lattice; same schedule as `sample_run_energy`. Each
    /// sample is the raw spin sum; dividing by `n_sites` gives the mean
    /// magnetization in [-1, +1].
    pub fn sample_run_magnetization(&mut self, params: &MonteCarloParams) -> (r: Result<
        Vec<i64>,
        IsingError,
    >)
        requires
            old(self).wf(),
        ensures
            final(self).wf(),
            final(self).same_recipe(*old(self)),
            r is Err <==> (old(self).update_rule is Glauber && run_needs_updates(*params)),
            r is Err ==> r == Err::<Vec<i64>, IsingError>(IsingError::UnsupportedUpdateRule),
            r matches Ok(v) ==> v@.len() == params.samples_per_run && forall|i: int|
                0 <= i < v@.len() ==> -(old(self).n_sites as int) <= #[trigger] v@[i] <= old(
                self,
                ).n_sites as int,
    {
        match self.update_n(params.flips_to_skip) {
            Ok(()) => {},
            Err(e) => {
                return Err(e);
            },
        }
        let mut samples: Vec<i64> = Vec::new();
        let mut j: usize = 0;
        while j < params.samples_per_run
            invariant
                self.wf(),
                self.same_recipe(*old(self)),
                j <= params.samples_per_run,
                samples@.len() == j,
                forall|i: int|
                    0 <= i < samples@.len() ==> -(old(self).n_sites as int)
                        <= #[trigger] samples@[i] <= old(self).n_sites as int,
                old(self).update_rule is Glauber ==> params.flips_to_skip == 0,
                old(self).update_rule is Glauber ==> (params.flips_to_skip_between_samples == 0
                    || j == 0),
            decreases params.samples_per_run - j,
        {
            match self.update_n(params.flips_to_skip_between_samples) {
                Ok(()) => {},
                Err(e) => {
                    return Err(e);
                },
            }
            let ss = self.get_spin_sum();
            samples.push(ss);
            j = j + 1;
        }
        Ok(samples)
    }

    /// Monte Carlo sample of the magnetization, one row per run (shape
    /// `n_runs` x `samples_per_run`). Each entry is the raw spin sum of one
    /// measured configuration; dividing by `n_sites` gives the mean spin in
    /// [-1, +1].
    pub fn sample_magnetization(&mut self, params: &MonteCarloParams) -> (r: Result<
        Vec<Vec<i64>>,
        IsingError,
    >)
        requires
            old(self).wf(),
        ensures
            final(self).wf(),
            final(self).same_recipe(*old(self)),
            r is Err <==> (old(self).update_rule is Glauber && params.n_runs >= 1
                && run_needs_updates(*params)),
            r is Err ==> r == Err::<Vec<Vec<i64>>, IsingError>(IsingError::UnsupportedUpdateRule),
            r matches Ok(t) ==> t@.len() == params.n_runs && (forall|i: int|
                0 <= i < t@.len() ==> (#[trigger] t@[i])@.len() == params.samples_per_run)
                && (forall|i: int, j: int|
                0 <= i < t@.len() && 0 <= j < t@[i]@.len() ==> -(old(self).n_sites as int)
                    <= #[trigger] t@[i]@[j] <= old(self).n_sites as int),
    {
        let mut table: Vec<Vec<i64>> = Vec::new();
        let mut i: usize = 0;
        while i < params.n_runs
            invariant
                self.wf(),
                self.same_recipe(*old(self)),
                i <= params.n_runs,
                table@.len() == i,
                forall|a: int|
                    0 <= a < table@.len() ==> (#[trigger] table@[a])@.len()
                        == params.samples_per_run,
                forall|a: int, b: int|
                    0 <= a < table@.len() && 0 <= b < table@[a]@.len() ==> -(old(
                        self,
                    ).n_sites as int) <= #[trigger] table@[a]@[b] <= old(self).n_sites as int,
                old(self).update_rule is Glauber && run_needs_updates(*params) ==> i == 0,
            decreases params.n_runs - i,
        {
            self.reset_spins();
            match self.sample_run_magnetization(params) {
                Ok(row) => {
                    table.push(row);
                },
                Err(e) => {
                    return Err(e);
                },
            }
            i = i + 1;
        }
        Ok(table)
    }
}

/// The sum of squared deviations of a series prefix from any value `c` is
/// non-negative: `sum_sq - 2*c*sum + m*c^2 >= 0`.
proof fn lemma_sq_deviation_nonneg(s: Seq<i64>, m: int, c: int)
    requires
        0 <= m <= s.len(),
    ensures
        series_sum_sq_prefix(s, m) - 2 * c * series_sum_prefix(s, m) + m * (c * c) >= 0,
    decreases m,
{
    if m > 0 {
        lemma_sq_deviation_nonneg(s, m - 1, c);
        let x = s[m - 1] as int;
        let s1 = series_sum_prefix(s, m - 1);
        let s2 = series_sum_sq_prefix(s, m - 1);
        assert(x * x - 2 * c * x + c * c >= 0) by (nonlinear_arith);
        assert(series_sum_sq_prefix(s, m) - 2 * c * series_sum_prefix(s, m) + m * (c * c) >= 0)
            by (nonlinear_arith)
            requires
                series_sum_prefix(s, m) == s1 + x,
                series_sum_sq_prefix(s, m) == s2 + x * x,
                s2 - 2 * c * s1 + (m - 1) * (c * c) >= 0,
                x * x - 2 * c * x + c * c >= 0,
        ;
    } else {
        assert(series_sum_sq_prefix(s, m) - 2 * c * series_sum_prefix(s, m) + m * (c * c) >= 0)
            by (nonlinear_arith)
            requires
                m == 0,
                series_sum_prefix(s, m) == 0,
                series_sum_sq_prefix(s, m) == 0,
        ;
    }
}

/// Law: the variance-of-the-mean numerator `n * sum_sq - sum^2` is never
/// negative (the power-mean inequality), so `mean_and_variance` can never
/// report a negative variance.
pub proof fn lemma_variance_numerator_nonneg(s: Seq<i64>, k: int)
    requires
        0 <= k <= s.len(),
    ensures
        k * series_sum_sq_prefix(s, k) - series_sum_prefix(s, k) * series_sum_prefix(s, k) >= 0,
    decreases k,
{
    if k > 0 {
        lemma_variance_numerator_nonneg(s, k - 1);
        let x = s[k - 1] as int;
        lemma_sq_deviation_nonneg(s, k - 1, x);
        let s1 = series_sum_prefix(s, k - 1);
        let s2 = series_sum_sq_prefix(s, k - 1);
        assert(k * (s2 + x * x) - (s1 + x) * (s1 + x) == ((k - 1) * s2 - s1 * s1) + (s2 - 2 * x
            * s1 + (k - 1) * (x * x))) by (nonlinear_arith);
        assert(s2 - 2 * x * s1 + (k - 1) * (x * x) >= 0);
    }
}

/// Law (the provable half of serial/parallel equivalence): a serial
/// sampling table has `n_runs` rows of `samples_per_run` entries — that is
/// what the `sample_*` contracts ensure — and a parallel table assembled
/// from one `sample_run_*` result per run, joined in run order, has rows of
/// exactly the same length, so the two modes always produce tables of
/// identical shape. (Their statistical consistency is a property of the
/// random dynamics, not of any one execution, and is outside what a proof
/// or a single test can state.)
pub proof fn lemma_serial_parallel_shape(
    serial: Seq<Seq<i64>>,
    parallel: Seq<Seq<i64>>,
    p: MonteCarloParams,
)
    requires
        serial.len() == p.n_runs,
        forall|i: int| 0 <= i < serial.len() ==> (#[trigger] serial[i]).len() == p.samples_per_run,
        parallel.len() == p.n_runs,
        forall|i: int|
            0 <= i < parallel.len() ==> (#[trigger] parallel[i]).len() == p.samples_per_run,
    ensures
        serial.len() == parallel.len(),
        forall|i: int| 0 <= i < serial.len() ==> (#[trigger] serial[i]).len() == parallel[i].len(),
{
}

/// Reduces a per-run series (e.g. one observable value per run) to its exact
/// mean and variance-of-the-mean, as rationals: the mean is `sum / n` and
/// the variance of the mean is the sample variance divided by `n`, i.e.
/// `(n * sum_of_squares - sum^2) / (n^2 * (n - 1))`. A variance-in-mean over
/// fewer than two observations is undefined, so a series shorter than two
/// entries is rejected with `TooFewRuns`.
pub fn mean_and_variance(series: &Vec<i64>) -> (r: Result<MeanVariance, IsingError>)
    requires
        series@.len() <= MAX_SERIES_LEN,
        forall|i: int|
            0 <= i < series@.len() ==> -MAX_SAMPLE_ABS <= #[trigger] series@[i] <= MAX_SAMPLE_ABS,
    ensures
        r is Err <==> series@.len() < 2,
        r is Err ==> r == Err::<MeanVariance, IsingError>(IsingError::TooFewRuns),
        r matches Ok(mv) ==> {
            &&& mv.mean_num == series_sum(series@)
            &&& mv.mean_den == series@.len()
            &&& mv.var_num == series@.len() * series_sum_sq(series@) - series_sum(series@)
                * series_sum(series@)
            &&& mv.var_den == series@.len() * series@.len() * (series@.len() - 1)
            &&& mv.var_num >= 0
            &&& mv.var_den > 0
        },
{
    let n = series.len();
    if n < 2 {
        return Err(IsingError::TooFewRuns);
    }
    let bound: i128 = MAX_SAMPLE_ABS as i128;
    let mut sum: i128 = 0;
    let mut sum_sq: i128 = 0;
    let mut i: usize = 0;
    while i < n
        invariant
            n == series@.len(),
            n <= MAX_SERIES_LEN,
            forall|t: int|
                0 <= t < series@.len() ==> -MAX_SAMPLE_ABS <= #[trigger] series@[t]
                    <= MAX_SAMPLE_ABS,
            i <= n,
            sum == series_sum_prefix(series@, i as int),
            sum_sq == series_sum_sq_prefix(series@, i as int),
            -(i as int) * (MAX_SAMPLE_ABS as int) <= sum <= (i as int) * (MAX_SAMPLE_ABS as int),
            0 <= sum_sq <= (i as int) * (MAX_SAMPLE_ABS as int) * (MAX_SAMPLE_ABS as int),
        decreases n - i,
    {
        let x: i128 = series[i] as i128;
        proof {
            let b = MAX_SAMPLE_ABS as int;
            let ii = i as int;
            assert((ii + 1) * b == ii * b + b) by (nonlinear_arith);
            assert(ii * b <= (MAX_SERIES_LEN as int) * b) by (nonlinear_arith)
                requires
                    0 <= ii <= MAX_SERIES_LEN as int,
                    0 <= b,
            ;
            assert(0 <= x * x <= b * b) by (nonlinear_arith)
                requires
                    -b <= x <= b,
            ;
            assert((ii + 1) * (b * b) == ii * (b * b) + b * b) by (nonlinear_arith);
            assert(ii * b * b == ii * (b * b)) by (nonlinear_arith);
            assert(ii * (b * b) <= (MAX_SERIES_LEN as int) * (b * b)) by (nonlinear_arith)
                requires
                    0 <= ii <= MAX_SERIES_LEN as int,
                    0 <= b * b,
            ;
            assert((ii + 1) * b * b == (ii + 1) * (b * b)) by (nonlinear_arith);
        }
        sum = sum + x;
        sum_sq = sum_sq + x * x;
        i = i + 1;
    }
    let n_i = n as i128;
    proof {
        let b = MAX_SAMPLE_ABS as int;
        let m = MAX_SERIES_LEN as int;
        let len = n as int;
        let s1 = series_sum(series@);
        let s2 = series_sum_sq(series@);
        assert(0 <= len * s2) by (nonlinear_arith)
            requires
                0 <= len,
                0 <= s2,
        ;
        assert(len * s2 <= len * ((len * b) * b)) by (nonlinear_arith)
            requires
                0 <= len,
                s2 <= (len * b) * b,
        ;
        assert(len * ((len * b) * b) <= m * ((m * b) * b)) by (nonlinear_arith)
            requires
                0 <= len <= m,
                0 <= b,
        ;
        assert(0 <= s1 * s1 <= (len * b) * (len * b)) by (nonlinear_arith)
            requires
                -(len * b) <= s1 <= len * b,
        ;
        assert((len * b) * (len * b) <= (m * b) * (m * b)) by (nonlinear_arith)
            requires
                0 <= len <= m,
                0 <= b,
        ;
        assert(0 <= len * len <= m * m) by (nonlinear_arith)
            requires
                0 <= len <= m,
        ;
        assert(0 <= (len * len) * (len - 1) <= (m * m) * m) by (nonlinear_arith)
            requires
                2 <= len <= m,
        ;
    }
    proof {
        lemma_variance_numerator_nonneg(series@, n as int);
        let len = n as int;
        assert(len * len * (len - 1) > 0) by (nonlinear_arith)
            requires
                2 <= len,
        ;
    }
    let var_num = n_i * sum_sq - sum * sum;
    let var_den = n_i * n_i * (n_i - 1);
    Ok(MeanVariance { mean_num: sum, mean_den: n_i, var_num, var_den })
}

} // verus!
