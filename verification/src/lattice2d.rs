//! The 2D spin lattice type: a toroidal grid of spins in {-1, +1}, together
//! with the Metropolis update engine that evolves it one trial flip at a time.
//!
//! The lattice behaves like a torus: spins on opposite edges are considered
//! each other's neighbours.

use vstd::prelude::*;
use vstd::string::StringExecFns;

verus! {

/// The largest number of sites a lattice may hold. Keeping the site count
/// below 2^31 lets every derived integer quantity (spin sums in [-n, n],
/// neighbour dot products in [-4n, 4n]) fit comfortably in an `i64`.
pub const MAX_SITES: usize = 0x8000_0000;

/// The number of distinct classes a proposed single-spin flip can fall in:
/// the site's spin is -1 or +1, and the sum of its four toroidal neighbours
/// is one of -4, -2, 0, 2, 4.
pub const FLIP_CLASSES: usize = 10;

/// Update rule options for the lattice. Only Metropolis is implemented;
/// selecting Glauber makes every update report `UnsupportedUpdateRule`
/// instead of silently doing nothing.
#[derive(Clone, Copy, Debug, PartialEq, Eq, Structural)]
pub enum UpdateRule {
    Metropolis,
    Glauber,
}

/// Types of spin system (spin one-half only, for now).
#[derive(Clone, Copy, Debug, PartialEq, Eq, Structural)]
pub enum SpinType {
    SpinHalf,
}

/// Initial spin configuration: each site uniformly random in {-1, +1}, or
/// every site up (+1).
#[derive(Clone, Copy, Debug, PartialEq, Eq, Structural)]
pub enum InitType {
    Random,
    AllUp,
}

/// The failures the library reports: grid dimensions that are zero or too
/// large, an update rule that is declared but not implemented, and statistics
/// requested over too few runs.
#[derive(Clone, Copy, Debug, PartialEq, Eq, Structural)]
pub enum IsingError {
    InvalidDims,
    UnsupportedUpdateRule,
    TooFewRuns,
}

/// The probability with which one proposed Metropolis flip is accepted, for
/// one class of flip.
#[derive(Clone, Copy, Debug, PartialEq, Eq, Structural)]
pub enum AcceptProb {
    /// The flip does not raise the energy (delta E <= 0): accept it
    /// unconditionally.
    Always,
    /// The flip raises the energy: accept it exactly when a fresh uniform
    /// 64-bit draw is below this threshold, i.e. with probability
    /// `threshold / 2^64` (for the Boltzmann rule, `exp(-beta * dE)` scaled
    /// by 2^64 and rounded down).
    Chance(u64),
}

/// The physical parameters of the lattice, in the form the verified logic
/// consumes them. Real-valued arithmetic cannot be carried out here, so the
/// coupling constant `j`, the external field `h` and the inverse temperature
/// `beta` travel as opaque IEEE-754 bit patterns, and the one thing the
/// dynamics actually reads from them — the Metropolis acceptance probability
/// of each of the ten possible flip classes — is precomputed by the caller
/// into `accept`. Entry `flip_class(s, m)` must hold the acceptance
/// probability for flipping a spin `s` whose four neighbours sum to `m`,
/// where `dE = 2 * j * s * m + h * s`: `Always` when `dE <= 0` (or
/// `exp(-beta * dE) >= 1`), else `Chance(floor(exp(-beta * dE) * 2^64))`.
#[derive(Clone, Copy, Debug)]
pub struct Couplings {
    /// Interaction constant `j` as IEEE-754 bits (sign: ferromagnetic j > 0
    /// vs antiferromagnetic j < 0); opaque to the lattice logic.
    pub j_bits: u64,
    /// External uniform field strength `h` as IEEE-754 bits; opaque to the
    /// lattice logic.
    pub h_bits: u64,
    /// Inverse temperature `beta = 1/(k_B T)` as IEEE-754 bits; opaque to
    /// the lattice logic.
    pub beta_bits: u64,
    /// The Metropolis acceptance probability of each flip class, indexed by
    /// `flip_class`.
    pub accept: [AcceptProb; FLIP_CLASSES],
}

/// A spin value is valid when it is exactly -1 or +1.
pub open spec fn spin_value_ok(s: i32) -> bool {
    s == 1i32 || s == -1i32
}

/// The flipped value of a valid spin.
pub open spec fn flipped(s: i32) -> i32 {
    if s == 1i32 {
        -1i32
    } else {
        1i32
    }
}

/// Toroidal successor of index `i` on a ring of length `n`, i.e.
/// `(i + 1) % n` for `0 <= i < n`.
pub open spec fn wrap_inc(i: int, n: int) -> int {
    if i + 1 == n {
        0
    } else {
        i + 1
    }
}

/// Toroidal predecessor of index `i` on a ring of length `n`, i.e.
/// `(i - 1 + n) % n` for `0 <= i < n`.
pub open spec fn wrap_dec(i: int, n: int) -> int {
    if i == 0 {
        n - 1
    } else {
        i - 1
    }
}

/// The sum of the four toroidal neighbours of site (`r`, `c`) in the
/// row-major grid `g` of shape `rows` x `cols`: (r, c+1), (r, c-1), (r+1, c)
/// and (r-1, c), all indices wrapping around the edges.
pub open spec fn neighbour_sum_at(g: Seq<i32>, rows: int, cols: int, r: int, c: int) -> int {
    g[r * cols + wrap_inc(c, cols)] + g[r * cols + wrap_dec(c, cols)] + g[
        wrap_inc(r, rows) * cols + c
    ] + g[wrap_dec(r, rows) * cols + c]
}

/// `neighbour_sum_at` addressed by the flat row-major site index `k`.
pub open spec fn neighbour_sum_flat(g: Seq<i32>, rows: int, cols: int, k: int) -> int {
    neighbour_sum_at(g, rows, cols, k / cols, k % cols)
}

/// Which entry of `Couplings::accept` governs flipping a spin `s` whose four
/// neighbours sum to `m`.
pub open spec fn flip_class(s: int, m: int) -> int {
    (if s == 1 {
        5int
    } else {
        0int
    }) + (m + 4) / 2
}

/// Exactly one site was negated between the grids `a` and `b`.
pub open spec fn one_flip_made(a: Seq<i32>, b: Seq<i32>) -> bool {
    exists|k: int| 0 <= k < a.len() && b == a.update(k, flipped(a[k]))
}

/// A single Metropolis trial relates the old and new spin grids like this:
/// either nothing changed (the flip was rejected), or exactly one site was
/// negated (the flip was accepted).
pub open spec fn one_flip_step(a: Seq<i32>, b: Seq<i32>) -> bool {
    b == a || one_flip_made(a, b)
}

/// Every flip class of this acceptance table accepts unconditionally (the
/// table of a configuration in which no flip ever raises the energy, e.g.
/// at infinite temperature).
pub open spec fn accepts_always(c: Couplings) -> bool {
    forall|i: int| 0 <= i < FLIP_CLASSES ==> c.accept@[i] is Always
}

/// The grid `b` arises from the grid `a` of lattice state `l` by `n`
/// Metropolis trials in sequence: a chain of `n` single-trial steps, each
/// changing at most one site — and, when every flip class of `l`'s table
/// accepts unconditionally, each negating exactly one site.
pub open spec fn flip_trials(l: Lattice2d, a: Seq<i32>, b: Seq<i32>, n: int) -> bool
    decreases n,
{
    if n <= 0 {
        b == a
    } else {
        exists|mid: Seq<i32>|
            flip_trials(l, a, mid, n - 1) && (if accepts_always(l.couplings) {
                one_flip_made(mid, b)
            } else {
                one_flip_step(mid, b)
            })
    }
}

/// Site `k`'s flip class carries only a chance of acceptance — the one way
/// a Metropolis trial on the grid `g` of lattice `l` can leave it unchanged
/// is to draw such a site and reject the flip.
pub open spec fn flip_rejectable_at(l: Lattice2d, g: Seq<i32>, k: int) -> bool {
    l.couplings.accept@[flip_class(
        g[k] as int,
        neighbour_sum_flat(g, l.dims.0 as int, l.dims.1 as int, k),
    )] is Chance
}

/// A flat row-major index formed from in-range coordinates is in range.
pub proof fn lemma_flat_index(r: int, c: int, rows: int, cols: int)
    requires
        0 <= r < rows,
        0 <= c < cols,
    ensures
        0 <= r * cols + c < rows * cols,
{
    assert(r * cols + c < rows * cols) by (nonlinear_arith)
        requires
            0 <= r < rows,
            0 <= c < cols,
    ;
    assert(0 <= r * cols) by (nonlinear_arith)
        requires
            0 <= r,
            0 <= cols,
    ;
}

/// The row and column recovered from an in-range flat index are in range and
/// rebuild that index.
pub proof fn lemma_flat_coords(k: int, rows: int, cols: int)
    requires
        1 <= cols,
        0 <= k < rows * cols,
    ensures
        0 <= k / cols < rows,
        0 <= k % cols < cols,
        (k / cols) * cols + k % cols == k,
{
    assert(0 <= k / cols < rows && 0 <= k % cols < cols && (k / cols) * cols + k % cols == k)
        by (nonlinear_arith)
        requires
            1 <= cols,
            0 <= k < rows * cols,
    ;
}

/// The flat index of coordinates (`r`, `c`) decomposes back into them.
pub proof fn lemma_flat_of_coords(r: int, c: int, rows: int, cols: int)
    requires
        0 <= r < rows,
        0 <= c < cols,
    ensures
        (r * cols + c) / cols == r,
        (r * cols + c) % cols == c,
        0 <= r * cols + c < rows * cols,
{
    lemma_flat_index(r, c, rows, cols);
    assert((r * cols + c) / cols == r && (r * cols + c) % cols == c) by (nonlinear_arith)
        requires
            0 <= r,
            0 <= c < cols,
    ;
}

/// Relies on `rand::random::<bool>()`: one independent fair draw from the
/// thread-local generator. Nothing is assumed about the value drawn.
#[verifier::external_body]
fn random_bool() -> (r: bool) {
    rand::random::<bool>()
}

/// Relies on `rand::random::<u64>()`: one independent uniform draw from the
/// thread-local generator. Nothing is assumed about the value drawn.
#[verifier::external_body]
fn random_u64() -> (r: u64) {
    rand::random::<u64>()
}

/// Toroidal successor of `i` on a ring of length `n`.
pub(crate) fn wrap_next(i: usize, n: usize) -> (r: usize)
    requires
        i < n,
    ensures
        r < n,
        r as int == wrap_inc(i as int, n as int),
{
    if i + 1 == n {
        0
    } else {
        i + 1
    }
}

/// Toroidal predecessor of `i` on a ring of length `n`.
pub(crate) fn wrap_prev(i: usize, n: usize) -> (r: usize)
    requires
        i < n,
    ensures
        r < n,
        r as int == wrap_dec(i as int, n as int),
{
    if i == 0 {
        n - 1
    } else {
        i - 1
    }
}

/// A type encapsulating the 2d spin lattice and the basic operations
/// performed on it.
///
/// The grid is stored row-major: site (`r`, `c`) with `r < dims.0` and
/// `c < dims.1` lives at `spins[r * dims.1 + c]`.
#[derive(Debug)]
pub struct Lattice2d {
    /// Grid shape (rows, columns); both positive, fixed for the lattice's
    /// lifetime.
    pub dims: (usize, usize),
    /// The number of spin one-half sites; always `dims.0 * dims.1`.
    pub n_sites: usize,
    /// The spin of every site, each exactly -1 or +1.
    pub spins: Vec<i32>,
    /// The transition policy trial flips follow.
    pub update_rule: UpdateRule,
    /// The kind of spin system.
    pub spin_type: SpinType,
    /// How `spins` is populated at construction and on every reset.
    pub init_type: InitType,
    /// The physical parameters (couplings and precomputed acceptance table).
    pub couplings: Couplings,
}

impl Lattice2d {
    /// The lattice's invariant: positive dimensions, a site count that is
    /// exactly their product (and small enough for safe integer
    /// measurement), and a grid of that size whose every entry is -1 or +1.
    pub open spec fn wf(self) -> bool {
        &&& 1 <= self.dims.0
        &&& 1 <= self.dims.1
        &&& self.n_sites == self.dims.0 * self.dims.1
        &&& self.n_sites <= MAX_SITES
        &&& self.spins@.len() == self.n_sites
        &&& forall|i: int| 0 <= i < self.spins@.len() ==> spin_value_ok(#[trigger] self.spins@[i])
    }

    /// The spin at site (`r`, `c`).
    pub open spec fn spin_at(self, r: int, c: int) -> int {
        self.spins@[r * self.dims.1 + c] as int
    }

    /// The sum of the four toroidal neighbours of site (`r`, `c`).
    pub open spec fn neighbour_sum(self, r: int, c: int) -> int {
        neighbour_sum_at(self.spins@, self.dims.0 as int, self.dims.1 as int, r, c)
    }

    /// Every spin in the grid is +1.
    pub open spec fn all_up(self) -> bool {
        forall|i: int| 0 <= i < self.spins@.len() ==> self.spins@[i] == 1i32
    }

    /// Two lattices share a recipe when every field except the current spin
    /// configuration agrees. Duplication and resetting preserve the recipe.
    pub open spec fn same_recipe(self, other: Self) -> bool {
        &&& self.dims == other.dims
        &&& self.n_sites == other.n_sites
        &&& self.update_rule == other.update_rule
        &&& self.spin_type == other.spin_type
        &&& self.init_type == other.init_type
        &&& self.couplings == other.couplings
    }

    /// Populates a fresh grid of shape `dims` as `init_type` dictates:
    /// `Random` draws every site independently as -1 or +1 with equal
    /// probability, `AllUp` sets every site to +1.
    pub fn init_spins(init_type: &InitType, dims: (usize, usize)) -> (r: Vec<i32>)
        requires
            1 <= dims.0,
            1 <= dims.1,
            dims.0 * dims.1 <= MAX_SITES,
        ensures
            r@.len() == dims.0 * dims.1,
            forall|i: int| 0 <= i < r@.len() ==> spin_value_ok(#[trigger] r@[i]),
            *init_type is AllUp ==> forall|i: int| 0 <= i < r@.len() ==> r@[i] == 1i32,
    {
        let n = dims.0 * dims.1;
        let mut spins: Vec<i32> = Vec::new();
        match init_type {
            InitType::AllUp => {
                let mut i: usize = 0;
                while i < n
                    invariant
                        i <= n,
                        spins@.len() == i,
                        forall|k: int| 0 <= k < i ==> spins@[k] == 1i32,
                    decreases n - i,
                {
                    spins.push(1);
                    i = i + 1;
                }
            },
            InitType::Random => {
                let mut i: usize = 0;
                while i < n
                    invariant
                        i <= n,
                        spins@.len() == i,
                        forall|k: int| 0 <= k < i ==> spin_value_ok(#[trigger] spins@[k]),
                    decreases n - i,
                {
                    let s: i32 = if random_bool() {
                        1
                    } else {
                        -1
                    };
                    spins.push(s);
                    i = i + 1;
                }
            },
        }
        spins
    }

    /// Creates a new lattice of the given shape with the given recipe,
    /// immediately populated per `init_type`. Rejects a shape with a zero
    /// dimension (toroidal indexing would be ill-defined) or more than
    /// `MAX_SITES` sites.
    pub fn new(
        dims: (usize, usize),
        update_rule: UpdateRule,
        spin_type: SpinType,
        init_type: InitType,
        couplings: Couplings,
    ) -> (r: Result<Lattice2d, IsingError>)
        ensures
            r is Ok <==> (1 <= dims.0 && 1 <= dims.1 && dims.0 * dims.1 <= MAX_SITES),
            r is Err ==> r == Err::<Lattice2d, IsingError>(IsingError::InvalidDims),
            r matches Ok(l) ==> {
                &&& l.wf()
                &&& l.dims == dims
                &&& l.n_sites == dims.0 * dims.1
                &&& l.update_rule == update_rule
                &&& l.spin_type == spin_type
                &&& l.init_type == init_type
                &&& l.couplings == couplings
                &&& (init_type is AllUp ==> l.all_up())
            },
    {
        if dims.0 == 0 || dims.1 == 0 {
            return Err(IsingError::InvalidDims);
        }
        proof {
            assert((dims.0 as int) * (dims.1 as int) <= u128::MAX as int) by (nonlinear_arith)
                requires
                    dims.0 as int <= u64::MAX as int,
                    dims.1 as int <= u64::MAX as int,
            ;
        }
        if (dims.0 as u128) * (dims.1 as u128) > MAX_SITES as u128 {
            return Err(IsingError::InvalidDims);
        }
        let spins = Self::init_spins(&init_type, dims);
        Ok(
            Lattice2d {
                dims,
                n_sites: dims.0 * dims.1,
                spins,
                update_rule,
                spin_type,
                init_type,
                couplings,
            },
        )
    }

    /// Reads the spin at site (`idx0`, `idx1`).
    pub fn get_spin(&self, idx0: usize, idx1: usize) -> (r: i32)
        requires
            self.wf(),
            idx0 < self.dims.0,
            idx1 < self.dims.1,
        ensures
            r as int == self.spin_at(idx0 as int, idx1 as int),
            spin_value_ok(r),
    {
        proof {
            lemma_flat_index(idx0 as int, idx1 as int, self.dims.0 as int, self.dims.1 as int);
        }
        self.spins[idx0 * self.dims.1 + idx1]
    }

    /// Sums the four toroidal neighbours of site (`idx0`, `idx1`):
    /// (idx0, idx1+1), (idx0, idx1-1), (idx0+1, idx1) and (idx0-1, idx1),
    /// all modulo the grid shape.
    pub fn neighbour_spin_sum(&self, idx0: usize, idx1: usize) -> (r: i32)
        requires
            self.wf(),
            idx0 < self.dims.0,
            idx1 < self.dims.1,
        ensures
            r as int == self.neighbour_sum(idx0 as int, idx1 as int),
            -4 <= r <= 4,
    {
        let right = self.get_spin(idx0, wrap_next(idx1, self.dims.1));
        let left = self.get_spin(idx0, wrap_prev(idx1, self.dims.1));
        let below = self.get_spin(wrap_next(idx0, self.dims.0), idx1);
        let above = self.get_spin(wrap_prev(idx0, self.dims.0), idx1);
        right + left + below + above
    }

    /// The integer content of the energy delta of flipping the spin at site
    /// (`idx0`, `idx1`): `r.0` is the site's spin times the sum of its four
    /// toroidal neighbours, and `r.1` is the site's spin itself. The
    /// physical delta is `dE = 2 * j * r.0 + h * r.1`, which the caller
    /// forms with its real-valued couplings.
    pub fn energy_delta_terms(&self, idx0: usize, idx1: usize) -> (r: (i32, i32))
        requires
            self.wf(),
            idx0 < self.dims.0,
            idx1 < self.dims.1,
        ensures
            r.0 as int == self.spin_at(idx0 as int, idx1 as int) * self.neighbour_sum(
                idx0 as int,
                idx1 as int,
            ),
            r.1 as int == self.spin_at(idx0 as int, idx1 as int),
            -4 <= r.0 <= 4,
            spin_value_ok(r.1),
    {
        let s = self.get_spin(idx0, idx1);
        let m = self.neighbour_spin_sum(idx0, idx1);
        let prod: i32 = if s == 1 {
            m
        } else {
            0 - m
        };
        (prod, s)
    }

    /// Repopulates `spins` in place as `init_type` dictates, leaving every
    /// other field unchanged. With `AllUp` the outcome is the all-ones grid,
    /// deterministically; with `Random` a fresh independent configuration.
    pub fn reset_spins(&mut self)
        requires
            old(self).wf(),
        ensures
            final(self).wf(),
            final(self).same_recipe(*old(self)),
            old(self).init_type is AllUp ==> final(self).all_up(),
    {
        let spins = Self::init_spins(&self.init_type, self.dims);
        self.spins = spins;
    }

    /// Performs one Metropolis trial flip: pick a site uniformly at random,
    /// and flip it with the acceptance probability its flip class carries
    /// (certainly when the flip does not raise the energy). Reports
    /// `UnsupportedUpdateRule` — and changes nothing — when the Glauber rule
    /// was requested, since only Metropolis is implemented.
    pub fn update(&mut self) -> (r: Result<(), IsingError>)
        requires
            old(self).wf(),
        ensures
            final(self).wf(),
            final(self).same_recipe(*old(self)),
            r is Err <==> old(self).update_rule is Glauber,
            r is Err ==> r == Err::<(), IsingError>(IsingError::UnsupportedUpdateRule)
                && *final(self) == *old(self),
            one_flip_step(old(self).spins@, final(self).spins@),
            old(self).update_rule is Metropolis && accepts_always(old(self).couplings)
                ==> one_flip_made(old(self).spins@, final(self).spins@),
            old(self).update_rule is Metropolis && final(self).spins@ == old(self).spins@
                ==> exists|k: int|
                0 <= k < old(self).spins@.len() && flip_rejectable_at(
                    *old(self),
                    old(self).spins@,
                    k,
                ),
    {
        match self.update_rule {
            UpdateRule::Glauber => Err(IsingError::UnsupportedUpdateRule),
            UpdateRule::Metropolis => {
                let idx0 = (random_u64() % (self.dims.0 as u64)) as usize;
                let idx1 = (random_u64() % (self.dims.1 as u64)) as usize;
                let s = self.get_spin(idx0, idx1);
                let m = self.neighbour_spin_sum(idx0, idx1);
                let class = flip_class_index(s, m);
                proof {
                    lemma_flat_index(
                        idx0 as int,
                        idx1 as int,
                        self.dims.0 as int,
                        self.dims.1 as int,
                    );
                    lemma_flat_of_coords(
                        idx0 as int,
                        idx1 as int,
                        self.dims.0 as int,
                        self.dims.1 as int,
                    );
                }
                let ghost drawn = idx0 as int * self.dims.1 as int + idx1 as int;
                let accept = match self.couplings.accept[class] {
                    AcceptProb::Always => true,
                    AcceptProb::Chance(threshold) => random_u64() < threshold,
                };
                if accept {
                    let k = idx0 * self.dims.1 + idx1;
                    self.spins.set(k, 0 - s);
                    proof {
                        let a = old(self).spins@;
                        assert(self.spins@ == a.update(k as int, flipped(a[k as int])));
                        // The negated site makes the new grid differ from
                        // the old one, so no rejection needs explaining.
                        assert(self.spins@[k as int] != a[k as int]);
                    }
                } else {
                    proof {
                        // Only a Chance class rejects: the drawn site
                        // witnesses it.
                        assert(flip_rejectable_at(*old(self), old(self).spins@, drawn));
                    }
                }
                Ok(())
            },
        }
    }

    /// Performs `n` independent Metropolis trials in sequence — each trial
    /// re-picks a random site; this is not a full sweep, and `n == 0` leaves
    /// the lattice untouched. The final grid arises from the old one by a
    /// chain of `n` single-trial steps (`flip_trials`). Fails on the first
    /// trial (leaving the lattice unchanged) when the Glauber rule was
    /// requested and `n >= 1`.
    pub fn update_n(&mut self, n: usize) -> (r: Result<(), IsingError>)
        requires
            old(self).wf(),
        ensures
            final(self).wf(),
            final(self).same_recipe(*old(self)),
            r is Err <==> (old(self).update_rule is Glauber && n >= 1),
            r is Err ==> r == Err::<(), IsingError>(IsingError::UnsupportedUpdateRule)
                && *final(self) == *old(self),
            n == 0 ==> *final(self) == *old(self),
            old(self).update_rule is Metropolis ==> flip_trials(
                *old(self),
                old(self).spins@,
                final(self).spins@,
                n as int,
            ),
    {
        let ghost l0 = *old(self);
        let mut i: usize = 0;
        while i < n
            invariant
                i <= n,
                self.wf(),
                l0 == *old(self),
                self.same_recipe(*old(self)),
                i == 0 ==> *self == *old(self),
                old(self).update_rule is Glauber ==> (i == 0 && *self == *old(self)),
                old(self).update_rule is Metropolis ==> flip_trials(
                    l0,
                    l0.spins@,
                    self.spins@,
                    i as int,
                ),
            decreases n - i,
        {
            let ghost prev = self.spins@;
            match self.update() {
                Ok(()) => {},
                Err(e) => {
                    return Err(e);
                },
            }
            proof {
                if l0.update_rule is Metropolis {
                    if accepts_always(l0.couplings) {
                        assert(one_flip_made(prev, self.spins@));
                    } else {
                        assert(one_flip_step(prev, self.spins@));
                    }
                    assert(flip_trials(l0, l0.spins@, prev, i as int));
                    assert(flip_trials(l0, l0.spins@, self.spins@, i as int + 1));
                }
            }
            i = i + 1;
        }
        Ok(())
    }

    /// Constructs a fresh lattice from this lattice's recipe: same
    /// dimensions, update rule, spin type, initial condition and couplings,
    /// with the spin grid freshly (re-)initialized per `init_type`.
    ///
    /// Deliberately NOT a snapshot: the current spin configuration is not
    /// copied. Duplication means "same recipe, independent instance", which
    /// is what parallel sampling needs — every duplicate starts its run from
    /// a fresh initialization, exactly as a serial run does after a reset.
    pub fn duplicate(&self) -> (r: Lattice2d)
        requires
            self.wf(),
        ensures
            r.wf(),
            r.same_recipe(*self),
            self.init_type is AllUp ==> r.all_up(),
    {
        match Self::new(self.dims, self.update_rule, self.spin_type, self.init_type,
            self.couplings) {
            Ok(l) => l,
            // `wf` guarantees the dimensions this recipe was built with are
            // valid, so reconstruction cannot fail.
            Err(_) => vstd::pervasive::unreached(),
        }
    }

    /// Decides the lattice's invariant at run time: positive dimensions, a
    /// consistent site count, and a grid whose every entry is -1 or +1. A
    /// `false` answer means the state is corrupt (a defect, not a valid
    /// configuration).
    pub fn is_well_formed(&self) -> (r: bool)
        ensures
            r == self.wf(),
    {
        if self.dims.0 == 0 || self.dims.1 == 0 {
            return false;
        }
        proof {
            assert((self.dims.0 as int) * (self.dims.1 as int) <= u128::MAX as int)
                by (nonlinear_arith)
                requires
                    self.dims.0 as int <= u64::MAX as int,
                    self.dims.1 as int <= u64::MAX as int,
            ;
        }
        if (self.dims.0 as u128) * (self.dims.1 as u128) != self.n_sites as u128 {
            return false;
        }
        if self.n_sites > MAX_SITES {
            return false;
        }
        if self.spins.len() != self.n_sites {
            return false;
        }
        let mut i: usize = 0;
        while i < self.spins.len()
            invariant
                i <= self.spins@.len(),
                forall|k: int| 0 <= k < i ==> spin_value_ok(#[trigger] self.spins@[k]),
            decreases self.spins@.len() - i,
        {
            let s = self.spins[i];
            if s != 1 && s != -1 {
                return false;
            }
            i = i + 1;
        }
        true
    }
}

/// How one spin is drawn in a terminal rendering: '#' for up, ' ' for down.
pub open spec fn render_cell(s: i32) -> char {
    if s == 1i32 {
        '#'
    } else {
        ' '
    }
}

/// The characters of one rendered grid row: a '|', the cells of row `r`,
/// then a '|' and a newline.
pub open spec fn render_row_chars(g: Seq<i32>, cols: int, r: int) -> Seq<char> {
    seq!['|'] + Seq::new(cols as nat, |c: int| render_cell(g[r * cols + c])) + seq!['|', '\n']
}

/// The characters of the first `r_end` rendered grid rows, in order.
pub open spec fn render_rows_chars(g: Seq<i32>, cols: int, r_end: int) -> Seq<char>
    decreases r_end,
{
    if r_end <= 0 {
        Seq::empty()
    } else {
        render_rows_chars(g, cols, r_end - 1) + render_row_chars(g, cols, r_end - 1)
    }
}

impl Lattice2d {
    /// The full terminal rendering of this lattice: a dashed top border, one
    /// '|'-delimited line per grid row with '#' for spin up and ' ' for spin
    /// down, and a dashed bottom border.
    pub open spec fn render_spec(self) -> Seq<char> {
        "----------------\n"@ + render_rows_chars(self.spins@, self.dims.1 as int,
            self.dims.0 as int) + "---------------------"@
    }

    /// Renders the lattice for terminal display: `render_spec` as a
    /// `String`. Printing it is left to the caller.
    pub fn render_terminal(&self) -> (r: String)
        requires
            self.wf(),
        ensures
            r@ == self.render_spec(),
    {
        let ghost g = self.spins@;
        let ghost cols_i = self.dims.1 as int;
        let ghost top = "----------------\n"@;
        let mut out = <String as vstd::string::StringExecFns>::from_str("----------------\n");
        proof {
            assert(out@ =~= top + render_rows_chars(g, cols_i, 0));
        }
        let mut row: usize = 0;
        while row < self.dims.0
            invariant
                self.wf(),
                g == self.spins@,
                cols_i == self.dims.1 as int,
                top == "----------------\n"@,
                row <= self.dims.0,
                out@ == top + render_rows_chars(g, cols_i, row as int),
            decreases self.dims.0 - row,
        {
            let ghost row_start = out@;
            out.append("|");
            proof {
                reveal_strlit("|");
                assert(out@ =~= row_start + seq!['|'] + Seq::new(
                    0 as nat,
                    |c: int| render_cell(g[row as int * cols_i + c]),
                ));
            }
            let mut col: usize = 0;
            while col < self.dims.1
                invariant
                    self.wf(),
                    g == self.spins@,
                    cols_i == self.dims.1 as int,
                    row < self.dims.0,
                    col <= self.dims.1,
                    row_start == top + render_rows_chars(g, cols_i, row as int),
                    out@ == row_start + seq!['|'] + Seq::new(
                        col as nat,
                        |c: int| render_cell(g[row as int * cols_i + c]),
                    ),
                decreases self.dims.1 - col,
            {
                let s = self.get_spin(row, col);
                if s == 1 {
                    out.append("#");
                } else {
                    out.append(" ");
                }
                proof {
                    reveal_strlit("#");
                    reveal_strlit(" ");
                    let cells = |c: int| render_cell(g[row as int * cols_i + c]);
                    assert(Seq::new((col + 1) as nat, cells) =~= Seq::new(col as nat, cells).push(
                        cells(col as int),
                    ));
                    assert(out@ =~= row_start + seq!['|'] + Seq::new((col + 1) as nat, cells));
                }
                col = col + 1;
            }
            out.append("|\n");
            proof {
                reveal_strlit("|\n");
                assert(out@ =~= top + render_rows_chars(g, cols_i, row as int + 1));
            }
            row = row + 1;
        }
        out.append("---------------------");
        proof {
            assert(out@ =~= self.render_spec());
        }
        out
    }
}

/// Which entry of `Couplings::accept` governs flipping a spin `s` whose four
/// neighbours sum to `m`. This is the executable counterpart of
/// `flip_class`; callers building an acceptance table use it to place each
/// entry.
pub fn flip_class_index(s: i32, m: i32) -> (k: usize)
    requires
        spin_value_ok(s),
        -4 <= m <= 4,
    ensures
        k < FLIP_CLASSES,
        k as int == flip_class(s as int, m as int),
{
    let base: usize = if s == 1 {
        5
    } else {
        0
    };
    let offset: usize = ((m + 4) as usize) / 2;
    base + offset
}

/// Law: resetting with `AllUp` is deterministic — two equally sized lattices
/// that have both just been (re-)initialized all-up hold identical grids, so
/// two resets in a row produce the same configuration both times.
pub proof fn lemma_all_up_reset_identical(a: Lattice2d, b: Lattice2d)
    requires
        a.wf(),
        b.wf(),
        a.n_sites == b.n_sites,
        a.all_up(),
        b.all_up(),
    ensures
        a.spins@ == b.spins@,
{
    assert(a.spins@ =~= b.spins@);
}

} // verus!
