//! Measurement of quantities that can be read off the lattice
//! instantaneously (no averaging over samples): the spin sum, the circular
//! neighbour convolution, and the dot product of every spin with the sum of
//! its neighbours.
//!
//! The real-valued observables derive from these integers: the mean spin is
//! `spin_sum / n_sites`, the total energy is
//! `E = -j * dot_spin_neighbours - h * spin_sum`, and the energy per spin is
//! `E / n_sites`. Forming them is left to the caller, who owns the
//! real-valued couplings.

use vstd::prelude::*;

use crate::lattice2d::{
    lemma_flat_index, lemma_flat_of_coords, neighbour_sum_at, neighbour_sum_flat, spin_value_ok,
    wrap_dec, wrap_inc, wrap_next, wrap_prev, Lattice2d, MAX_SITES,
};

verus! {

/// The largest magnitude a grid entry may have if the four-neighbour
/// convolution is to stay within `i32`.
pub const MAX_CONV_ENTRY: i32 = 0x1FFF_FFFF;

/// The sum of the first `k` entries of the grid `g`.
pub open spec fn spin_sum_prefix(g: Seq<i32>, k: int) -> int
    decreases k,
{
    if k <= 0 {
        0
    } else {
        spin_sum_prefix(g, k - 1) + g[k - 1]
    }
}

/// The sum of all entries of the grid `g`.
pub open spec fn spin_sum_seq(g: Seq<i32>) -> int {
    spin_sum_prefix(g, g.len() as int)
}

/// The sum, over the first `k` sites of the `rows` x `cols` grid `g`, of the
/// site's spin times the sum of its four toroidal neighbours.
pub open spec fn dot_prefix(g: Seq<i32>, rows: int, cols: int, k: int) -> int
    decreases k,
{
    if k <= 0 {
        0
    } else {
        dot_prefix(g, rows, cols, k - 1) + g[k - 1] * neighbour_sum_flat(g, rows, cols, k - 1)
    }
}

/// The dot product of every spin with the sum of its four toroidal
/// neighbours, summed over the whole grid: the sum over all ordered
/// (site, neighbour) pairs of `s_i * s_j`.
pub open spec fn dot_spin_neighbours_seq(g: Seq<i32>, rows: int, cols: int) -> int {
    dot_prefix(g, rows, cols, rows * cols)
}

/// The four toroidal neighbours of an in-range site of a valid spin grid sum
/// to something in [-4, 4], and — four odd values — to an even number.
pub proof fn lemma_neighbour_sum_bound(g: Seq<i32>, rows: int, cols: int, r: int, c: int)
    requires
        1 <= rows,
        1 <= cols,
        g.len() == rows * cols,
        forall|i: int| 0 <= i < g.len() ==> spin_value_ok(#[trigger] g[i]),
        0 <= r < rows,
        0 <= c < cols,
    ensures
        -4 <= neighbour_sum_at(g, rows, cols, r, c) <= 4,
        neighbour_sum_at(g, rows, cols, r, c) % 2 == 0,
{
    lemma_flat_index(r, wrap_inc(c, cols), rows, cols);
    lemma_flat_index(r, wrap_dec(c, cols), rows, cols);
    lemma_flat_index(wrap_inc(r, rows), c, rows, cols);
    lemma_flat_index(wrap_dec(r, rows), c, rows, cols);
}

impl Lattice2d {
    /// The sum of all spin values in the lattice (in [-n_sites, n_sites]).
    pub fn get_spin_sum(&self) -> (r: i64)
        requires
            self.wf(),
        ensures
            r as int == spin_sum_seq(self.spins@),
            -(self.n_sites as int) <= r as int <= self.n_sites as int,
    {
        let n = self.spins.len();
        let mut acc: i64 = 0;
        let mut i: usize = 0;
        while i < n
            invariant
                self.wf(),
                n == self.spins@.len(),
                i <= n,
                acc as int == spin_sum_prefix(self.spins@, i as int),
                -(i as int) <= acc as int <= i as int,
            decreases n - i,
        {
            acc = acc + (self.spins[i] as i64);
            i = i + 1;
        }
        acc
    }

    /// Convolves the row-major `rows` x `cols` grid `mat` with the
    /// four-neighbour filter
    ///
    /// ```text
    /// 0 1 0
    /// 1 0 1
    /// 0 1 0
    /// ```
    ///
    /// under periodic (circular) boundary conditions: entry (r, c) of the
    /// result is the sum of the four toroidal neighbours of (r, c) in `mat`.
    /// Edge and corner entries wrap around to the opposite edge.
    pub fn _convolve_2d_circ_neighbours(mat: &Vec<i32>, rows: usize, cols: usize) -> (out: Vec<
        i32,
    >)
        requires
            1 <= rows,
            1 <= cols,
            rows * cols <= MAX_SITES,
            mat@.len() == rows * cols,
            forall|i: int|
                0 <= i < mat@.len() ==> -MAX_CONV_ENTRY <= #[trigger] mat@[i] <= MAX_CONV_ENTRY,
        ensures
            out@.len() == mat@.len(),
            forall|k: int|
                0 <= k < out@.len() ==> (#[trigger] out@[k]) as int == neighbour_sum_flat(
                    mat@,
                    rows as int,
                    cols as int,
                    k,
                ),
    {
        let mut out: Vec<i32> = Vec::new();
        let mut r: usize = 0;
        while r < rows
            invariant
                r <= rows,
                1 <= rows,
                1 <= cols,
                rows * cols <= MAX_SITES,
                mat@.len() == rows * cols,
                forall|i: int|
                    0 <= i < mat@.len() ==> -MAX_CONV_ENTRY <= #[trigger] mat@[i]
                        <= MAX_CONV_ENTRY,
                out@.len() == r * cols,
                forall|k: int|
                    0 <= k < out@.len() ==> (#[trigger] out@[k]) as int == neighbour_sum_flat(
                        mat@,
                        rows as int,
                        cols as int,
                        k,
                    ),
            decreases rows - r,
        {
            let mut c: usize = 0;
            while c < cols
                invariant
                    r < rows,
                    c <= cols,
                    1 <= rows,
                    1 <= cols,
                    rows * cols <= MAX_SITES,
                    mat@.len() == rows * cols,
                    forall|i: int|
                        0 <= i < mat@.len() ==> -MAX_CONV_ENTRY <= #[trigger] mat@[i]
                            <= MAX_CONV_ENTRY,
                    out@.len() == r * cols + c,
                    forall|k: int|
                        0 <= k < out@.len() ==> (#[trigger] out@[k]) as int == neighbour_sum_flat(
                            mat@,
                            rows as int,
                            cols as int,
                            k,
                        ),
                decreases cols - c,
            {
                let c_next = wrap_next(c, cols);
                let c_prev = wrap_prev(c, cols);
                let r_next = wrap_next(r, rows);
                let r_prev = wrap_prev(r, rows);
                proof {
                    lemma_flat_index(r as int, c_next as int, rows as int, cols as int);
                    lemma_flat_index(r as int, c_prev as int, rows as int, cols as int);
                    lemma_flat_index(r_next as int, c as int, rows as int, cols as int);
                    lemma_flat_index(r_prev as int, c as int, rows as int, cols as int);
                    lemma_flat_of_coords(r as int, c as int, rows as int, cols as int);
                }
                let v: i32 = mat[r * cols + c_next] + mat[r * cols + c_prev] + mat[r_next * cols
                    + c] + mat[r_prev * cols + c];
                out.push(v);
                proof {
                    assert(out@.len() == r * cols + c + 1);
                    assert((out@[r * cols + c]) as int == neighbour_sum_at(
                        mat@,
                        rows as int,
                        cols as int,
                        r as int,
                        c as int,
                    ));
                }
                c = c + 1;
            }
            proof {
                assert(r * cols + cols == (r + 1) * cols) by (nonlinear_arith);
            }
            r = r + 1;
        }
        out
    }

    /// The dot product of each spin with the sum of its four toroidal
    /// neighbours, summed over the lattice (in [-4 n_sites, 4 n_sites]).
    pub fn get_dot_spin_neighbours(&self) -> (r: i64)
        requires
            self.wf(),
        ensures
            r as int == dot_spin_neighbours_seq(
                self.spins@,
                self.dims.0 as int,
                self.dims.1 as int,
            ),
            -4 * (self.n_sites as int) <= r as int <= 4 * (self.n_sites as int),
            r as int % 2 == 0,
    {
        let rows = self.dims.0;
        let cols = self.dims.1;
        let neighbours = Self::_convolve_2d_circ_neighbours(&self.spins, rows, cols);
        let n = self.spins.len();
        let mut acc: i64 = 0;
        let mut k: usize = 0;
        while k < n
            invariant
                self.wf(),
                rows == self.dims.0,
                cols == self.dims.1,
                n == self.spins@.len(),
                k <= n,
                neighbours@.len() == n,
                forall|t: int|
                    0 <= t < n ==> (#[trigger] neighbours@[t]) as int == neighbour_sum_flat(
                        self.spins@,
                        rows as int,
                        cols as int,
                        t,
                    ),
                acc as int == dot_prefix(self.spins@, rows as int, cols as int, k as int),
                -4 * (k as int) <= acc as int <= 4 * (k as int),
                acc as int % 2 == 0,
            decreases n - k,
        {
            let s = self.spins[k];
            let v = neighbours[k];
            proof {
                crate::lattice2d::lemma_flat_coords(k as int, rows as int, cols as int);
                lemma_neighbour_sum_bound(
                    self.spins@,
                    rows as int,
                    cols as int,
                    k as int / cols as int,
                    k as int % cols as int,
                );
            }
            let term: i32 = if s == 1 {
                v
            } else {
                0 - v
            };
            proof {
                let g = self.spins@;
                let ki = k as int;
                let nsf = neighbour_sum_flat(g, rows as int, cols as int, ki);
                assert(s == g[ki]);
                if s == 1 {
                    assert(term as int == 1 * nsf);
                } else {
                    assert(term as int == (-1) * nsf);
                }
                assert(term as int == g[ki] * nsf);
                assert(dot_prefix(g, rows as int, cols as int, ki + 1) == dot_prefix(
                    g,
                    rows as int,
                    cols as int,
                    ki,
                ) + g[ki] * nsf);
            }
            acc = acc + (term as i64);
            k = k + 1;
        }
        acc
    }
}

/// Sum of a prefix of an all-ones grid.
proof fn lemma_ones_sum_prefix(g: Seq<i32>, k: int)
    requires
        0 <= k <= g.len(),
        forall|i: int| 0 <= i < g.len() ==> #[trigger] g[i] == 1i32,
    ensures
        spin_sum_prefix(g, k) == k,
    decreases k,
{
    if k > 0 {
        lemma_ones_sum_prefix(g, k - 1);
    }
}

/// Law: `AllUp` initialization makes the spin sum equal the number of sites
/// — every one of the `n_sites` spins contributes +1.
pub proof fn lemma_all_up_spin_sum(l: Lattice2d)
    requires
        l.wf(),
        l.all_up(),
    ensures
        spin_sum_seq(l.spins@) == l.n_sites,
{
    lemma_ones_sum_prefix(l.spins@, l.spins@.len() as int);
}

/// Neighbour dot product of a prefix of an all-ones grid: each site
/// contributes 1 * 4.
proof fn lemma_ones_dot_prefix(g: Seq<i32>, rows: int, cols: int, k: int)
    requires
        1 <= rows,
        1 <= cols,
        g.len() == rows * cols,
        forall|i: int| 0 <= i < g.len() ==> #[trigger] g[i] == 1i32,
        0 <= k <= rows * cols,
    ensures
        dot_prefix(g, rows, cols, k) == 4 * k,
    decreases k,
{
    if k > 0 {
        lemma_ones_dot_prefix(g, rows, cols, k - 1);
        crate::lattice2d::lemma_flat_coords(k - 1, rows, cols);
        let r = (k - 1) / cols;
        let c = (k - 1) % cols;
        lemma_flat_index(r, wrap_inc(c, cols), rows, cols);
        lemma_flat_index(r, wrap_dec(c, cols), rows, cols);
        lemma_flat_index(wrap_inc(r, rows), c, rows, cols);
        lemma_flat_index(wrap_dec(r, rows), c, rows, cols);
        assert(neighbour_sum_flat(g, rows, cols, k - 1) == 4);
    }
}

/// Law: in an all-up lattice every site dots its +1 spin against four +1
/// neighbours, so the neighbour dot product equals 4 * n_sites.
pub proof fn lemma_all_up_dot_neighbours(l: Lattice2d)
    requires
        l.wf(),
        l.all_up(),
    ensures
        dot_spin_neighbours_seq(l.spins@, l.dims.0 as int, l.dims.1 as int) == 4 * l.n_sites,
{
    lemma_ones_dot_prefix(l.spins@, l.dims.0 as int, l.dims.1 as int, l.n_sites as int);
}

} // verus!
