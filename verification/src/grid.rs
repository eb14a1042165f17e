//! Integer grid arithmetic of the numerical engines: where observations
//! land on a simulation grid, how a grid is aligned with an observation
//! count, how simulated paths are split into work chunks, and the sizes
//! of the finite-difference grids.

use vstd::prelude::*;
use vstd::arithmetic::div_mod::{
    lemma_div_by_multiple, lemma_div_is_ordered, lemma_fundamental_div_mod, lemma_hoist_over_denominator,
    lemma_mod_bound,
};

verus! {

/// The grid step (0-based) of observation `m` when `n` observations are
/// spread equally over `steps` steps: the end of step `(m + 1) steps / n`.
pub open spec fn equal_index(m: int, steps: int, n: int) -> int {
    (m + 1) * steps / n - 1
}

/// Equally spaced observations on a grid of at least as many steps land
/// on strictly increasing steps, the last on the final step.
pub proof fn lemma_equal_indices_increase(steps: int, n: int)
    requires
        1 <= n <= steps,
    ensures
        forall|m: int| 0 <= m < n ==> 0 <= #[trigger] equal_index(m, steps, n) < steps,
        forall|a: int, b: int|
            0 <= a < b < n ==> #[trigger] equal_index(a, steps, n) < #[trigger] equal_index(b, steps, n),
        equal_index(n - 1, steps, n) == steps - 1,
{
    assert forall|m: int| 0 <= m < n implies 0 <= #[trigger] equal_index(m, steps, n) < steps by {
        assert((m + 1) * steps >= steps) by (nonlinear_arith)
            requires
                m >= 0,
                steps >= 0,
        ;
        assert((m + 1) * steps <= n * steps) by (nonlinear_arith)
            requires
                m + 1 <= n,
                steps >= 0,
        ;
        lemma_div_is_ordered(n, (m + 1) * steps, n);
        lemma_div_is_ordered((m + 1) * steps, n * steps, n);
        lemma_div_by_multiple(steps, n);
        assert(n * steps == steps * n) by (nonlinear_arith);
        lemma_div_by_multiple(1, n);
    }
    assert forall|a: int, b: int| 0 <= a < b < n implies #[trigger] equal_index(a, steps, n)
        < #[trigger] equal_index(b, steps, n) by {
        assert((b + 1) * steps - (a + 1) * steps == (b - a) * steps) by (nonlinear_arith);
        assert((b - a) * steps >= steps) by (nonlinear_arith)
            requires
                b - a >= 1,
                steps >= 0,
        ;
        lemma_div_is_ordered((a + 1) * steps + n, (b + 1) * steps, n);
        lemma_hoist_over_denominator((a + 1) * steps, 1, n as nat);
    }
    lemma_div_by_multiple(steps, n);
    assert(n * steps == steps * n) by (nonlinear_arith);
}

/// Grid steps (0-based) of `n_obs` equally spaced observations on a path
/// of `steps` steps.
pub fn equal_observation_indices(n_obs: usize, steps: usize) -> (r: Vec<usize>)
    requires
        1 <= n_obs <= steps,
        n_obs * steps <= usize::MAX,
    ensures
        r.len() == n_obs,
        forall|m: int| 0 <= m < n_obs ==> r@[m] == equal_index(m, steps as int, n_obs as int),
{
    proof {
        lemma_equal_indices_increase(steps as int, n_obs as int);
    }
    assert(n_obs < usize::MAX) by (nonlinear_arith)
        requires
            1 <= n_obs <= steps,
            n_obs * steps <= usize::MAX,
    {
        if n_obs == usize::MAX {
            assert(n_obs * steps >= n_obs * 2);
        }
    }
    let mut r: Vec<usize> = Vec::new();
    let mut m: usize = 1;
    while m <= n_obs
        invariant
            1 <= m <= n_obs + 1,
            1 <= n_obs <= steps,
            n_obs < usize::MAX,
            n_obs * steps <= usize::MAX,
            r.len() == m - 1,
            forall|j: int| 0 <= j < m - 1 ==> r@[j] == equal_index(j, steps as int, n_obs as int),
            forall|j: int| 0 <= j < n_obs ==> 0 <= #[trigger] equal_index(j, steps as int, n_obs as int) < steps,
        decreases n_obs + 1 - m,
    {
        assert((m as int) * (steps as int) <= (n_obs as int) * (steps as int)) by (nonlinear_arith)
            requires
                m <= n_obs,
        ;
        let q = m * steps / n_obs;
        assert(equal_index(m - 1, steps as int, n_obs as int) == q - 1);
        r.push(q - 1);
        m = m + 1;
    }
    r
}

/// The snapped grid position (1-based) of explicitly timed observation
/// `m`: its rounded position, at least 1, at least one past the previous
/// observation, and no further than the last step.
pub open spec fn snapped(raw: Seq<i64>, steps: int, m: int) -> int
    decreases m + 1,
{
    if m < 0 {
        0
    } else {
        let prev = snapped(raw, steps, m - 1);
        let lo = if raw[m] >= 1 {
            raw[m] as int
        } else {
            1
        };
        let up = if lo >= prev + 1 {
            lo
        } else {
            prev + 1
        };
        if up <= steps {
            up
        } else {
            steps
        }
    }
}

/// Snapped positions lie on the grid and never move backwards.
pub proof fn lemma_snapped_bounds(raw: Seq<i64>, steps: int, m: int)
    requires
        steps >= 1,
        0 <= m < raw.len(),
    ensures
        1 <= snapped(raw, steps, m) <= steps,
        m > 0 ==> snapped(raw, steps, m - 1) <= snapped(raw, steps, m),
        snapped(raw, steps, m) < steps ==> snapped(raw, steps, m - 1) < snapped(raw, steps, m),
    decreases m,
{
    if m > 0 {
        lemma_snapped_bounds(raw, steps, m - 1);
    }
}

/// Grid steps (0-based) of explicitly timed observations, given the
/// rounded position `raw[m]` of each observation time on a path of
/// `steps` steps.
pub fn snap_observation_indices(raw: &Vec<i64>, steps: usize) -> (r: Vec<usize>)
    requires
        1 <= steps < i64::MAX,
    ensures
        r.len() == raw.len(),
        forall|m: int| 0 <= m < raw.len() ==> r@[m] == snapped(raw@, steps as int, m) - 1,
{
    let mut r: Vec<usize> = Vec::new();
    let mut prev: i64 = 0;
    let mut m: usize = 0;
    let s = steps as i64;
    while m < raw.len()
        invariant
            m <= raw.len(),
            1 <= steps < i64::MAX,
            s == steps,
            r.len() == m,
            prev == snapped(raw@, steps as int, m - 1),
            0 <= prev <= steps,
            forall|j: int| 0 <= j < m ==> r@[j] == snapped(raw@, steps as int, j) - 1,
        decreases raw.len() - m,
    {
        proof {
            lemma_snapped_bounds(raw@, steps as int, m as int);
        }
        let mut i = if raw[m] >= 1 {
            raw[m]
        } else {
            1
        };
        if i < prev + 1 {
            i = prev + 1;
        }
        if i > s {
            i = s;
        }
        assert(i == snapped(raw@, steps as int, m as int));
        r.push((i - 1) as usize);
        prev = i;
        m = m + 1;
    }
    r
}

/// The number of simulation steps for a path-dependent payoff observed
/// `n_obs` times: at least `time_steps` and `min_steps`, rounded up to a
/// multiple of `n_obs` so that every observation lands on a step.
pub fn aligned_steps(time_steps: usize, min_steps: usize, n_obs: usize) -> (r: usize)
    requires
        n_obs >= 1,
        time_steps + n_obs <= usize::MAX,
        min_steps + n_obs <= usize::MAX,
    ensures
        r % n_obs == 0,
        time_steps <= r,
        min_steps <= r,
        r < (if time_steps >= min_steps { time_steps } else { min_steps }) + n_obs,
{
    let base = if time_steps >= min_steps {
        time_steps
    } else {
        min_steps
    };
    let q = (base + n_obs - 1) / n_obs;
    proof {
        lemma_fundamental_div_mod((base + n_obs - 1) as int, n_obs as int);
        lemma_mod_bound((base + n_obs - 1) as int, n_obs as int);
        assert(q * n_obs == n_obs * q) by (nonlinear_arith);
        lemma_div_by_multiple(q as int, n_obs as int);
        lemma_fundamental_div_mod((q * n_obs) as int, n_obs as int);
    }
    q * n_obs
}

/// Paths split into consecutive work chunks of `chunk` paths, the last
/// possibly shorter: chunk `c` covers paths `c * chunk` up to (excluding)
/// `min((c + 1) * chunk, paths)`.
pub fn chunk_ranges(paths: usize, chunk: usize) -> (r: Vec<(usize, usize)>)
    requires
        chunk >= 1,
        paths + chunk <= usize::MAX,
    ensures
        forall|c: int|
            0 <= c < r.len() ==> r@[c].0 == c * chunk && r@[c].1 == (if (c + 1) * chunk <= paths {
                (c + 1) * chunk
            } else {
                paths as int
            }),
        r.len() * chunk >= paths,
        r.len() > 0 ==> (r.len() - 1) * chunk < paths,
{
    let mut r: Vec<(usize, usize)> = Vec::new();
    let mut start: usize = 0;
    assert(r.len() * chunk == 0) by (nonlinear_arith)
        requires
            r.len() == 0,
    ;
    while start < paths
        invariant
            chunk >= 1,
            paths + chunk <= usize::MAX,
            start == r.len() * chunk,
            r.len() > 0 ==> (r.len() - 1) * chunk < paths,
            forall|c: int|
                0 <= c < r.len() ==> r@[c].0 == c * chunk && r@[c].1 == (if (c + 1) * chunk
                    <= paths {
                    (c + 1) * chunk
                } else {
                    paths as int
                }),
        decreases paths + chunk - start,
    {
        let end = if start + chunk <= paths {
            start + chunk
        } else {
            paths
        };
        let ghost n = r.len();
        proof {
            assert((n + 1) * chunk == n * chunk + chunk) by (nonlinear_arith);
        }
        r.push((start, end));
        start = start + chunk;
    }
    r
}

/// Chunks cover every path exactly once, in order: they start at path 0,
/// each ends where the next begins, none is empty or longer than
/// `chunk`, and the last ends at `paths`.
pub proof fn lemma_chunks_partition(paths: usize, chunk: usize, r: Seq<(usize, usize)>)
    requires
        chunk >= 1,
        forall|c: int|
            0 <= c < r.len() ==> r[c].0 == c * chunk && r[c].1 == (if (c + 1) * chunk <= paths {
                (c + 1) * chunk
            } else {
                paths as int
            }),
        r.len() * chunk >= paths,
        r.len() > 0 ==> (r.len() - 1) * chunk < paths,
    ensures
        r.len() > 0 ==> r[0].0 == 0 && r[r.len() - 1].1 == paths,
        forall|c: int| 0 <= c < r.len() ==> (#[trigger] r[c]).0 < r[c].1 <= r[c].0 + chunk,
        forall|c: int| 0 <= c < r.len() - 1 ==> (#[trigger] r[c]).1 == r[c + 1].0,
        r.len() == 0 <==> paths == 0,
{
    assert forall|c: int| 0 <= c < r.len() implies (#[trigger] r[c]).0 < r[c].1 <= r[c].0 + chunk by {
        assert(c * chunk <= (r.len() - 1) * chunk) by (nonlinear_arith)
            requires
                c <= r.len() - 1,
                chunk >= 1,
        ;
        assert((c + 1) * chunk == c * chunk + chunk) by (nonlinear_arith);
    }
    assert forall|c: int| 0 <= c < r.len() - 1 implies (#[trigger] r[c]).1 == r[c + 1].0 by {
        assert((c + 1) * chunk <= (r.len() - 1) * chunk) by (nonlinear_arith)
            requires
                c + 1 <= r.len() - 1,
                chunk >= 1,
        ;
    }
    if r.len() > 0 {
        assert(0 * chunk == 0);
        assert((r.len() - 1 + 1) * chunk == r.len() * chunk);
    } else {
        assert(r.len() * chunk == 0);
    }
}

/// Variance nodes of the Heston ADI grid for a given number of spot
/// steps: an eighth of them, kept between 30 and 80.
pub fn var_nodes(spot_steps: usize) -> (r: usize)
    ensures
        r == (if spot_steps / 8 < 30 {
            30
        } else if spot_steps / 8 > 80 {
            80
        } else {
            spot_steps / 8
        }),
        30 <= r <= 80,
{
    let n = spot_steps / 8;
    if n < 30 {
        30
    } else if n > 80 {
        80
    } else {
        n
    }
}

/// Finite-difference grid sizes from contract data: the requested spot
/// and time steps (400 each by default), each at least 10.
pub fn fd_steps_from_data(spot_steps: Option<usize>, time_steps: Option<usize>) -> (r: (usize, usize))
    ensures
        r.0 == (match spot_steps {
            Some(n) => if n >= 10 { n } else { 10 },
            None => 400,
        }),
        r.1 == (match time_steps {
            Some(n) => if n >= 10 { n } else { 10 },
            None => 400,
        }),
{
    let s = match spot_steps {
        Some(n) => n,
        None => 400,
    };
    let t = match time_steps {
        Some(n) => n,
        None => 400,
    };
    (if s >= 10 { s } else { 10 }, if t >= 10 { t } else { 10 })
}

} // verus!
