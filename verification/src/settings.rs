//! Integer settings of the numerical engines and of multi-asset
//! contracts, checked before anything is priced.

use vstd::prelude::*;
use crate::error::{invalid_input, is_invalid_input, RustyQLibError};

verus! {

/// The decimal digit character for `d` (0 to 9).
pub open spec fn digit_char(d: nat) -> char {
    (48 + d) as char
}

/// The decimal representation of `n`, without leading zeros.
pub open spec fn decimal(n: nat) -> Seq<char>
    decreases n,
{
    if n < 10 {
        seq![digit_char(n)]
    } else {
        decimal(n / 10).push(digit_char(n % 10))
    }
}

/// Calls `usize::to_string`: the decimal representation of `n`.
#[verifier::external_body]
pub(crate) fn usize_text(n: usize) -> (r: String)
    ensures
        r@ == decimal(n as nat),
{
    n.to_string()
}

/// The reason a binomial tree with too few steps is refused.
pub open spec fn tree_steps_reason(steps: nat) -> Seq<char> {
    "the binomial tree needs at least 2 steps, got "@ + decimal(steps)
}

/// The reason a finite-difference grid that is too coarse is refused.
pub open spec fn fd_grid_reason(spot_steps: nat, time_steps: nat) -> Seq<char> {
    "the FD grid needs at least 3 spot steps and 1 time step, got "@ + decimal(spot_steps) + " x "@
        + decimal(time_steps)
}

/// What checking the numerical settings gives.
pub open spec fn numerical_outcome(paths: usize, mc_time_steps: usize, tree_steps: usize, fd_spot_steps: usize, fd_time_steps: usize, r: Result<(), RustyQLibError>) -> bool {
    &&& paths == 0 ==> r is Err && is_invalid_input(
        r->Err_0,
        "paths"@,
        "Monte Carlo needs at least one path"@,
    )
    &&& paths > 0 && mc_time_steps == 0 ==> r is Err && is_invalid_input(
        r->Err_0,
        "mc_time_steps"@,
        "Monte Carlo needs at least one time step"@,
    )
    &&& paths > 0 && mc_time_steps > 0 && tree_steps < 2 ==> r is Err && is_invalid_input(
        r->Err_0,
        "tree_steps"@,
        tree_steps_reason(tree_steps as nat),
    )
    &&& paths > 0 && mc_time_steps > 0 && tree_steps >= 2 && (fd_spot_steps < 3 || fd_time_steps < 1)
        ==> r is Err && is_invalid_input(
        r->Err_0,
        "fd_grid"@,
        fd_grid_reason(fd_spot_steps as nat, fd_time_steps as nat),
    )
    &&& r is Ok <==> paths > 0 && mc_time_steps > 0 && tree_steps >= 2 && fd_spot_steps >= 3
        && fd_time_steps >= 1
}

/// The numerical settings of the engines, checked in this order: at
/// least one Monte Carlo path and one Monte Carlo time step, at least 2
/// tree steps, and a finite-difference grid of at least 3 spot steps and
/// 1 time step.
pub fn check_numerical_settings(
    paths: usize,
    mc_time_steps: usize,
    tree_steps: usize,
    fd_spot_steps: usize,
    fd_time_steps: usize,
) -> (r: Result<(), RustyQLibError>)
    ensures
        numerical_outcome(paths, mc_time_steps, tree_steps, fd_spot_steps, fd_time_steps, r),
{
    if paths == 0 {
        return Err(invalid_input("paths", String::from_str("Monte Carlo needs at least one path")));
    }
    if mc_time_steps == 0 {
        return Err(
            invalid_input("mc_time_steps", String::from_str("Monte Carlo needs at least one time step")),
        );
    }
    if tree_steps < 2 {
        let mut reason = String::from_str("the binomial tree needs at least 2 steps, got ");
        let n = usize_text(tree_steps);
        reason.append(n.as_str());
        return Err(invalid_input("tree_steps", reason));
    }
    if fd_spot_steps < 3 || fd_time_steps < 1 {
        let mut reason = String::from_str(
            "the FD grid needs at least 3 spot steps and 1 time step, got ",
        );
        let s = usize_text(fd_spot_steps);
        let t = usize_text(fd_time_steps);
        reason.append(s.as_str());
        reason.append(" x ");
        reason.append(t.as_str());
        return Err(invalid_input("fd_grid", reason));
    }
    Ok(())
}

/// An observation-based product (autocallable, accumulator) needs at
/// least one observation.
pub fn check_observations(observations: usize) -> (r: Result<(), RustyQLibError>)
    ensures
        observations >= 1 ==> r is Ok,
        observations < 1 ==> r is Err && is_invalid_input(
            r->Err_0,
            "observations"@,
            "need at least one observation"@,
        ),
{
    if observations < 1 {
        return Err(invalid_input("observations", String::from_str("need at least one observation")));
    }
    Ok(())
}

/// The number of autocall observations a contract asks for: 4 when
/// absent, and at least 1.
pub fn autocall_observation_count(requested: Option<usize>) -> (r: usize)
    ensures
        r == (match requested {
            Some(n) => if n >= 1 { n } else { 1 },
            None => 4,
        }),
        r >= 1,
{
    match requested {
        Some(n) => if n >= 1 {
            n
        } else {
            1
        },
        None => 4,
    }
}

/// The shape of a worst-of basket, checked in this order: at least two
/// assets; as many vols and dividends as spots; an n-by-n correlation
/// matrix (`row_lengths` holds the length of each of its rows).
pub fn check_basket_shape(
    n_spots: usize,
    n_vols: usize,
    n_dividends: usize,
    row_lengths: &Vec<usize>,
) -> (r: Result<(), RustyQLibError>)
    ensures
        n_spots < 2 ==> r is Err && is_invalid_input(
            r->Err_0,
            "assets"@,
            "worst-of autocallables need at least two assets"@,
        ),
        n_spots >= 2 && (n_vols != n_spots || n_dividends != n_spots) ==> r is Err
            && is_invalid_input(
            r->Err_0,
            "assets"@,
            "spots, vols and dividends must have the same length"@,
        ),
        n_spots >= 2 && n_vols == n_spots && n_dividends == n_spots && !(row_lengths.len()
            == n_spots && forall|i: int| 0 <= i < row_lengths.len() ==> row_lengths@[i] == n_spots)
            ==> r is Err && is_invalid_input(
            r->Err_0,
            "correlations"@,
            "correlations must be an n x n matrix"@,
        ),
        r is Ok <==> n_spots >= 2 && n_vols == n_spots && n_dividends == n_spots
            && row_lengths.len() == n_spots && forall|i: int|
            0 <= i < row_lengths.len() ==> row_lengths@[i] == n_spots,
{
    if n_spots < 2 {
        return Err(
            invalid_input("assets", String::from_str("worst-of autocallables need at least two assets")),
        );
    }
    if n_vols != n_spots || n_dividends != n_spots {
        return Err(
            invalid_input(
                "assets",
                String::from_str("spots, vols and dividends must have the same length"),
            ),
        );
    }
    let mut square = row_lengths.len() == n_spots;
    let mut i: usize = 0;
    while i < row_lengths.len()
        invariant
            i <= row_lengths.len(),
            square == (row_lengths.len() == n_spots && forall|j: int|
                0 <= j < i ==> row_lengths@[j] == n_spots),
        decreases row_lengths.len() - i,
    {
        if row_lengths[i] != n_spots {
            square = false;
        }
        i = i + 1;
    }
    if !square {
        return Err(
            invalid_input("correlations", String::from_str("correlations must be an n x n matrix")),
        );
    }
    Ok(())
}

} // verus!
