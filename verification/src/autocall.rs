//! The event logic of autocallable notes along one path: on which
//! observation the note is called, and how many coupons each observation
//! pays. The prices at the observations enter only as the outcomes of the
//! barrier tests (at or above the autocall barrier, at or above the coupon
//! barrier), which the path valuation computes and this logic reads.

use vstd::prelude::*;

verus! {

/// Observation `m` is the first whose spot is at or above the autocall
/// barrier.
pub open spec fn is_first_call(call_hits: Seq<bool>, m: int) -> bool {
    0 <= m < call_hits.len() && call_hits[m] && forall|j: int| 0 <= j < m ==> !call_hits[j]
}

/// The observation on which the note is called, if any: the first at or
/// above the autocall barrier.
pub fn first_call(call_hits: &Vec<bool>) -> (r: Option<usize>)
    ensures
        match r {
            Some(m) => is_first_call(call_hits@, m as int),
            None => forall|j: int| 0 <= j < call_hits.len() ==> !call_hits@[j],
        },
{
    let mut m: usize = 0;
    while m < call_hits.len()
        invariant
            m <= call_hits.len(),
            forall|j: int| 0 <= j < m ==> !call_hits@[j],
        decreases call_hits.len() - m,
    {
        if call_hits[m] {
            return Some(m);
        }
        m = m + 1;
    }
    None
}

/// Consecutive observations below the coupon barrier just before `m`.
pub open spec fn missed_before(hits: Seq<bool>, m: int) -> nat
    decreases m,
{
    if m <= 0 {
        0
    } else if hits[m - 1] {
        0
    } else {
        missed_before(hits, m - 1) + 1
    }
}

/// Coupons paid on observation `m` of a Phoenix: one when the spot is at
/// or above the coupon barrier, plus, with memory, every coupon missed
/// since the last one paid; none otherwise.
pub open spec fn coupon_units(hits: Seq<bool>, memory: bool, m: int) -> nat {
    if hits[m] {
        if memory {
            1 + missed_before(hits, m)
        } else {
            1
        }
    } else {
        0
    }
}

/// Coupons paid on observations `0..=m`.
pub open spec fn coupons_through(hits: Seq<bool>, memory: bool, m: int) -> nat
    decreases m + 1,
{
    if m < 0 {
        0
    } else {
        coupons_through(hits, memory, m - 1) + coupon_units(hits, memory, m)
    }
}

/// The coupon units a Phoenix pays on each observation it lives to see,
/// and the observation on which it is called (the coupon of the call
/// observation is paid with the redemption).
pub fn phoenix_coupons(coupon_hits: &Vec<bool>, call_hits: &Vec<bool>, memory: bool) -> (r: (
    Vec<usize>,
    Option<usize>,
))
    requires
        coupon_hits.len() == call_hits.len(),
    ensures
        match r.1 {
            Some(m) => is_first_call(call_hits@, m as int) && r.0.len() == m + 1,
            None => (forall|j: int| 0 <= j < call_hits.len() ==> !call_hits@[j]) && r.0.len()
                == coupon_hits.len(),
        },
        forall|j: int| 0 <= j < r.0.len() ==> r.0@[j] == coupon_units(coupon_hits@, memory, j),
{
    let mut units: Vec<usize> = Vec::new();
    let mut missed: usize = 0;
    let mut m: usize = 0;
    while m < coupon_hits.len()
        invariant
            m <= coupon_hits.len(),
            coupon_hits.len() == call_hits.len(),
            units.len() == m,
            missed == missed_before(coupon_hits@, m as int),
            missed <= m,
            forall|j: int| 0 <= j < m ==> !call_hits@[j],
            forall|j: int| 0 <= j < m ==> units@[j] == coupon_units(coupon_hits@, memory, j),
        decreases coupon_hits.len() - m,
    {
        let u = if coupon_hits[m] {
            if memory {
                1 + missed
            } else {
                1
            }
        } else {
            0
        };
        if coupon_hits[m] {
            missed = 0;
        } else {
            missed = missed + 1;
        }
        units.push(u);
        if call_hits[m] {
            return (units, Some(m));
        }
        m = m + 1;
    }
    (units, None)
}

/// With memory, a Phoenix that pays on observation `m` has then paid one
/// coupon per observation so far: every missed coupon is recovered.
pub proof fn lemma_memory_recovers_missed_coupons(hits: Seq<bool>, m: int)
    requires
        0 <= m < hits.len(),
        hits[m],
    ensures
        coupons_through(hits, true, m) == m + 1,
    decreases m,
{
    lemma_coupons_since_last_hit(hits, m - 1);
    let k = missed_before(hits, m);
    if k < m {
        lemma_memory_recovers_missed_coupons(hits, m - 1 - k);
    }
}

/// Between the last observation paid and `m`, nothing is paid: the
/// coupons through `m` are those through the last paid observation.
proof fn lemma_coupons_since_last_hit(hits: Seq<bool>, m: int)
    requires
        -1 <= m < hits.len(),
    ensures
        0 <= m + 1 - missed_before(hits, m + 1),
        coupons_through(hits, true, m) == coupons_through(hits, true, m - missed_before(hits, m + 1)),
        m - missed_before(hits, m + 1) >= 0 ==> hits[m - missed_before(hits, m + 1)],
    decreases m + 1,
{
    if m >= 0 && !hits[m] {
        lemma_coupons_since_last_hit(hits, m - 1);
    }
}

/// Without memory, a Phoenix pays one coupon per observation at or above
/// the coupon barrier, never more.
pub proof fn lemma_coupons_without_memory(hits: Seq<bool>, m: int)
    requires
        0 <= m < hits.len(),
    ensures
        coupons_through(hits, false, m) <= m + 1,
        coupons_through(hits, false, m) == coupons_through(hits, false, m - 1) + (if hits[m] {
            1nat
        } else {
            0nat
        }),
    decreases m,
{
    assert(coupons_through(hits, false, -1) == 0);
    if m > 0 {
        lemma_coupons_without_memory(hits, m - 1);
    }
}

/// The call observation is unique: on one path a Phoenix and an Athena
/// note (whatever their coupon barrier) are called on the same
/// observation.
pub proof fn lemma_call_observation_unique(call_hits: Seq<bool>, a: int, b: int)
    requires
        is_first_call(call_hits, a),
        is_first_call(call_hits, b),
    ensures
        a == b,
{
}

/// Memory never pays less: through every observation, a Phoenix with
/// memory has paid at least the coupons of the same note without it.
pub proof fn lemma_memory_pays_at_least(hits: Seq<bool>, m: int)
    requires
        m < hits.len(),
    ensures
        coupons_through(hits, false, m) <= coupons_through(hits, true, m),
    decreases m + 1,
{
    if m >= 0 {
        lemma_memory_pays_at_least(hits, m - 1);
    }
}

} // verus!
