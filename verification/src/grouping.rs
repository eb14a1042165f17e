//! Grouping of quote indices by maturity, preserving first-seen order:
//! the shape the calibration objectives iterate over, so that each
//! expiry costs one characteristic-function sweep whatever the number of
//! strikes quoted on it. A maturity is identified by an integer key (the
//! pricing code keys each year fraction by its exact bit pattern).

use vstd::prelude::*;

verus! {

/// `s` is strictly increasing.
pub open spec fn strictly_increasing(s: Seq<usize>) -> bool {
    forall|a: int, b: int| 0 <= a < b < s.len() ==> s[a] < s[b]
}

/// Some group of `groups` is headed by `k`.
pub open spec fn has_group(groups: Seq<(u64, Seq<usize>)>, k: u64) -> bool {
    exists|j: int| 0 <= j < groups.len() && #[trigger] groups[j].0 == k
}

/// `groups` is the grouping of the positions of `keys` by key, in the
/// order in which each key first occurs:
/// - each group lists, in increasing order, exactly the positions that
///   hold its key, and is not empty;
/// - no key heads two groups, and every position belongs to a group;
/// - groups are ordered by their first position.
pub open spec fn is_grouping(keys: Seq<u64>, groups: Seq<(u64, Seq<usize>)>) -> bool {
    &&& forall|j: int| 0 <= j < groups.len() ==> groups[j].1.len() > 0
    &&& forall|j: int| 0 <= j < groups.len() ==> strictly_increasing(#[trigger] groups[j].1)
    &&& forall|j: int, p: int|
        0 <= j < groups.len() && 0 <= p < groups[j].1.len() ==> (groups[j].1[p] as int)
            < keys.len()
    &&& forall|j: int, i: int|
        0 <= j < groups.len() && 0 <= i < keys.len() ==> (keys[i] == groups[j].0 <==> #[trigger] groups[j].1.contains(
        i as usize))
    &&& forall|i: int| 0 <= i < keys.len() ==> has_group(groups, #[trigger] keys[i])
    &&& forall|a: int, b: int| 0 <= a < b < groups.len() ==> groups[a].0 != groups[b].0
    &&& forall|a: int, b: int| 0 <= a < b < groups.len() ==> groups[a].1[0] < groups[b].1[0]
}

/// `v` with `x` appended, as a fresh vector.
fn appended(v: &Vec<usize>, x: usize) -> (r: Vec<usize>)
    ensures
        r@ == v@.push(x),
{
    let mut r: Vec<usize> = Vec::new();
    let mut i: usize = 0;
    while i < v.len()
        invariant
            i <= v.len(),
            r@ == v@.subrange(0, i as int),
        decreases v.len() - i,
    {
        r.push(v[i]);
        i = i + 1;
    }
    r.push(x);
    assert(v@.subrange(0, v@.len() as int) =~= v@);
    r
}

/// Group the positions of `maturities` by key, in first-seen order.
pub fn group_by_maturity(maturities: &Vec<u64>) -> (groups: Vec<(u64, Vec<usize>)>)
    ensures
        is_grouping(maturities@, groups@.map_values(|g: (u64, Vec<usize>)| (g.0, g.1@))),
{
    let mut groups: Vec<(u64, Vec<usize>)> = Vec::new();
    let mut i: usize = 0;
    while i < maturities.len()
        invariant
            i <= maturities.len(),
            is_grouping(
                maturities@.subrange(0, i as int),
                groups@.map_values(|g: (u64, Vec<usize>)| (g.0, g.1@)),
            ),
        decreases maturities.len() - i,
    {
        let ghost keys = maturities@.subrange(0, i as int);
        let ghost next = maturities@.subrange(0, i + 1);
        let ghost before = groups@.map_values(|g: (u64, Vec<usize>)| (g.0, g.1@));
        let k = maturities[i];
        assert(next =~= keys.push(k));
        let mut j: usize = 0;
        while j < groups.len()
            invariant
                j <= groups.len(),
                groups@.map_values(|g: (u64, Vec<usize>)| (g.0, g.1@)) == before,
                forall|a: int| 0 <= a < j ==> before[a].0 != k,
            ensures
                j <= groups.len(),
                groups@.map_values(|g: (u64, Vec<usize>)| (g.0, g.1@)) == before,
                forall|a: int| 0 <= a < j ==> before[a].0 != k,
                j < groups.len() ==> before[j as int].0 == k,
            decreases groups.len() - j,
        {
            if groups[j].0 == k {
                assert(before[j as int] == (groups@[j as int].0, groups@[j as int].1@));
                break;
            }
            j = j + 1;
        }
        if j < groups.len() {
            assert(before[j as int].0 == k);
            let members = appended(&groups[j].1, i);
            groups.set(j, (k, members));
            let ghost after = groups@.map_values(|g: (u64, Vec<usize>)| (g.0, g.1@));
            assert(after =~= before.update(j as int, (k, before[j as int].1.push(i))));
            assert forall|a: int, p: int| 0 <= a < after.len() && 0 <= p < next.len()
                implies (next[p] == after[a].0 <==> #[trigger] after[a].1.contains(p as usize)) by {
                if p < i {
                    assert(next[p] == keys[p]);
                    if a == j {
                        if before[a].1.contains(p as usize) {
                            let q = choose|q: int| 0 <= q < before[a].1.len() && before[a].1[q] == p as usize;
                            assert(after[a].1[q] == p as usize);
                        }
                        if after[a].1.contains(p as usize) {
                            let q = choose|q: int| 0 <= q < after[a].1.len() && after[a].1[q] == p as usize;
                            if q < before[a].1.len() {
                                assert(before[a].1[q] == p as usize);
                            }
                        }
                    }
                } else {
                    if a == j {
                        assert(after[a].1[after[a].1.len() - 1] == i);
                    } else {
                        if after[a].1.contains(p as usize) {
                            let q = choose|q: int| 0 <= q < after[a].1.len() && after[a].1[q] == p as usize;
                            assert(before[a].1[q] < i);
                        }
                    }
                }
            }
            assert forall|a: int, b: int| 0 <= a < b < after.len() implies after[a].1[0] < after[b].1[0] by {
                assert(before[a].1[0] < before[b].1[0]);
            }
            assert forall|q: int| 0 <= q < next.len() implies has_group(after, #[trigger] next[q]) by {
                if q < i {
                    let a = choose|a: int| 0 <= a < before.len() && #[trigger] before[a].0 == keys[q];
                    assert(after[a].0 == next[q]);
                } else {
                    assert(after[j as int].0 == next[q]);
                }
            }
            assert(strictly_increasing(after[j as int].1));
            assert(is_grouping(next, after));
        } else {
            let ghost fresh: Seq<usize> = seq![i];
            let members = appended(&Vec::new(), i);
            groups.push((k, members));
            let ghost after = groups@.map_values(|g: (u64, Vec<usize>)| (g.0, g.1@));
            assert(after =~= before.push((k, fresh)));
            let ghost n: int = before.len() as int;
            assert forall|p: int| 0 <= p < i implies keys[p] != k by {
                let a = choose|a: int| 0 <= a < before.len() && #[trigger] before[a].0 == keys[p];
            }
            assert forall|a: int, p: int| 0 <= a < after.len() && 0 <= p < next.len()
                implies (next[p] == after[a].0 <==> #[trigger] after[a].1.contains(p as usize)) by {
                if a == n {
                    if p < i {
                        assert(next[p] == keys[p]);
                    } else {
                        assert(after[a].1[0] == p as usize);
                    }
                } else if p == i {
                    if after[a].1.contains(p as usize) {
                        let q = choose|q: int| 0 <= q < after[a].1.len() && after[a].1[q] == p as usize;
                        assert(before[a].1[q] < i);
                    }
                } else {
                    assert(next[p] == keys[p]);
                }
            }
            assert forall|a: int, b: int| 0 <= a < b < after.len() implies after[a].1[0] < after[b].1[0] by {
                if b < n {
                    assert(before[a].1[0] < before[b].1[0]);
                } else {
                    assert(before[a].1[0] < i);
                }
            }
            assert forall|q: int| 0 <= q < next.len() implies has_group(after, #[trigger] next[q]) by {
                if q < i {
                    let a = choose|a: int| 0 <= a < before.len() && #[trigger] before[a].0 == keys[q];
                    assert(after[a].0 == next[q]);
                } else {
                    assert(after[n].0 == next[q]);
                }
            }
            assert forall|a: int, b: int| 0 <= a < b < after.len() implies after[a].0 != after[b].0 by {
                if b == n {
                    let p = before[a].1[0] as int;
                    assert(before[a].1.contains(p as usize));
                    assert(keys[p] == before[a].0);
                }
            }
            assert(is_grouping(next, after));
        }
        i = i + 1;
    }
    assert(maturities@.subrange(0, maturities@.len() as int) =~= maturities@);
    groups
}

/// A grouping partitions the positions: every position belongs to
/// exactly one group, the one headed by its key.
pub proof fn lemma_grouping_partitions(keys: Seq<u64>, groups: Seq<(u64, Seq<usize>)>, i: int)
    requires
        is_grouping(keys, groups),
        0 <= i < keys.len(),
    ensures
        exists|j: int| 0 <= j < groups.len() && groups[j].0 == keys[i] && #[trigger] groups[j].1.contains(
            i as usize,
        ),
        forall|a: int, b: int|
            0 <= a < groups.len() && 0 <= b < groups.len() && groups[a].1.contains(i as usize)
                && groups[b].1.contains(i as usize) ==> a == b,
{
    assert(has_group(groups, keys[i]));
    let j = choose|j: int| 0 <= j < groups.len() && #[trigger] groups[j].0 == keys[i];
    assert(groups[j].1.contains(i as usize));
    assert forall|a: int, b: int|
        0 <= a < groups.len() && 0 <= b < groups.len() && groups[a].1.contains(i as usize)
            && groups[b].1.contains(i as usize) implies a == b by {
        assert(groups[a].0 == keys[i]);
        assert(groups[b].0 == keys[i]);
    }
}

} // verus!
