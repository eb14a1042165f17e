use rustyqlib::grouping::group_by_maturity;

#[test]
fn maturity_grouping_preserves_indices() {
    let maturities: Vec<u64> = [1.0f64, 0.5, 1.0, 2.0, 0.5].iter().map(|t| t.to_bits()).collect();
    let groups = group_by_maturity(&maturities);
    assert_eq!(
        groups,
        vec![(1.0f64.to_bits(), vec![0, 2]), (0.5f64.to_bits(), vec![1, 4]), (2.0f64.to_bits(), vec![3])]
    );
}

#[test]
fn grouping_keeps_first_seen_order_of_repeated_keys() {
    let keys: Vec<u64> = vec![5, 3, 5, 9, 3, 5];
    let groups = group_by_maturity(&keys);
    assert_eq!(groups, vec![(5, vec![0, 2, 5]), (3, vec![1, 4]), (9, vec![3])]);
}

#[test]
fn grouping_of_nothing_is_empty() {
    assert!(group_by_maturity(&Vec::new()).is_empty());
}

#[test]
fn grouping_of_distinct_keys_is_singletons_in_order() {
    let groups = group_by_maturity(&vec![7, 1, 4]);
    assert_eq!(groups, vec![(7, vec![0]), (1, vec![1]), (4, vec![2])]);
}

#[test]
fn grouping_partitions_every_index() {
    let keys: Vec<u64> = vec![2, 2, 1, 2, 1, 0, 0, 2];
    let groups = group_by_maturity(&keys);
    let mut seen = vec![0usize; keys.len()];
    for (k, idxs) in &groups {
        for &i in idxs {
            assert_eq!(keys[i], *k);
            seen[i] += 1;
        }
    }
    assert!(seen.iter().all(|&n| n == 1));
}
