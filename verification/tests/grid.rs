use rustyqlib::grid::{
    aligned_steps, chunk_ranges, equal_observation_indices, fd_steps_from_data,
    snap_observation_indices, var_nodes,
};

#[test]
fn equal_observations_land_on_increasing_steps() {
    assert_eq!(equal_observation_indices(4, 100), vec![24, 49, 74, 99]);
    assert_eq!(equal_observation_indices(3, 10), vec![2, 5, 9]);
    assert_eq!(equal_observation_indices(5, 5), vec![0, 1, 2, 3, 4]);
    assert_eq!(equal_observation_indices(1, 7), vec![6]);
}

#[test]
fn explicit_observations_snap_forward_onto_the_grid() {
    assert_eq!(snap_observation_indices(&vec![25, 50, 75, 100], 100), vec![24, 49, 74, 99]);
    // a first time rounding to step 0, and two times rounding to the same step
    assert_eq!(snap_observation_indices(&vec![0, 10, 10], 100), vec![0, 9, 10]);
    // positions past the last step are held on it
    assert_eq!(snap_observation_indices(&vec![99, 150, 200], 100), vec![98, 99, 99]);
    assert_eq!(snap_observation_indices(&vec![-5], 3), vec![0]);
}

#[test]
fn steps_align_with_the_observation_count() {
    assert_eq!(aligned_steps(100, 64, 12), 108);
    assert_eq!(aligned_steps(10, 64, 4), 64);
    assert_eq!(aligned_steps(10, 64, 5), 65);
    assert_eq!(aligned_steps(120, 64, 12), 120);
}

#[test]
fn path_chunks_cover_every_path_once() {
    assert_eq!(chunk_ranges(10, 4), vec![(0, 4), (4, 8), (8, 10)]);
    assert_eq!(chunk_ranges(8, 4), vec![(0, 4), (4, 8)]);
    assert!(chunk_ranges(0, 4096).is_empty());
    let r = chunk_ranges(10_000, 4096);
    assert_eq!(r, vec![(0, 4096), (4096, 8192), (8192, 10_000)]);
}

#[test]
fn heston_variance_nodes_are_clamped() {
    assert_eq!(var_nodes(400), 50);
    assert_eq!(var_nodes(100), 30);
    assert_eq!(var_nodes(2000), 80);
    assert_eq!(var_nodes(0), 30);
}

#[test]
fn fd_grid_from_contract_data() {
    assert_eq!(fd_steps_from_data(None, None), (400, 400));
    assert_eq!(fd_steps_from_data(Some(5), Some(200)), (10, 200));
    assert_eq!(fd_steps_from_data(Some(1000), Some(0)), (1000, 10));
}
