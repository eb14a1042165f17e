use rustyqlib::error::RustyQLibError;
use rustyqlib::settings::{
    autocall_observation_count, check_basket_shape, check_numerical_settings, check_observations,
};

fn settings_refusal(r: RustyQLibError) -> (String, String) {
    match r {
        RustyQLibError::InvalidInput { field, reason } => (field, reason),
        other => panic!("unexpected {other:?}"),
    }
}

#[test]
fn numerical_settings_are_checked_in_order() {
    assert!(check_numerical_settings(100_000, 252, 1000, 400, 400).is_ok());
    let (f, r) = settings_refusal(check_numerical_settings(0, 0, 0, 0, 0).unwrap_err());
    assert_eq!((f.as_str(), r.as_str()), ("paths", "Monte Carlo needs at least one path"));
    let (f, r) = settings_refusal(check_numerical_settings(1, 0, 0, 0, 0).unwrap_err());
    assert_eq!((f.as_str(), r.as_str()), ("mc_time_steps", "Monte Carlo needs at least one time step"));
    let (f, r) = settings_refusal(check_numerical_settings(1, 1, 1, 0, 0).unwrap_err());
    assert_eq!((f.as_str(), r.as_str()), ("tree_steps", "the binomial tree needs at least 2 steps, got 1"));
    let (f, r) = settings_refusal(check_numerical_settings(1, 1, 2, 2, 7).unwrap_err());
    assert_eq!(
        (f.as_str(), r.as_str()),
        ("fd_grid", "the FD grid needs at least 3 spot steps and 1 time step, got 2 x 7")
    );
    let (_, r) = settings_refusal(check_numerical_settings(1, 1, 2, 30, 0).unwrap_err());
    assert_eq!(r, "the FD grid needs at least 3 spot steps and 1 time step, got 30 x 0");
}

#[test]
fn decimal_text() {
    let (_, r) = settings_refusal(check_numerical_settings(1, 1, 0, 3, 1).unwrap_err());
    assert_eq!(r, "the binomial tree needs at least 2 steps, got 0");
    let (_, r) = settings_refusal(check_numerical_settings(1, 1, 2, 1000, 0).unwrap_err());
    assert_eq!(r, "the FD grid needs at least 3 spot steps and 1 time step, got 1000 x 0");
}

#[test]
fn observation_counts() {
    assert!(check_observations(1).is_ok());
    let (f, r) = settings_refusal(check_observations(0).unwrap_err());
    assert_eq!((f.as_str(), r.as_str()), ("observations", "need at least one observation"));
    assert_eq!(autocall_observation_count(None), 4);
    assert_eq!(autocall_observation_count(Some(0)), 1);
    assert_eq!(autocall_observation_count(Some(12)), 12);
}

#[test]
fn worst_of_basket_shape() {
    assert!(check_basket_shape(3, 3, 3, &vec![3, 3, 3]).is_ok());
    let (f, r) = settings_refusal(check_basket_shape(1, 1, 1, &vec![1]).unwrap_err());
    assert_eq!((f.as_str(), r.as_str()), ("assets", "worst-of autocallables need at least two assets"));
    let (f, r) = settings_refusal(check_basket_shape(2, 2, 3, &vec![2, 2]).unwrap_err());
    assert_eq!((f.as_str(), r.as_str()), ("assets", "spots, vols and dividends must have the same length"));
    let (f, r) = settings_refusal(check_basket_shape(2, 2, 2, &vec![2, 1]).unwrap_err());
    assert_eq!((f.as_str(), r.as_str()), ("correlations", "correlations must be an n x n matrix"));
    let (f, _) = settings_refusal(check_basket_shape(2, 2, 2, &vec![2, 2, 2]).unwrap_err());
    assert_eq!(f, "correlations");
}
