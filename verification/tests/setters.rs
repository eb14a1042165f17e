use rustyqlib::error::RustyQLibError;
use rustyqlib::setters::SetterLog;
use rustyqlib::support::PayoffType;

fn setter_refusal(r: RustyQLibError) -> (String, String) {
    match r {
        RustyQLibError::InvalidInput { field, reason } => (field, reason),
        other => panic!("unexpected {other:?}"),
    }
}

#[test]
fn rebate_after_a_barrier_is_accepted() {
    let mut log = SetterLog::new();
    log.set_payoff(PayoffType::Barrier);
    log.barrier_rebate();
    assert!(log.take_misuse().is_ok());
    assert_eq!(log.built_payoff().unwrap(), PayoffType::Barrier);
}

#[test]
fn rebate_before_the_barrier_refuses_the_build() {
    let mut log = SetterLog::new();
    log.set_payoff(PayoffType::Vanilla);
    log.barrier_rebate();
    // giving the barrier afterwards does not mend the order
    log.set_payoff(PayoffType::Barrier);
    let (field, reason) = setter_refusal(log.take_misuse().unwrap_err());
    assert_eq!(field, "barrier_rebate");
    assert_eq!(reason, "barrier_rebate must follow .barrier(...) or .double_barrier(...)");
    assert!(log.take_misuse().is_ok());
}

#[test]
fn autocall_refinements_need_an_autocallable() {
    let mut log = SetterLog::new();
    log.autocall_observation_dates();
    let (field, reason) = setter_refusal(log.take_misuse().unwrap_err());
    assert_eq!(field, "autocall_observation_dates");
    assert_eq!(reason, "autocall_observation_dates must follow .autocallable(...) or .phoenix(...)");

    let mut log = SetterLog::new();
    log.set_payoff(PayoffType::Asian);
    log.autocall_schedule();
    assert!(!log.autocall_schedule);
    let (field, reason) = setter_refusal(log.take_misuse().unwrap_err());
    assert_eq!(field, "autocall_schedule");
    assert_eq!(reason, "autocall_schedule must follow .autocallable(...) or .phoenix(...)");
}

#[test]
fn the_last_misuse_is_the_one_reported() {
    let mut log = SetterLog::new();
    log.barrier_rebate();
    log.autocall_observation_dates();
    let (field, _) = setter_refusal(log.take_misuse().unwrap_err());
    assert_eq!(field, "autocall_observation_dates");
}

#[test]
fn a_payoff_is_required_and_a_schedule_needs_an_autocallable() {
    let log = SetterLog::new();
    let (field, reason) = setter_refusal(log.built_payoff().unwrap_err());
    assert_eq!(field, "payoff");
    assert_eq!(reason, "set a payoff (vanilla(), barrier(), ...) before build()");

    let mut log = SetterLog::new();
    log.set_payoff(PayoffType::Autocallable);
    log.autocall_schedule();
    log.autocall_observation_dates();
    assert!(log.take_misuse().is_ok());
    assert_eq!(log.built_payoff().unwrap(), PayoffType::Autocallable);
    // the payoff replaced after the schedule was requested
    log.set_payoff(PayoffType::Vanilla);
    let (field, reason) = setter_refusal(log.built_payoff().unwrap_err());
    assert_eq!(field, "autocall_schedule");
    assert_eq!(reason, "autocall_schedule set but the payoff is not an autocallable");
}

#[test]
fn custom_payoffs_cannot_be_refined() {
    let mut log = SetterLog::new();
    log.set_custom_payoff(PayoffType::Barrier);
    assert!(log.custom);
    log.barrier_rebate();
    let (field, _) = setter_refusal(log.take_misuse().unwrap_err());
    assert_eq!(field, "barrier_rebate");

    let mut log = SetterLog::new();
    log.set_custom_payoff(PayoffType::Autocallable);
    log.autocall_observation_dates();
    let (field, _) = setter_refusal(log.take_misuse().unwrap_err());
    assert_eq!(field, "autocall_observation_dates");
    log.autocall_schedule();
    assert!(!log.autocall_schedule);
    let (field, _) = setter_refusal(log.take_misuse().unwrap_err());
    assert_eq!(field, "autocall_schedule");

    // a schedule asked of the builder's autocallable, then a custom payoff
    let mut log = SetterLog::new();
    log.set_payoff(PayoffType::Autocallable);
    log.autocall_schedule();
    log.set_custom_payoff(PayoffType::Autocallable);
    assert!(log.take_misuse().is_ok());
    let (field, reason) = setter_refusal(log.built_payoff().unwrap_err());
    assert_eq!(field, "autocall_schedule");
    assert_eq!(reason, "autocall_schedule set but the payoff is not an autocallable");
    log.set_payoff(PayoffType::Autocallable);
    assert!(!log.custom);
    assert_eq!(log.built_payoff().unwrap(), PayoffType::Autocallable);
}
