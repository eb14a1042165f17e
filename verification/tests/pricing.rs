use rustyqlib::pricing::{implied_volatility, BlackScholesPricer, VanillaPayoff};
use rustyqlib::support::{ExerciseKind, PayoffType};
use rustyqlib::terms::PutOrCall;

#[test]
fn vanilla_payoff_terms() {
    let p = VanillaPayoff { put_or_call: PutOrCall::Put, exercise_style: ExerciseKind::American };
    assert_eq!(p.payoff_kind(), PayoffType::Vanilla);
    assert_eq!(p.put_or_call(), PutOrCall::Put);
    assert_eq!(p.exercise_style(), ExerciseKind::American);
}

#[test]
fn pricer_handle_and_implied_vol_entry_point() {
    let _pricer = BlackScholesPricer::new();
    implied_volatility();
}
