use rustyqlib::dates::{parse_field_date, Date};
use rustyqlib::error::RustyQLibError;
use rustyqlib::payoff_terms::{parse_payoff_terms, PayoffFields, PayoffTerms};
use rustyqlib::support::PayoffType;
use rustyqlib::terms::{
    AsianStrikeType, AveragingType, BarrierDirection, BinaryType, KnockType, LookbackType, PutOrCall,
};

fn date_of(s: &str) -> Date {
    parse_field_date("date", s).unwrap()
}

fn fields() -> PayoffFields {
    PayoffFields {
        binary_type: None,
        lookback_type: None,
        barrier_type: None,
        averaging_type: None,
        asian_strike_type: None,
        choice_date: None,
        chooser_call_expiry: None,
        chooser_put_expiry: None,
        complex_chooser: false,
        forward_start_date: None,
        has_barrier_level: false,
        has_autocall_barrier: false,
        has_protection_barrier: false,
        has_coupon_barrier: false,
        autocall_observations: None,
        autocall_observation_dates: None,
    }
}

fn terms(kind: PayoffType, f: &PayoffFields) -> Result<PayoffTerms, RustyQLibError> {
    parse_payoff_terms(kind, PutOrCall::Call, f, date_of("2026-01-01"), date_of("2027-01-01"))
}

fn terms_refusal(r: Result<PayoffTerms, RustyQLibError>) -> (String, String) {
    match r {
        Err(RustyQLibError::InvalidInput { field, reason }) => (field, reason),
        other => panic!("unexpected {other:?}"),
    }
}

#[test]
fn vanilla_binary_lookback_and_asian_terms() {
    assert!(matches!(terms(PayoffType::Vanilla, &fields()).unwrap(), PayoffTerms::Vanilla { put_or_call: PutOrCall::Call }));
    assert!(matches!(
        terms(PayoffType::Binary, &fields()).unwrap(),
        PayoffTerms::Binary { binary_type: BinaryType::CashOrNothing, .. }
    ));
    assert!(matches!(
        terms(PayoffType::Lookback, &fields()).unwrap(),
        PayoffTerms::Lookback { lookback_type: LookbackType::FloatingStrike, .. }
    ));
    let mut f = fields();
    f.averaging_type = Some("geometric".to_string());
    f.asian_strike_type = Some("floating".to_string());
    assert!(matches!(
        terms(PayoffType::Asian, &f).unwrap(),
        PayoffTerms::Asian { averaging: AveragingType::Geometric, strike_type: AsianStrikeType::FloatingStrike, .. }
    ));
    f.averaging_type = Some("bad".to_string());
    f.asian_strike_type = Some("worse".to_string());
    assert_eq!(terms_refusal(terms(PayoffType::Asian, &f)).0, "averaging_type");
}

#[test]
fn accumulators_are_not_built_from_option_data() {
    let (field, reason) = terms_refusal(terms(PayoffType::Accumulator, &fields()));
    assert_eq!(field, "payoff_type");
    assert!(reason.starts_with("accumulators are built through EquityOptionBuilder::accumulator"));
}

#[test]
fn barrier_needs_a_level_before_its_type() {
    let (field, reason) = terms_refusal(terms(PayoffType::Barrier, &fields()));
    assert_eq!(field, "barrier_level");
    assert_eq!(reason, "barrier_level is required for barrier options");
    let mut f = fields();
    f.has_barrier_level = true;
    assert_eq!(terms_refusal(terms(PayoffType::Barrier, &f)).0, "barrier_type");
    f.barrier_type = Some("down_out".to_string());
    assert!(matches!(
        terms(PayoffType::Barrier, &f).unwrap(),
        PayoffTerms::Barrier { direction: BarrierDirection::Down, knock: KnockType::Out, .. }
    ));
}

#[test]
fn chooser_dates() {
    let (field, reason) = terms_refusal(terms(PayoffType::Chooser, &fields()));
    assert_eq!(field, "choice_date");
    assert_eq!(reason, "choice_date is required for chooser options");
    let mut f = fields();
    f.choice_date = Some("2026-07-01".to_string());
    assert!(matches!(terms(PayoffType::Chooser, &f).unwrap(), PayoffTerms::Chooser { choice_days: 181, legs: None }));
    f.complex_chooser = true;
    f.chooser_put_expiry = Some("2026-10-01".to_string());
    assert!(matches!(
        terms(PayoffType::Chooser, &f).unwrap(),
        PayoffTerms::Chooser { choice_days: 181, legs: Some((365, 273)) }
    ));
    f.chooser_call_expiry = Some("2026-06-01".to_string());
    let (field, reason) = terms_refusal(terms(PayoffType::Chooser, &f));
    assert_eq!(field, "chooser_call_expiry");
    assert_eq!(reason, "leg expiry must lie after the choice date and at or before maturity");
    f.chooser_call_expiry = None;
    f.chooser_put_expiry = Some("later".to_string());
    let (field, reason) = terms_refusal(terms(PayoffType::Chooser, &f));
    assert_eq!(field, "chooser_put_expiry");
    assert_eq!(reason, "invalid date 'later' (expected YYYY-MM-DD)");
    f.choice_date = Some("2027-03-01".to_string());
    assert_eq!(terms_refusal(terms(PayoffType::Chooser, &f)).1, "choice_date must lie between valuation and maturity");
}

#[test]
fn forward_start_dates() {
    let (field, _) = terms_refusal(terms(PayoffType::ForwardStart, &fields()));
    assert_eq!(field, "forward_start_date");
    let mut f = fields();
    f.forward_start_date = Some("2026-04-01".to_string());
    assert!(matches!(terms(PayoffType::ForwardStart, &f).unwrap(), PayoffTerms::ForwardStart { start_days: 90, .. }));
    f.forward_start_date = Some("2026-01-01".to_string());
    assert_eq!(
        terms_refusal(terms(PayoffType::ForwardStart, &f)).1,
        "forward_start_date must lie between valuation and maturity"
    );
}

#[test]
fn autocallable_terms() {
    let (field, _) = terms_refusal(terms(PayoffType::Autocallable, &fields()));
    assert_eq!(field, "autocall_barrier");
    let mut f = fields();
    f.has_autocall_barrier = true;
    let (field, reason) = terms_refusal(terms(PayoffType::Autocallable, &f));
    assert_eq!(field, "protection_barrier");
    assert_eq!(reason, "protection_barrier is required for autocallables");
    f.has_protection_barrier = true;
    assert!(matches!(
        terms(PayoffType::Autocallable, &f).unwrap(),
        PayoffTerms::Autocallable { observations: 4, phoenix: false, observation_dates: None }
    ));
    f.has_coupon_barrier = true;
    f.autocall_observations = Some(0);
    f.autocall_observation_dates = Some(vec!["2026-06-30".to_string(), "2026-12-31".to_string()]);
    match terms(PayoffType::Autocallable, &f).unwrap() {
        PayoffTerms::Autocallable { observations, phoenix, observation_dates: Some(v) } => {
            assert_eq!(observations, 1);
            assert!(phoenix);
            assert_eq!(v.len(), 2);
        }
        other => panic!("unexpected {other:?}"),
    }
    f.autocall_observation_dates = Some(vec!["2026-13-01".to_string()]);
    assert_eq!(terms_refusal(terms(PayoffType::Autocallable, &f)).0, "autocall_observation_dates");
}
