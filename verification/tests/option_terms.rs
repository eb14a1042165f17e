use rustyqlib::dates::{parse_field_date, Date};
use rustyqlib::error::RustyQLibError;
use rustyqlib::option_terms::{
    parse_dividend_dates, read_accumulator_terms, read_option_contract, read_option_terms,
    AccumulatorTerms, OptionTerms, OptionText,
};
use rustyqlib::payoff_terms::{PayoffFields, PayoffTerms};
use rustyqlib::settlement::FuturesSettlement;
use rustyqlib::support::{Engine, PayoffType};
use rustyqlib::terms::{AccumulatorPricer, AccumulatorSide, BinaryType, ExerciseTerms, PutOrCall};

fn valuation_day(s: &str) -> Date {
    parse_field_date("valuation_date", s).unwrap()
}

fn blank_payoff_fields() -> PayoffFields {
    PayoffFields {
        binary_type: None,
        lookback_type: None,
        barrier_type: None,
        averaging_type: None,
        asian_strike_type: None,
        choice_date: None,
        chooser_call_expiry: None,
        chooser_put_expiry: None,
        complex_chooser: false,
        forward_start_date: None,
        has_barrier_level: false,
        has_autocall_barrier: false,
        has_protection_barrier: false,
        has_coupon_barrier: false,
        autocall_observations: None,
        autocall_observation_dates: None,
    }
}

fn call_text() -> OptionText {
    OptionText {
        maturity: "2027-01-01".to_string(),
        has_strike: true,
        has_volatility: true,
        has_vol_surface: false,
        dividend_dates: Vec::new(),
        futures_settlement: None,
        exercise_style: None,
        exercise_dates: None,
        put_or_call: "C".to_string(),
        payoff: blank_payoff_fields(),
        pricer: None,
    }
}

fn read(payoff: PayoffType, text: &OptionText) -> Result<OptionTerms, RustyQLibError> {
    read_option_terms(valuation_day("2026-01-01"), payoff, text)
}

fn refused_field(r: Result<OptionTerms, RustyQLibError>) -> (String, String) {
    match r {
        Err(RustyQLibError::InvalidInput { field, reason }) => (field, reason),
        other => panic!("expected a refused field, got {other:?}"),
    }
}

#[test]
fn a_plain_call_reads_with_defaults() {
    let t = read(PayoffType::Vanilla, &call_text()).unwrap();
    assert_eq!(t.maturity, valuation_day("2027-01-01"));
    assert!(t.dividend_dates.is_empty());
    assert_eq!(t.settlement, None);
    assert!(matches!(t.exercise, ExerciseTerms::European));
    assert_eq!(t.put_or_call, PutOrCall::Call);
    assert!(matches!(t.payoff, PayoffTerms::Vanilla { put_or_call: PutOrCall::Call }));
    assert_eq!(t.engine, Engine::BlackScholes);
}

#[test]
fn a_richer_contract_reads_every_field() {
    let mut text = call_text();
    text.dividend_dates = vec!["2026-06-01".to_string(), "2026-12-01".to_string()];
    text.futures_settlement = Some(" Margined ".to_string());
    text.exercise_style = Some("American".to_string());
    text.put_or_call = "put".to_string();
    text.payoff.binary_type = Some("asset".to_string());
    text.pricer = Some("FD".to_string());
    let t = read(PayoffType::Binary, &text).unwrap();
    assert_eq!(t.dividend_dates, vec![valuation_day("2026-06-01"), valuation_day("2026-12-01")]);
    assert_eq!(t.settlement, Some(FuturesSettlement::Margined));
    assert!(matches!(t.exercise, ExerciseTerms::American));
    assert!(matches!(
        t.payoff,
        PayoffTerms::Binary { put_or_call: PutOrCall::Put, binary_type: BinaryType::AssetOrNothing }
    ));
    assert_eq!(t.engine, Engine::FiniteDifference);
}

#[test]
fn fields_are_refused_in_reading_order() {
    let mut text = call_text();
    text.maturity = "01/01/2027".to_string();
    text.has_strike = false;
    assert_eq!(
        refused_field(read(PayoffType::Vanilla, &text)),
        ("maturity".to_string(), "invalid date '01/01/2027' (expected YYYY-MM-DD)".to_string())
    );

    let mut text = call_text();
    text.has_strike = false;
    text.has_volatility = false;
    assert_eq!(
        refused_field(read(PayoffType::Vanilla, &text)),
        ("strike_price".to_string(), "strike_price is required for this payoff".to_string())
    );
    // forward starts and autocallables set their own strike
    assert_eq!(refused_field(read(PayoffType::ForwardStart, &text)).0, "volatility");

    let mut text = call_text();
    text.has_volatility = false;
    assert_eq!(
        refused_field(read(PayoffType::Vanilla, &text)),
        ("volatility".to_string(), "either volatility or vol_surface must be provided".to_string())
    );
    text.has_vol_surface = true;
    assert!(read(PayoffType::Vanilla, &text).is_ok());

    let mut text = call_text();
    text.dividend_dates = vec!["2026-06-01".to_string(), "June".to_string(), "July".to_string()];
    text.futures_settlement = Some("cash".to_string());
    assert_eq!(
        refused_field(read(PayoffType::Vanilla, &text)),
        ("cash_dividends".to_string(), "invalid dividend date 'June' (expected YYYY-MM-DD)".to_string())
    );

    let mut text = call_text();
    text.futures_settlement = Some("cash".to_string());
    text.exercise_style = Some("Bermudan".to_string());
    assert_eq!(
        refused_field(read(PayoffType::Vanilla, &text)),
        (
            "futures_settlement".to_string(),
            "invalid futures_settlement 'cash' (use 'discounted' or 'margined')".to_string()
        )
    );

    let mut text = call_text();
    text.exercise_style = Some("Bermudan".to_string());
    text.put_or_call = "X".to_string();
    assert_eq!(
        refused_field(read(PayoffType::Vanilla, &text)),
        ("exercise_dates".to_string(), "exercise_dates is required when exercise_style is Bermudan".to_string())
    );

    let mut text = call_text();
    text.put_or_call = " X ".to_string();
    text.pricer = Some("nope".to_string());
    assert_eq!(
        refused_field(read(PayoffType::Vanilla, &text)),
        ("put_or_call".to_string(), "invalid side 'X' (use 'C' or 'P')".to_string())
    );

    let mut text = call_text();
    text.payoff.binary_type = Some("coupon".to_string());
    text.pricer = Some("nope".to_string());
    assert_eq!(
        refused_field(read(PayoffType::Binary, &text)),
        ("binary_type".to_string(), "invalid binary_type 'coupon' (use 'cash' or 'asset')".to_string())
    );

    let mut text = call_text();
    text.pricer = Some(" nope ".to_string());
    assert_eq!(
        refused_field(read(PayoffType::Vanilla, &text)),
        (
            "pricer".to_string(),
            "unknown pricer 'nope' (use Analytical, MonteCarlo, Binomial, FiniteDifference, BAW or BS2002)"
                .to_string()
        )
    );
}

#[test]
fn bermudan_terms_carry_their_dates() {
    let mut text = call_text();
    text.exercise_style = Some(" bermudan ".to_string());
    text.exercise_dates = Some(vec!["2026-04-01".to_string(), "2026-07-01".to_string()]);
    match read(PayoffType::Vanilla, &text).unwrap().exercise {
        ExerciseTerms::Bermudan(ds) => {
            assert_eq!(ds, vec![valuation_day("2026-04-01"), valuation_day("2026-07-01")])
        }
        other => panic!("expected Bermudan terms, got {other:?}"),
    }
}

#[test]
fn dividend_dates_stop_at_the_first_bad_one() {
    let ok = vec!["2026-03-01".to_string()];
    assert_eq!(parse_dividend_dates(&ok).unwrap(), vec![valuation_day("2026-03-01")]);
    let bad = vec!["2026-03-01".to_string(), "2026-02-30".to_string(), "x".to_string()];
    match parse_dividend_dates(&bad) {
        Err(RustyQLibError::InvalidInput { field, reason }) => {
            assert_eq!(field, "cash_dividends");
            assert_eq!(reason, "invalid dividend date '2026-02-30' (expected YYYY-MM-DD)");
        }
        other => panic!("unexpected {other:?}"),
    }
}

#[test]
fn accumulator_terms_read_in_order() {
    let v = valuation_day("2026-01-01");
    assert_eq!(
        read_accumulator_terms(v, "2026-01-31", " Decu ", None).unwrap(),
        AccumulatorTerms { days: 30, side: AccumulatorSide::Decumulator, pricer: AccumulatorPricer::Analytical }
    );
    assert_eq!(
        read_accumulator_terms(v, "2027-01-01", "accumulator", Some(" mc")).unwrap().pricer,
        AccumulatorPricer::MonteCarlo
    );
    let refusal = |r: Result<AccumulatorTerms, RustyQLibError>| match r {
        Err(RustyQLibError::InvalidInput { field, reason }) => (field, reason),
        other => panic!("unexpected {other:?}"),
    };
    assert_eq!(
        refusal(read_accumulator_terms(v, "2026-13-01", "bad", Some("bad"))),
        ("maturity".to_string(), "invalid date '2026-13-01' (expected YYYY-MM-DD)".to_string())
    );
    assert_eq!(
        refusal(read_accumulator_terms(v, "2026-01-01", "bad", Some("bad"))),
        ("maturity".to_string(), "accumulator is expired".to_string())
    );
    assert_eq!(
        refusal(read_accumulator_terms(v, "2026-02-01", "long", Some("bad"))),
        ("side".to_string(), "invalid accumulator side 'long' (use accumulator or decumulator)".to_string())
    );
    assert_eq!(
        refusal(read_accumulator_terms(v, "2026-02-01", "accu", Some(" Binomial "))),
        ("pricer".to_string(), "invalid accumulator pricer 'Binomial' (use Analytical or MonteCarlo)".to_string())
    );
}

#[test]
fn expired_contracts_are_refused_after_their_fields() {
    let v = valuation_day("2028-01-01");
    let t = read_option_contract(valuation_day("2026-01-01"), PayoffType::Vanilla, &call_text()).unwrap();
    assert_eq!(t.maturity, valuation_day("2027-01-01"));
    assert_eq!(
        refused_field(read_option_contract(v, PayoffType::Vanilla, &call_text())),
        (
            "maturity_date".to_string(),
            "maturity 2027-01-01 must be after the valuation date 2028-01-01".to_string()
        )
    );
    let mut text = call_text();
    text.put_or_call = "X".to_string();
    assert_eq!(refused_field(read_option_contract(v, PayoffType::Vanilla, &text)).0, "put_or_call");
}
