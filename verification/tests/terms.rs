use rustyqlib::error::RustyQLibError;
use rustyqlib::support::Engine;
use rustyqlib::terms::{
    accumulator_side_from_keyword, asian_strike_type_from_keyword, averaging_type_from_keyword,
    barrier_type_from_keyword, binary_type_from_keyword, lookback_type_from_keyword,
    parse_accumulator_pricer, parse_accumulator_side, parse_asian_strike_type, parse_averaging_type,
    parse_barrier_type, parse_binary_type, parse_cliquet_pricer, parse_cliquet_style,
    parse_exercise_terms, parse_lookback_type, parse_pricer, parse_put_or_call, position_of,
    rebate_timing, AccumulatorPricer, AccumulatorSide, AsianStrikeType, AveragingType,
    BarrierDirection, BinaryType, CliquetPricer, CliquetStyleKind, ExerciseTerms, KnockType,
    LongShort, LookbackType, PutOrCall, RebateTiming,
};

fn term_refusal(r: RustyQLibError) -> (String, String) {
    match r {
        RustyQLibError::InvalidInput { field, reason } => (field, reason),
        other => panic!("unexpected {other:?}"),
    }
}

#[test]
fn option_sides() {
    assert_eq!(parse_put_or_call(" C ").unwrap(), PutOrCall::Call);
    assert_eq!(parse_put_or_call("call").unwrap(), PutOrCall::Call);
    assert_eq!(parse_put_or_call("Put").unwrap(), PutOrCall::Put);
    let (f, r) = term_refusal(parse_put_or_call(" CALL ").unwrap_err());
    assert_eq!(f, "put_or_call");
    assert_eq!(r, "invalid side 'CALL' (use 'C' or 'P')");
}

#[test]
fn binary_lookback_and_asian_terms_default_and_ignore_case() {
    assert_eq!(parse_binary_type(None).unwrap(), BinaryType::CashOrNothing);
    assert_eq!(parse_binary_type(Some(" Asset-Or-Nothing ")).unwrap(), BinaryType::AssetOrNothing);
    let (f, r) = term_refusal(parse_binary_type(Some("Digital")).unwrap_err());
    assert_eq!(f, "binary_type");
    assert_eq!(r, "invalid binary_type 'digital' (use 'cash' or 'asset')");
    assert_eq!(parse_lookback_type(None).unwrap(), LookbackType::FloatingStrike);
    assert_eq!(parse_lookback_type(Some("FIXED_STRIKE")).unwrap(), LookbackType::FixedStrike);
    let (_, r) = term_refusal(parse_lookback_type(Some("x")).unwrap_err());
    assert_eq!(r, "invalid lookback_type 'x' (use 'floating' or 'fixed')");
    assert_eq!(parse_averaging_type(None).unwrap(), AveragingType::Arithmetic);
    assert_eq!(parse_averaging_type(Some("Geo")).unwrap(), AveragingType::Geometric);
    let (f, r) = term_refusal(parse_averaging_type(Some("harmonic")).unwrap_err());
    assert_eq!(f, "averaging_type");
    assert_eq!(r, "averaging_type must be arithmetic or geometric, got 'harmonic'");
    assert_eq!(parse_asian_strike_type(None).unwrap(), AsianStrikeType::FixedStrike);
    assert_eq!(parse_asian_strike_type(Some("Average_Strike")).unwrap(), AsianStrikeType::FloatingStrike);
    let (_, r) = term_refusal(parse_asian_strike_type(Some("mixed")).unwrap_err());
    assert_eq!(r, "asian_strike_type must be fixed or floating, got 'mixed'");
}

#[test]
fn barrier_types() {
    assert_eq!(parse_barrier_type(Some("Up_In")).unwrap(), (BarrierDirection::Up, KnockType::In));
    assert_eq!(parse_barrier_type(Some("uo")).unwrap(), (BarrierDirection::Up, KnockType::Out));
    assert_eq!(parse_barrier_type(Some(" down-in")).unwrap(), (BarrierDirection::Down, KnockType::In));
    assert_eq!(parse_barrier_type(Some("DO")).unwrap(), (BarrierDirection::Down, KnockType::Out));
    let (f, r) = term_refusal(parse_barrier_type(None).unwrap_err());
    assert_eq!(f, "barrier_type");
    assert_eq!(r, "barrier_type must be up_in/up_out/down_in/down_out, got ''");
}

#[test]
fn pricers() {
    assert_eq!(parse_pricer(None).unwrap(), Engine::BlackScholes);
    assert_eq!(parse_pricer(Some(" MC ")).unwrap(), Engine::MonteCarlo);
    assert_eq!(parse_pricer(Some("bino")).unwrap(), Engine::Binomial);
    assert_eq!(parse_pricer(Some("finitdifference")).unwrap(), Engine::FiniteDifference);
    assert_eq!(parse_pricer(Some("BAW")).unwrap(), Engine::BaroneAdesiWhaley);
    assert_eq!(parse_pricer(Some("bs2002")).unwrap(), Engine::BjerksundStensland);
    let (f, r) = term_refusal(parse_pricer(Some("Mc")).unwrap_err());
    assert_eq!(f, "pricer");
    assert_eq!(
        r,
        "unknown pricer 'Mc' (use Analytical, MonteCarlo, Binomial, FiniteDifference, BAW or BS2002)"
    );
}

#[test]
fn exercise_styles() {
    assert!(matches!(parse_exercise_terms(None, None).unwrap(), ExerciseTerms::European));
    assert!(matches!(parse_exercise_terms(Some("quarterly"), None).unwrap(), ExerciseTerms::European));
    assert!(matches!(parse_exercise_terms(Some(" american "), None).unwrap(), ExerciseTerms::American));
    let (f, r) = term_refusal(parse_exercise_terms(Some("Bermudan"), None).unwrap_err());
    assert_eq!(f, "exercise_dates");
    assert_eq!(r, "exercise_dates is required when exercise_style is Bermudan");
    let dates = vec!["2026-04-01".to_string(), "2026-07-01".to_string()];
    match parse_exercise_terms(Some("bermudan"), Some(&dates)).unwrap() {
        ExerciseTerms::Bermudan(v) => assert_eq!(v[0].days_until(&v[1]), 91),
        other => panic!("unexpected {other:?}"),
    }
    let bad = vec!["2026-04-31".to_string()];
    let (f, r) = term_refusal(parse_exercise_terms(Some("bermudan"), Some(&bad)).unwrap_err());
    assert_eq!(f, "exercise_dates");
    assert_eq!(r, "invalid date '2026-04-31' (expected YYYY-MM-DD)");
}

#[test]
fn accumulator_and_cliquet_terms() {
    assert_eq!(parse_accumulator_side(" Decu ").unwrap(), AccumulatorSide::Decumulator);
    assert_eq!(parse_accumulator_side("ACCUMULATOR").unwrap(), AccumulatorSide::Accumulator);
    let (f, r) = term_refusal(parse_accumulator_side("both").unwrap_err());
    assert_eq!(f, "side");
    assert_eq!(r, "invalid accumulator side 'both' (use accumulator or decumulator)");
    assert_eq!(parse_accumulator_pricer(None).unwrap(), AccumulatorPricer::Analytical);
    assert_eq!(parse_accumulator_pricer(Some(" mc")).unwrap(), AccumulatorPricer::MonteCarlo);
    let (f, r) = term_refusal(parse_accumulator_pricer(Some("bs")).unwrap_err());
    assert_eq!(f, "pricer");
    assert_eq!(r, "invalid accumulator pricer 'bs' (use Analytical or MonteCarlo)");
    assert_eq!(parse_cliquet_pricer(None).unwrap(), CliquetPricer::Analytical);
    assert_eq!(parse_cliquet_pricer(Some("bs")).unwrap(), CliquetPricer::Analytical);
    assert_eq!(parse_cliquet_pricer(Some("MonteCarlo")).unwrap(), CliquetPricer::MonteCarlo);
    assert_eq!(parse_cliquet_pricer(Some("tree")).unwrap_err(), "Invalid cliquet pricer 'tree'");
    assert_eq!(parse_cliquet_style(None).unwrap(), CliquetStyleKind::Standard);
    assert_eq!(parse_cliquet_style(Some("Reverse")).unwrap(), CliquetStyleKind::Reverse);
    assert_eq!(parse_cliquet_style(Some(" napoleon ")).unwrap(), CliquetStyleKind::Napoleon);
    assert_eq!(parse_cliquet_style(Some("NAPOLEON")).unwrap_err(), "Invalid cliquet style: NAPOLEON");
}

#[test]
fn positions_and_rebate_timing() {
    assert_eq!(position_of(None), LongShort::LONG);
    assert_eq!(position_of(Some(1)), LongShort::LONG);
    assert_eq!(position_of(Some(-1)), LongShort::SHORT);
    assert_eq!(position_of(Some(7)), LongShort::LONG);
    assert_eq!(rebate_timing(true), RebateTiming::AtHit);
    assert_eq!(rebate_timing(false), RebateTiming::AtExpiry);
}

#[test]
fn keywords_are_matched_as_given() {
    assert_eq!(binary_type_from_keyword("asset-or-nothing").unwrap(), BinaryType::AssetOrNothing);
    let (f, r) = term_refusal(binary_type_from_keyword("Cash").unwrap_err());
    assert_eq!((f.as_str(), r.as_str()), ("binary_type", "invalid binary_type 'Cash' (use 'cash' or 'asset')"));
    assert_eq!(lookback_type_from_keyword("fixed_strike").unwrap(), LookbackType::FixedStrike);
    let (f, _) = term_refusal(lookback_type_from_keyword(" fixed").unwrap_err());
    assert_eq!(f, "lookback_type");
    assert_eq!(barrier_type_from_keyword("di").unwrap(), (BarrierDirection::Down, KnockType::In));
    let (_, r) = term_refusal(barrier_type_from_keyword("").unwrap_err());
    assert_eq!(r, "barrier_type must be up_in/up_out/down_in/down_out, got ''");
    assert_eq!(averaging_type_from_keyword("geo").unwrap(), AveragingType::Geometric);
    assert_eq!(asian_strike_type_from_keyword("average_strike").unwrap(), AsianStrikeType::FloatingStrike);
    let (f, r) = term_refusal(asian_strike_type_from_keyword("FIXED").unwrap_err());
    assert_eq!((f.as_str(), r.as_str()), ("asian_strike_type", "asian_strike_type must be fixed or floating, got 'FIXED'"));
    assert_eq!(accumulator_side_from_keyword("decu").unwrap(), AccumulatorSide::Decumulator);
    let (f, r) = term_refusal(accumulator_side_from_keyword("Accu").unwrap_err());
    assert_eq!((f.as_str(), r.as_str()), ("side", "invalid accumulator side 'Accu' (use accumulator or decumulator)"));
}
