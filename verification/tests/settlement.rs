use rustyqlib::error::RustyQLibError;
use rustyqlib::settlement::{check_futures_option, parse_futures_settlement, FuturesSettlement};

#[test]
fn settlement_parses_from_strings() {
    assert_eq!("discounted".parse::<FuturesSettlement>().unwrap(), FuturesSettlement::Discounted);
    assert_eq!("black76".parse::<FuturesSettlement>().unwrap(), FuturesSettlement::Discounted);
    assert_eq!("margined".parse::<FuturesSettlement>().unwrap(), FuturesSettlement::Margined);
    assert_eq!("futures_style".parse::<FuturesSettlement>().unwrap(), FuturesSettlement::Margined);
    assert!("bad".parse::<FuturesSettlement>().is_err());
}

#[test]
fn settlement_ignores_case_and_surrounding_space() {
    assert_eq!(FuturesSettlement::parse("  Premium_Settled\t").unwrap(), FuturesSettlement::Discounted);
    assert_eq!(FuturesSettlement::parse("FUTURES-STYLE").unwrap(), FuturesSettlement::Margined);
    assert_eq!(FuturesSettlement::parse("Future_Style").unwrap(), FuturesSettlement::Margined);
    assert_eq!(FuturesSettlement::parse("premium").unwrap(), FuturesSettlement::Discounted);
}

#[test]
fn settlement_error_quotes_the_normalized_keyword() {
    assert_eq!(
        FuturesSettlement::parse(" Cash ").unwrap_err(),
        "Invalid futures settlement 'cash' (use 'discounted' or 'margined')"
    );
    assert_eq!(
        FuturesSettlement::from_keyword("Margined").unwrap_err(),
        "Invalid futures settlement 'Margined' (use 'discounted' or 'margined')"
    );
    assert_eq!(FuturesSettlement::from_keyword("margined").unwrap(), FuturesSettlement::Margined);
}

#[test]
fn futures_settlement_field_error_quotes_raw_text() {
    match parse_futures_settlement(" weekly ") {
        Err(RustyQLibError::InvalidInput { field, reason }) => {
            assert_eq!(field, "futures_settlement");
            assert_eq!(reason, "invalid futures_settlement ' weekly ' (use 'discounted' or 'margined')");
        }
        other => panic!("unexpected {other:?}"),
    }
    assert_eq!(parse_futures_settlement("Margined").unwrap(), FuturesSettlement::Margined);
}

#[test]
fn futures_options_are_european_vanillas() {
    assert!(check_futures_option(false, false, true).is_ok());
    assert!(check_futures_option(true, true, false).is_ok());
    match check_futures_option(true, false, false) {
        Err(RustyQLibError::InvalidInput { field, reason }) => {
            assert_eq!(field, "on_future");
            assert_eq!(reason, "options on futures (Black-76) support the vanilla payoff only");
        }
        other => panic!("unexpected {other:?}"),
    }
    match check_futures_option(true, true, true) {
        Err(RustyQLibError::InvalidInput { field, reason }) => {
            assert_eq!(field, "on_future");
            assert_eq!(reason, "Black-76 supports European exercise only");
        }
        other => panic!("unexpected {other:?}"),
    }
}
