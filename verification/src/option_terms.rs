//! The terms of option and accumulator contracts read from their text
//! fields, in the order contract data is read; the first field at fault
//! refuses the contract. For an option: maturity, strike, volatility,
//! dividend dates, futures settlement, exercise style, side, payoff and
//! pricer (discount curves and volatility surfaces are market objects,
//! read by the market layer), and then the maturity against the
//! valuation date. For an accumulator: maturity, remaining life, side
//! and pricer.

use vstd::prelude::*;
use crate::dates::{
    bad_date_reason, check_accumulator_life, check_maturity, maturity_outcome, parse_dividend_date,
    parse_field_date, parsed_date, Date,
};
use crate::error::{invalid_input, is_invalid_input, RustyQLibError};
use crate::payoff_terms::{field_or, opt_str, parse_payoff_terms, payoff_terms_outcome, PayoffFields, PayoffTerms};
use crate::settlement::{parse_futures_settlement, settlement_parse, FuturesSettlement};
use crate::support::{Engine, PayoffType};
use crate::terms::{
    accumulator_pricer_of, accumulator_side_of, engine_of, exercise_outcome,
    parse_accumulator_pricer, parse_accumulator_side, parse_exercise_terms, parse_pricer,
    parse_put_or_call, side_of, AccumulatorPricer, AccumulatorSide, ExerciseTerms, PutOrCall,
};
use crate::text::{normalized, trimmed};

verus! {

/// The text fields of an option contract, and which of its amounts are
/// given.
#[derive(Debug)]
pub struct OptionText {
    pub maturity: String,
    /// A strike price is given.
    pub has_strike: bool,
    /// A flat volatility is given.
    pub has_volatility: bool,
    /// A volatility surface is given.
    pub has_vol_surface: bool,
    /// The ex-dates of the cash dividends.
    pub dividend_dates: Vec<String>,
    pub futures_settlement: Option<String>,
    pub exercise_style: Option<String>,
    pub exercise_dates: Option<Vec<String>>,
    pub put_or_call: String,
    pub payoff: PayoffFields,
    pub pricer: Option<String>,
}

/// The typed terms of an option contract.
#[derive(Debug)]
pub struct OptionTerms {
    pub maturity: Date,
    pub dividend_dates: Vec<Date>,
    pub settlement: Option<FuturesSettlement>,
    pub exercise: ExerciseTerms,
    pub put_or_call: PutOrCall,
    pub payoff: PayoffTerms,
    pub engine: Engine,
}

/// Payoffs whose strike is set by the contract mechanics need none.
pub open spec fn strike_required(payoff: PayoffType) -> bool {
    payoff != PayoffType::ForwardStart && payoff != PayoffType::Autocallable
}

/// The reason a dividend ex-date that does not parse is refused.
pub open spec fn dividend_reason(s: Seq<char>) -> Seq<char> {
    "invalid dividend date '"@ + s + "' (expected YYYY-MM-DD)"@
}

/// Every text of `ds` parses as a date.
pub open spec fn all_dates_parse(ds: Seq<String>) -> bool {
    forall|i: int| 0 <= i < ds.len() ==> parsed_date(#[trigger] ds[i]@, "%Y-%m-%d"@) is Some
}

/// Text `i` of `ds` is the first that does not parse as a date.
pub open spec fn first_unparsed(ds: Seq<String>, i: int) -> bool {
    &&& 0 <= i < ds.len()
    &&& parsed_date(ds[i]@, "%Y-%m-%d"@) is None
    &&& forall|j: int| 0 <= j < i ==> parsed_date(#[trigger] ds[j]@, "%Y-%m-%d"@) is Some
}

/// The texts of an optional list field.
pub open spec fn opt_texts(o: Option<Vec<String>>) -> Option<Seq<String>> {
    match o {
        Some(v) => Some(v@),
        None => None,
    }
}

/// A futures settlement is given and does not parse.
pub open spec fn settlement_refused(o: Option<String>) -> bool {
    match o {
        Some(s) => settlement_parse(s@) is Err,
        None => false,
    }
}

/// The settlement of an optional field that parses (or is absent).
pub open spec fn settlement_value(o: Option<String>) -> Option<FuturesSettlement> {
    match o {
        Some(s) => match settlement_parse(s@) {
            Ok(v) => Some(v),
            Err(_) => None,
        },
        None => None,
    }
}

/// What reading the terms of an option of family `payoff`, valued on
/// day `valuation`, from `text` gives.
pub open spec fn option_terms_outcome(
    valuation: int,
    payoff: PayoffType,
    text: OptionText,
    r: Result<OptionTerms, RustyQLibError>,
) -> bool {
    match parsed_date(text.maturity@, "%Y-%m-%d"@) {
        None => r is Err && is_invalid_input(r->Err_0, "maturity"@, bad_date_reason(text.maturity@)),
        Some(m) => if strike_required(payoff) && !text.has_strike {
            r is Err && is_invalid_input(r->Err_0, "strike_price"@, "strike_price is required for this payoff"@)
        } else if !text.has_vol_surface && !text.has_volatility {
            r is Err && is_invalid_input(
                r->Err_0,
                "volatility"@,
                "either volatility or vol_surface must be provided"@,
            )
        } else if !all_dates_parse(text.dividend_dates@) {
            r is Err && exists|i: int|
                first_unparsed(text.dividend_dates@, i) && is_invalid_input(
                    r->Err_0,
                    "cash_dividends"@,
                    dividend_reason(#[trigger] text.dividend_dates@[i]@),
                )
        } else if settlement_refused(text.futures_settlement) {
            r is Err && is_invalid_input(
                r->Err_0,
                "futures_settlement"@,
                "invalid futures_settlement '"@ + text.futures_settlement->Some_0@
                    + "' (use 'discounted' or 'margined')"@,
            )
        } else {
            exists|ex: Result<ExerciseTerms, RustyQLibError>|
                #[trigger] exercise_outcome(
                    field_or(text.exercise_style, "European"@),
                    opt_texts(text.exercise_dates),
                    ex,
                ) && match ex {
                    Err(e) => r == Err::<OptionTerms, RustyQLibError>(e),
                    Ok(x) => after_exercise(valuation, payoff, text, m, x, r),
                }
        },
    }
}

/// The outcome once the exercise terms `x` are read: side, payoff and
/// pricer.
pub open spec fn after_exercise(
    valuation: int,
    payoff: PayoffType,
    text: OptionText,
    maturity: int,
    x: ExerciseTerms,
    r: Result<OptionTerms, RustyQLibError>,
) -> bool {
    match side_of(trimmed(text.put_or_call@)) {
        None => r is Err && is_invalid_input(
            r->Err_0,
            "put_or_call"@,
            "invalid side '"@ + trimmed(text.put_or_call@) + "' (use 'C' or 'P')"@,
        ),
        Some(side) => exists|pt: Result<PayoffTerms, RustyQLibError>|
            #[trigger] payoff_terms_outcome(payoff, side, text.payoff, valuation, maturity, pt) && match pt {
                Err(e) => r == Err::<OptionTerms, RustyQLibError>(e),
                Ok(p) => {
                    let k = trimmed(field_or(text.pricer, "Analytical"@));
                    match engine_of(k) {
                        None => r is Err && is_invalid_input(
                            r->Err_0,
                            "pricer"@,
                            "unknown pricer '"@ + k
                                + "' (use Analytical, MonteCarlo, Binomial, FiniteDifference, BAW or BS2002)"@,
                        ),
                        Some(engine) => r is Ok && {
                            let t = r->Ok_0;
                            &&& t.maturity@ == maturity
                            &&& t.dividend_dates.len() == text.dividend_dates.len()
                            &&& forall|i: int|
                                0 <= i < text.dividend_dates.len() ==> parsed_date(
                                    #[trigger] text.dividend_dates@[i]@,
                                    "%Y-%m-%d"@,
                                ) == Some(t.dividend_dates@[i]@)
                            &&& t.settlement == settlement_value(text.futures_settlement)
                            &&& t.exercise == x
                            &&& t.put_or_call == side
                            &&& t.payoff == p
                            &&& t.engine == engine
                        },
                    }
                },
            },
    }
}

/// The ex-dates of the cash dividends, stopping at the first that does
/// not parse.
pub fn parse_dividend_dates(dates: &Vec<String>) -> (r: Result<Vec<Date>, RustyQLibError>)
    ensures
        all_dates_parse(dates@) <==> r is Ok,
        r matches Ok(v) ==> v.len() == dates.len() && forall|i: int|
            0 <= i < dates.len() ==> parsed_date(#[trigger] dates@[i]@, "%Y-%m-%d"@) == Some(v@[i]@),
        r matches Err(e) ==> exists|i: int|
            first_unparsed(dates@, i) && is_invalid_input(e, "cash_dividends"@, dividend_reason(#[trigger] dates@[i]@)),
{
    let mut out: Vec<Date> = Vec::new();
    let mut i: usize = 0;
    while i < dates.len()
        invariant
            i <= dates.len(),
            out.len() == i,
            forall|j: int| 0 <= j < i ==> parsed_date(#[trigger] dates@[j]@, "%Y-%m-%d"@) == Some(out@[j]@),
        decreases dates.len() - i,
    {
        match parse_dividend_date(dates[i].as_str()) {
            Ok(d) => {
                out.push(d);
            },
            Err(e) => {
                assert(first_unparsed(dates@, i as int));
                return Err(e);
            },
        }
        i = i + 1;
    }
    Ok(out)
}

fn opt_list(o: &Option<Vec<String>>) -> (r: Option<&Vec<String>>)
    ensures
        match *o {
            Some(v) => r is Some && r->Some_0@ == v@,
            None => r is None,
        },
{
    match o {
        Some(v) => Some(v),
        None => None,
    }
}

/// Read the terms of an option of family `payoff`, valued on
/// `valuation`, from its text fields.
pub fn read_option_terms(valuation: Date, payoff: PayoffType, text: &OptionText) -> (r: Result<
    OptionTerms,
    RustyQLibError,
>)
    ensures
        option_terms_outcome(valuation@, payoff, *text, r),
{
    let maturity = match parse_field_date("maturity", text.maturity.as_str()) {
        Ok(d) => d,
        Err(e) => return Err(e),
    };
    if payoff != PayoffType::ForwardStart && payoff != PayoffType::Autocallable && !text.has_strike {
        return Err(invalid_input("strike_price", String::from_str("strike_price is required for this payoff")));
    }
    if !text.has_vol_surface && !text.has_volatility {
        return Err(
            invalid_input("volatility", String::from_str("either volatility or vol_surface must be provided")),
        );
    }
    let dividend_dates = match parse_dividend_dates(&text.dividend_dates) {
        Ok(v) => v,
        Err(e) => return Err(e),
    };
    let settlement = match &text.futures_settlement {
        Some(s) => match parse_futures_settlement(s.as_str()) {
            Ok(v) => Some(v),
            Err(e) => return Err(e),
        },
        None => None,
    };
    let ex = parse_exercise_terms(opt_str(&text.exercise_style), opt_list(&text.exercise_dates));
    let ghost ex_g = ex;
    assert(exercise_outcome(field_or(text.exercise_style, "European"@), opt_texts(text.exercise_dates), ex_g));
    let exercise = match ex {
        Ok(x) => x,
        Err(e) => return Err(e),
    };
    let put_or_call = match parse_put_or_call(text.put_or_call.as_str()) {
        Ok(v) => v,
        Err(e) => return Err(e),
    };
    let pt = parse_payoff_terms(payoff, put_or_call, &text.payoff, valuation, maturity);
    let ghost pt_g = pt;
    let payoff_terms = match pt {
        Ok(p) => p,
        Err(e) => return Err(e),
    };
    let engine = match parse_pricer(opt_str(&text.pricer)) {
        Ok(v) => v,
        Err(e) => return Err(e),
    };
    let r = OptionTerms {
        maturity,
        dividend_dates,
        settlement,
        exercise,
        put_or_call,
        payoff: payoff_terms,
        engine,
    };
    Ok(r)
}

/// What reading an option contract valued on day `valuation` gives: its
/// terms, or the refusal of the first field at fault, or, once every
/// field is read, the refusal of a maturity that does not fall after the
/// valuation date.
pub open spec fn option_contract_outcome(
    valuation: int,
    payoff: PayoffType,
    text: OptionText,
    r: Result<OptionTerms, RustyQLibError>,
) -> bool {
    exists|rt: Result<OptionTerms, RustyQLibError>|
        #[trigger] option_terms_outcome(valuation, payoff, text, rt) && match rt {
            Err(e) => r == Err::<OptionTerms, RustyQLibError>(e),
            Ok(t) => exists|rm: Result<Date, RustyQLibError>|
                #[trigger] maturity_outcome(valuation, Some(t.maturity), rm) && match rm {
                    Err(e) => r == Err::<OptionTerms, RustyQLibError>(e),
                    Ok(_) => r == Ok::<OptionTerms, RustyQLibError>(t),
                },
        }
}

/// Read an option contract valued on `valuation`: its terms, then the
/// maturity checked against the valuation date (an expired contract is
/// refused).
pub fn read_option_contract(valuation: Date, payoff: PayoffType, text: &OptionText) -> (r: Result<
    OptionTerms,
    RustyQLibError,
>)
    ensures
        option_contract_outcome(valuation@, payoff, *text, r),
{
    let rt = read_option_terms(valuation, payoff, text);
    let ghost rt_g = rt;
    assert(option_terms_outcome(valuation@, payoff, *text, rt_g));
    let t = match rt {
        Ok(t) => t,
        Err(e) => return Err(e),
    };
    let rm = check_maturity(valuation, Some(t.maturity));
    let ghost rm_g = rm;
    assert(maturity_outcome(valuation@, Some(t.maturity), rm_g));
    match rm {
        Ok(_) => Ok(t),
        Err(e) => Err(e),
    }
}

/// The terms of an accumulator contract: its remaining life in days, its
/// side and its pricer.
#[derive(Debug, Clone, Copy, PartialEq, Eq, Structural)]
pub struct AccumulatorTerms {
    pub days: i32,
    pub side: AccumulatorSide,
    pub pricer: AccumulatorPricer,
}

/// What reading an accumulator valued on day `valuation` from its
/// maturity, side and pricer texts gives.
pub open spec fn accumulator_terms_outcome(
    valuation: int,
    maturity: Seq<char>,
    side: Seq<char>,
    pricer: Option<Seq<char>>,
    r: Result<AccumulatorTerms, RustyQLibError>,
) -> bool {
    match parsed_date(maturity, "%Y-%m-%d"@) {
        None => r is Err && is_invalid_input(r->Err_0, "maturity"@, bad_date_reason(maturity)),
        Some(m) => if m <= valuation {
            r is Err && is_invalid_input(r->Err_0, "maturity"@, "accumulator is expired"@)
        } else {
            match accumulator_side_of(normalized(side)) {
                None => r is Err && is_invalid_input(
                    r->Err_0,
                    "side"@,
                    "invalid accumulator side '"@ + normalized(side) + "' (use accumulator or decumulator)"@,
                ),
                Some(sd) => {
                    let p = match pricer {
                        None => Some(AccumulatorPricer::Analytical),
                        Some(t) => accumulator_pricer_of(trimmed(t)),
                    };
                    match p {
                        Some(pr) => r == Ok::<AccumulatorTerms, RustyQLibError>(
                            AccumulatorTerms { days: (m - valuation) as i32, side: sd, pricer: pr },
                        ),
                        None => r is Err && is_invalid_input(
                            r->Err_0,
                            "pricer"@,
                            "invalid accumulator pricer '"@ + trimmed(pricer->Some_0)
                                + "' (use Analytical or MonteCarlo)"@,
                        ),
                    }
                },
            }
        },
    }
}

/// Read an accumulator valued on `valuation` from its maturity, side and
/// pricer fields; an expired accumulator is refused.
pub fn read_accumulator_terms(valuation: Date, maturity: &str, side: &str, pricer: Option<&str>) -> (r: Result<
    AccumulatorTerms,
    RustyQLibError,
>)
    ensures
        accumulator_terms_outcome(
            valuation@,
            maturity@,
            side@,
            match pricer {
                Some(t) => Some(t@),
                None => None,
            },
            r,
        ),
{
    let m = parse_field_date("maturity", maturity)?;
    let days = check_accumulator_life(valuation, m)?;
    let side = parse_accumulator_side(side)?;
    let pricer = parse_accumulator_pricer(pricer)?;
    Ok(AccumulatorTerms { days, side, pricer })
}

/// Forward starts and autocallables take their strike from the contract
/// mechanics: for them, whether a strike is given changes nothing in
/// what reading the contract gives.
pub proof fn lemma_strike_free_payoffs(
    valuation: int,
    payoff: PayoffType,
    with_strike: OptionText,
    without_strike: OptionText,
    r: Result<OptionTerms, RustyQLibError>,
)
    requires
        payoff == PayoffType::ForwardStart || payoff == PayoffType::Autocallable,
        with_strike.has_strike,
        !without_strike.has_strike,
        with_strike.maturity == without_strike.maturity,
        with_strike.has_volatility == without_strike.has_volatility,
        with_strike.has_vol_surface == without_strike.has_vol_surface,
        with_strike.dividend_dates == without_strike.dividend_dates,
        with_strike.futures_settlement == without_strike.futures_settlement,
        with_strike.exercise_style == without_strike.exercise_style,
        with_strike.exercise_dates == without_strike.exercise_dates,
        with_strike.put_or_call == without_strike.put_or_call,
        with_strike.payoff == without_strike.payoff,
        with_strike.pricer == without_strike.pricer,
    ensures
        option_terms_outcome(valuation, payoff, with_strike, r) == option_terms_outcome(
            valuation,
            payoff,
            without_strike,
            r,
        ),
{
    assert forall|m: int, x: ExerciseTerms, q: Result<OptionTerms, RustyQLibError>|
        after_exercise(valuation, payoff, with_strike, m, x, q) == after_exercise(
            valuation,
            payoff,
            without_strike,
            m,
            x,
            q,
        ) by {}
}

} // verus!
