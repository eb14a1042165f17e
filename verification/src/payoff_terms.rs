//! The payoff terms of an option contract given as text: for each payoff
//! family, the fields it requires, their keywords and their dates,
//! checked in the order contract data is read.

use vstd::prelude::*;
use crate::dates::{
    bad_date_reason, check_choice_date, check_forward_start_date, check_leg_expiry,
    parse_date_list, parse_field_date, parsed_date, Date,
};
use crate::error::{invalid_input, is_invalid_input, RustyQLibError};
use crate::settings::autocall_observation_count;
use crate::support::PayoffType;
use crate::terms::{
    asian_strike_type_of, averaging_type_of, barrier_type_of, binary_type_of, lookback_type_of,
    parse_asian_strike_type, parse_averaging_type, parse_barrier_type, parse_binary_type,
    parse_lookback_type, text_or, AsianStrikeType, AveragingType, BarrierDirection, BinaryType,
    KnockType, LookbackType, PutOrCall,
};
use crate::text::normalized;

verus! {

/// The payoff fields of a contract that are not amounts: keywords and
/// dates, and whether each required amount is present.
#[derive(Debug)]
pub struct PayoffFields {
    pub binary_type: Option<String>,
    pub lookback_type: Option<String>,
    pub barrier_type: Option<String>,
    pub averaging_type: Option<String>,
    pub asian_strike_type: Option<String>,
    pub choice_date: Option<String>,
    pub chooser_call_expiry: Option<String>,
    pub chooser_put_expiry: Option<String>,
    /// A leg strike or leg expiry is given: the chooser is complex.
    pub complex_chooser: bool,
    pub forward_start_date: Option<String>,
    pub has_barrier_level: bool,
    pub has_autocall_barrier: bool,
    pub has_protection_barrier: bool,
    pub has_coupon_barrier: bool,
    pub autocall_observations: Option<usize>,
    pub autocall_observation_dates: Option<Vec<String>>,
}

/// The payoff terms read from contract data; the amounts (cash, levels,
/// coupons, fractions of strike) are read alongside.
#[derive(Debug)]
pub enum PayoffTerms {
    Vanilla { put_or_call: PutOrCall },
    Binary { put_or_call: PutOrCall, binary_type: BinaryType },
    Lookback { put_or_call: PutOrCall, lookback_type: LookbackType },
    /// A chooser: days from valuation to the choice, and, for a complex
    /// chooser, to each leg's expiry (maturity when not given).
    Chooser { choice_days: i32, legs: Option<(i32, i32)> },
    Barrier { put_or_call: PutOrCall, direction: BarrierDirection, knock: KnockType },
    Asian { put_or_call: PutOrCall, averaging: AveragingType, strike_type: AsianStrikeType },
    /// A forward start: days from valuation to the strike fixing.
    ForwardStart { put_or_call: PutOrCall, start_days: i32 },
    /// An autocallable (a Phoenix when it has a coupon barrier) on
    /// `observations` equally spaced dates or on explicit dates.
    Autocallable { observations: usize, phoenix: bool, observation_dates: Option<Vec<Date>> },
}

/// The text of an optional field, or `default` when absent.
pub open spec fn field_or(o: Option<String>, default: Seq<char>) -> Seq<char> {
    match o {
        Some(s) => s@,
        None => default,
    }
}

pub(crate) fn opt_str(o: &Option<String>) -> (r: Option<&str>)
    ensures
        match *o {
            Some(s) => r is Some && r->Some_0@ == s@,
            None => r is None,
        },
{
    match o {
        Some(s) => Some(s.as_str()),
        None => None,
    }
}

/// `e` refuses a date field: missing dates are refused where they are
/// required, dates that do not parse with the date reason, dates outside
/// their window with the window's reason.
pub open spec fn date_field_fault(e: RustyQLibError, field: Seq<char>, text: Seq<char>) -> bool {
    parsed_date(text, "%Y-%m-%d"@) is None && is_invalid_input(e, field, bad_date_reason(text))
}

/// What reading the payoff terms of family `payoff`, with option side
/// `side`, between day `valuation` and day `maturity` gives: the terms,
/// or the refusal of the first field at fault.
pub open spec fn payoff_terms_outcome(
    payoff: PayoffType,
    side: PutOrCall,
    fields: PayoffFields,
    valuation: int,
    maturity: int,
    r: Result<PayoffTerms, RustyQLibError>,
) -> bool {
    &&& payoff == PayoffType::Accumulator ==> r is Err && is_invalid_input(
        r->Err_0,
        "payoff_type"@,
        "accumulators are built through EquityOptionBuilder::accumulator, not JSON contract data"@,
    )
    &&& payoff == PayoffType::Vanilla ==> r is Ok && r->Ok_0 == (PayoffTerms::Vanilla {
        put_or_call: side,
    })
    &&& payoff == PayoffType::Binary ==> match binary_type_of(
        normalized(field_or(fields.binary_type, "cash"@)),
    ) {
        Some(b) => r is Ok && r->Ok_0 == (PayoffTerms::Binary { put_or_call: side, binary_type: b }),
        None => r is Err && is_invalid_input(
            r->Err_0,
            "binary_type"@,
            "invalid binary_type '"@ + normalized(field_or(fields.binary_type, "cash"@))
                + "' (use 'cash' or 'asset')"@,
        ),
    }
    &&& payoff == PayoffType::Lookback ==> match lookback_type_of(
        normalized(field_or(fields.lookback_type, "floating"@)),
    ) {
        Some(l) => r is Ok && r->Ok_0 == (PayoffTerms::Lookback {
            put_or_call: side,
            lookback_type: l,
        }),
        None => r is Err && is_invalid_input(
            r->Err_0,
            "lookback_type"@,
            "invalid lookback_type '"@ + normalized(field_or(fields.lookback_type, "floating"@))
                + "' (use 'floating' or 'fixed')"@,
        ),
    }
    &&& payoff == PayoffType::Barrier ==> if !fields.has_barrier_level {
        r is Err && is_invalid_input(r->Err_0, "barrier_level"@, "barrier_level is required for barrier options"@)
    } else {
        match barrier_type_of(normalized(field_or(fields.barrier_type, ""@))) {
            Some((d, k)) => r is Ok && r->Ok_0 == (PayoffTerms::Barrier {
                put_or_call: side,
                direction: d,
                knock: k,
            }),
            None => r is Err && is_invalid_input(
                r->Err_0,
                "barrier_type"@,
                "barrier_type must be up_in/up_out/down_in/down_out, got '"@ + normalized(
                    field_or(fields.barrier_type, ""@),
                ) + "'"@,
            ),
        }
    }
    &&& payoff == PayoffType::Asian ==> match averaging_type_of(
        normalized(field_or(fields.averaging_type, "arithmetic"@)),
    ) {
        None => r is Err && is_invalid_input(
            r->Err_0,
            "averaging_type"@,
            "averaging_type must be arithmetic or geometric, got '"@ + normalized(
                field_or(fields.averaging_type, "arithmetic"@),
            ) + "'"@,
        ),
        Some(a) => match asian_strike_type_of(
            normalized(field_or(fields.asian_strike_type, "fixed"@)),
        ) {
            Some(st) => r is Ok && r->Ok_0 == (PayoffTerms::Asian {
                put_or_call: side,
                averaging: a,
                strike_type: st,
            }),
            None => r is Err && is_invalid_input(
                r->Err_0,
                "asian_strike_type"@,
                "asian_strike_type must be fixed or floating, got '"@ + normalized(
                    field_or(fields.asian_strike_type, "fixed"@),
                ) + "'"@,
            ),
        },
    }
    &&& payoff == PayoffType::ForwardStart ==> match fields.forward_start_date {
        None => r is Err && is_invalid_input(
            r->Err_0,
            "forward_start_date"@,
            "forward_start_date is required for forward-start options"@,
        ),
        Some(t) => match parsed_date(t@, "%Y-%m-%d"@) {
            None => r is Err && date_field_fault(r->Err_0, "forward_start_date"@, t@),
            Some(s) => if valuation < s < maturity {
                r is Ok && r->Ok_0 == (PayoffTerms::ForwardStart {
                    put_or_call: side,
                    start_days: (s - valuation) as i32,
                })
            } else {
                r is Err && is_invalid_input(
                    r->Err_0,
                    "forward_start_date"@,
                    "forward_start_date must lie between valuation and maturity"@,
                )
            },
        },
    }
    &&& payoff == PayoffType::Chooser ==> match fields.choice_date {
        None => r is Err && is_invalid_input(r->Err_0, "choice_date"@, "choice_date is required for chooser options"@),
        Some(t) => match parsed_date(t@, "%Y-%m-%d"@) {
            None => r is Err && date_field_fault(r->Err_0, "choice_date"@, t@),
            Some(c) => if !(valuation < c < maturity) {
                r is Err && is_invalid_input(
                    r->Err_0,
                    "choice_date"@,
                    "choice_date must lie between valuation and maturity"@,
                )
            } else if !fields.complex_chooser {
                r is Ok && r->Ok_0 == (PayoffTerms::Chooser {
                    choice_days: (c - valuation) as i32,
                    legs: None,
                })
            } else {
                chooser_legs_outcome(r, fields, valuation, c, maturity)
            },
        },
    }
    &&& payoff == PayoffType::Autocallable ==> if !fields.has_autocall_barrier {
        r is Err && is_invalid_input(r->Err_0, "autocall_barrier"@, "autocall_barrier is required for autocallables"@)
    } else if !fields.has_protection_barrier {
        r is Err && is_invalid_input(
            r->Err_0,
            "protection_barrier"@,
            "protection_barrier is required for autocallables"@,
        )
    } else {
        autocall_outcome(r, fields)
    }
}

/// The payoff terms of family `payoff`, read with option side `side`
/// between `valuation` and `maturity`.
pub fn parse_payoff_terms(
    payoff: PayoffType,
    side: PutOrCall,
    fields: &PayoffFields,
    valuation: Date,
    maturity: Date,
) -> (r: Result<PayoffTerms, RustyQLibError>)
    ensures
        payoff_terms_outcome(payoff, side, *fields, valuation@, maturity@, r),
{
    match payoff {
        PayoffType::Accumulator => Err(
            invalid_input(
                "payoff_type",
                String::from_str(
                    "accumulators are built through EquityOptionBuilder::accumulator, not JSON contract data",
                ),
            ),
        ),
        PayoffType::Vanilla => Ok(PayoffTerms::Vanilla { put_or_call: side }),
        PayoffType::Binary => {
            let b = parse_binary_type(opt_str(&fields.binary_type))?;
            Ok(PayoffTerms::Binary { put_or_call: side, binary_type: b })
        },
        PayoffType::Lookback => {
            let l = parse_lookback_type(opt_str(&fields.lookback_type))?;
            Ok(PayoffTerms::Lookback { put_or_call: side, lookback_type: l })
        },
        PayoffType::Chooser => {
            let t = match &fields.choice_date {
                Some(t) => t,
                None => {
                    return Err(
                        invalid_input(
                            "choice_date",
                            String::from_str("choice_date is required for chooser options"),
                        ),
                    )
                },
            };
            let choice = parse_field_date("choice_date", t.as_str())?;
            let choice_days = check_choice_date(valuation, choice, maturity)?;
            if !fields.complex_chooser {
                return Ok(PayoffTerms::Chooser { choice_days, legs: None });
            }
            let call_leg = leg_days("chooser_call_expiry", &fields.chooser_call_expiry, valuation, choice, maturity)?;
            let put_leg = leg_days("chooser_put_expiry", &fields.chooser_put_expiry, valuation, choice, maturity)?;
            Ok(PayoffTerms::Chooser { choice_days, legs: Some((call_leg, put_leg)) })
        },
        PayoffType::Barrier => {
            if !fields.has_barrier_level {
                return Err(
                    invalid_input(
                        "barrier_level",
                        String::from_str("barrier_level is required for barrier options"),
                    ),
                );
            }
            let (direction, knock) = parse_barrier_type(opt_str(&fields.barrier_type))?;
            Ok(PayoffTerms::Barrier { put_or_call: side, direction, knock })
        },
        PayoffType::Asian => {
            let averaging = parse_averaging_type(opt_str(&fields.averaging_type))?;
            let strike_type = parse_asian_strike_type(opt_str(&fields.asian_strike_type))?;
            Ok(PayoffTerms::Asian { put_or_call: side, averaging, strike_type })
        },
        PayoffType::ForwardStart => {
            let t = match &fields.forward_start_date {
                Some(t) => t,
                None => {
                    return Err(
                        invalid_input(
                            "forward_start_date",
                            String::from_str("forward_start_date is required for forward-start options"),
                        ),
                    )
                },
            };
            let start = parse_field_date("forward_start_date", t.as_str())?;
            let start_days = check_forward_start_date(valuation, start, maturity)?;
            Ok(PayoffTerms::ForwardStart { put_or_call: side, start_days })
        },
        PayoffType::Autocallable => {
            if !fields.has_autocall_barrier {
                return Err(
                    invalid_input(
                        "autocall_barrier",
                        String::from_str("autocall_barrier is required for autocallables"),
                    ),
                );
            }
            if !fields.has_protection_barrier {
                return Err(
                    invalid_input(
                        "protection_barrier",
                        String::from_str("protection_barrier is required for autocallables"),
                    ),
                );
            }
            let observations = autocall_observation_count(fields.autocall_observations);
            let observation_dates = match &fields.autocall_observation_dates {
                Some(ds) => Some(parse_date_list("autocall_observation_dates", ds)?),
                None => None,
            };
            Ok(PayoffTerms::Autocallable {
                observations,
                phoenix: fields.has_coupon_barrier,
                observation_dates,
            })
        },
    }
}

/// `r` is the error a leg expiry field is refused with.
pub open spec fn leg_fault(
    e: RustyQLibError,
    field: Seq<char>,
    text: Option<String>,
    choice: int,
    maturity: int,
) -> bool {
    match text {
        None => false,
        Some(t) => match parsed_date(t@, "%Y-%m-%d"@) {
            None => date_field_fault(e, field, t@),
            Some(l) => !(choice < l <= maturity) && is_invalid_input(
                e,
                field,
                "leg expiry must lie after the choice date and at or before maturity"@,
            ),
        },
    }
}

/// A leg expiry field is accepted, with these days from valuation.
pub open spec fn leg_ok(text: Option<String>, valuation: int, choice: int, maturity: int, days: int) -> bool {
    match text {
        None => days == maturity - valuation,
        Some(t) => match parsed_date(t@, "%Y-%m-%d"@) {
            None => false,
            Some(l) => choice < l <= maturity && days == l - valuation,
        },
    }
}

/// The outcome of a complex chooser's two legs, call leg first.
pub open spec fn chooser_legs_outcome(
    r: Result<PayoffTerms, RustyQLibError>,
    fields: PayoffFields,
    valuation: int,
    choice: int,
    maturity: int,
) -> bool {
    let call = fields.chooser_call_expiry;
    let put = fields.chooser_put_expiry;
    if exists|d: int| leg_ok(call, valuation, choice, maturity, d) {
        if exists|d: int| leg_ok(put, valuation, choice, maturity, d) {
            r is Ok && (r->Ok_0 matches PayoffTerms::Chooser { choice_days, legs: Some((cd, pd)) } &&
                choice_days == choice - valuation && leg_ok(call, valuation, choice, maturity, cd as int)
                && leg_ok(put, valuation, choice, maturity, pd as int))
        } else {
            r is Err && leg_fault(r->Err_0, "chooser_put_expiry"@, put, choice, maturity)
        }
    } else {
        r is Err && leg_fault(r->Err_0, "chooser_call_expiry"@, call, choice, maturity)
    }
}

/// The outcome of an autocallable's schedule fields.
pub open spec fn autocall_outcome(r: Result<PayoffTerms, RustyQLibError>, fields: PayoffFields) -> bool {
    let n = match fields.autocall_observations {
        Some(k) => if k >= 1 { k } else { 1 },
        None => 4,
    };
    match fields.autocall_observation_dates {
        None => r is Ok && r->Ok_0 == (PayoffTerms::Autocallable {
            observations: n,
            phoenix: fields.has_coupon_barrier,
            observation_dates: None,
        }),
        Some(ds) => if forall|i: int|
            0 <= i < ds.len() ==> parsed_date(#[trigger] ds@[i]@, "%Y-%m-%d"@) is Some {
            r is Ok && (r->Ok_0 matches PayoffTerms::Autocallable {
                observations,
                phoenix,
                observation_dates: Some(v),
            } && observations == n && phoenix == fields.has_coupon_barrier && v.len() == ds.len()
                && forall|i: int|
                0 <= i < ds.len() ==> parsed_date(#[trigger] ds@[i]@, "%Y-%m-%d"@) == Some(v@[i]@))
        } else {
            r is Err && exists|i: int|
                0 <= i < ds.len() && (forall|j: int|
                    0 <= j < i ==> parsed_date(#[trigger] ds@[j]@, "%Y-%m-%d"@) is Some)
                    && parsed_date(#[trigger] ds@[i]@, "%Y-%m-%d"@) is None
                    && is_invalid_input(r->Err_0, "autocall_observation_dates"@, bad_date_reason(ds@[i]@))
        },
    }
}

/// Days from valuation to a chooser leg's expiry: maturity when the
/// field is absent.
fn leg_days(field: &str, text: &Option<String>, valuation: Date, choice: Date, maturity: Date) -> (r:
    Result<i32, RustyQLibError>)
    requires
        valuation@ < choice@ < maturity@,
    ensures
        match r {
            Ok(d) => leg_ok(*text, valuation@, choice@, maturity@, d as int),
            Err(e) => leg_fault(e, field@, *text, choice@, maturity@) && forall|d: int|
                !leg_ok(*text, valuation@, choice@, maturity@, d),
        },
{
    match text {
        None => Ok(valuation.days_until(&maturity)),
        Some(t) => {
            let leg = parse_field_date(field, t.as_str())?;
            check_leg_expiry(field, valuation, choice, leg, maturity)
        },
    }
}

} // verus!
