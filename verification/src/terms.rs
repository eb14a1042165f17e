//! The terms of a contract that are words rather than numbers: option
//! side, payoff variants, pricer and exercise style, each with the
//! keyword grammar contract data uses for it.
//!
//! Keywords of payoff variants are matched after trimming and
//! lower-casing; pricer, side and exercise-style keywords are matched
//! after trimming only, against the spellings listed.

use vstd::prelude::*;
use crate::dates::{parse_date_list, parsed_date, bad_date_reason, Date};
use crate::error::{invalid_input, is_invalid_input, RustyQLibError};
use crate::support::{Engine, ExerciseKind};
use crate::text::{all_ascii, ascii_lowered, normalize, normalized, quoted, str_eq, trim, trimmed};

verus! {

/// Call or put.
#[derive(Debug, Clone, Copy, PartialEq, Eq, Structural)]
pub enum PutOrCall {
    Call,
    Put,
}

/// Binary (digital) settlement style.
#[derive(Debug, Clone, Copy, PartialEq, Eq, Structural)]
pub enum BinaryType {
    /// Pays a fixed cash amount when in the money.
    CashOrNothing,
    /// Delivers the underlying (pays its level) when in the money.
    AssetOrNothing,
}

/// Which side the barrier sits on relative to the spot at inception.
#[derive(Debug, Clone, Copy, PartialEq, Eq, Structural)]
pub enum BarrierDirection {
    Up,
    Down,
}

/// Knock-in options come alive when the barrier is touched; knock-out
/// options die.
#[derive(Debug, Clone, Copy, PartialEq, Eq, Structural)]
pub enum KnockType {
    In,
    Out,
}

/// When a knock-out rebate is paid.
#[derive(Debug, Clone, Copy, PartialEq, Eq, Structural)]
pub enum RebateTiming {
    /// Paid the moment the barrier is touched.
    AtHit,
    /// Paid at expiry if the barrier was touched.
    AtExpiry,
}

/// How the average of an Asian option is computed along the path.
#[derive(Debug, Clone, Copy, PartialEq, Eq, Structural)]
pub enum AveragingType {
    Arithmetic,
    Geometric,
}

/// Fixed strike (average price) vs floating strike (average strike).
#[derive(Debug, Clone, Copy, PartialEq, Eq, Structural)]
pub enum AsianStrikeType {
    FixedStrike,
    FloatingStrike,
}

/// Lookback on the path extremum: against the extremum (floating
/// strike) or against a fixed strike.
#[derive(Debug, Clone, Copy, PartialEq, Eq, Structural)]
pub enum LookbackType {
    FloatingStrike,
    FixedStrike,
}

/// Which side of the trade an accumulator holder accrues.
#[derive(Debug, Clone, Copy, PartialEq, Eq, Structural)]
pub enum AccumulatorSide {
    /// Daily buyer at a discount, knocked out above.
    Accumulator,
    /// Daily seller at a premium, knocked out below.
    Decumulator,
}

/// Pricing method of an accumulator.
#[derive(Debug, Clone, Copy, PartialEq, Eq, Structural)]
pub enum AccumulatorPricer {
    Analytical,
    MonteCarlo,
}

/// Pricing method of a cliquet.
#[derive(Debug, Clone, Copy, PartialEq, Eq, Structural)]
pub enum CliquetPricer {
    Analytical,
    MonteCarlo,
}

/// Payoff family of a cliquet on its reset schedule.
#[derive(Debug, Clone, Copy, PartialEq, Eq, Structural)]
pub enum CliquetStyleKind {
    /// Sum of locally clamped returns.
    Standard,
    /// A headline coupon eroded by the negative period returns.
    Reverse,
    /// A coupon plus the worst period return.
    Napoleon,
}

/// Long or short position.
#[derive(Debug, Clone, Copy, PartialEq, Eq, Structural)]
pub enum LongShort {
    LONG,
    SHORT,
}

/// The text of an optional field, or `default` when it is absent.
pub open spec fn text_or(o: Option<&str>, default: &str) -> Seq<char> {
    match o {
        Some(s) => s@,
        None => default@,
    }
}

/// The text of an optional field, or `default` when it is absent.
pub fn or_default<'a>(o: Option<&'a str>, default: &'a str) -> (r: &'a str)
    ensures
        r@ == text_or(o, default),
{
    match o {
        Some(s) => s,
        None => default,
    }
}

// ── option side ─────────────────────────────────────────────────────────

pub open spec fn side_of(k: Seq<char>) -> Option<PutOrCall> {
    if k == "C"@ || k == "c"@ || k == "Call"@ || k == "call"@ {
        Some(PutOrCall::Call)
    } else if k == "P"@ || k == "p"@ || k == "Put"@ || k == "put"@ {
        Some(PutOrCall::Put)
    } else {
        None
    }
}

/// The option side named by field `put_or_call`.
pub fn parse_put_or_call(s: &str) -> (r: Result<PutOrCall, RustyQLibError>)
    ensures
        match side_of(trimmed(s@)) {
            Some(v) => r is Ok && r->Ok_0 == v,
            None => r is Err && is_invalid_input(
                r->Err_0,
                "put_or_call"@,
                "invalid side '"@ + trimmed(s@) + "' (use 'C' or 'P')"@,
            ),
        },
{
    let k = trim(s);
    if str_eq(k, "C") || str_eq(k, "c") || str_eq(k, "Call") || str_eq(k, "call") {
        Ok(PutOrCall::Call)
    } else if str_eq(k, "P") || str_eq(k, "p") || str_eq(k, "Put") || str_eq(k, "put") {
        Ok(PutOrCall::Put)
    } else {
        Err(invalid_input("put_or_call", quoted("invalid side '", k, "' (use 'C' or 'P')")))
    }
}

// ── binary type ─────────────────────────────────────────────────────────

pub open spec fn binary_type_of(k: Seq<char>) -> Option<BinaryType> {
    if k == "cash"@ || k == "cash_or_nothing"@ || k == "cash-or-nothing"@ {
        Some(BinaryType::CashOrNothing)
    } else if k == "asset"@ || k == "asset_or_nothing"@ || k == "asset-or-nothing"@ {
        Some(BinaryType::AssetOrNothing)
    } else {
        None
    }
}

/// The binary settlement a trimmed, lower-cased keyword names.
pub fn binary_type_from_keyword(k: &str) -> (r: Result<BinaryType, RustyQLibError>)
    ensures
        ({
            let k = k@;
            match binary_type_of(k) {
                Some(v) => r is Ok && r->Ok_0 == v,
                None => r is Err && is_invalid_input(
                    r->Err_0,
                    "binary_type"@,
                    "invalid binary_type '"@ + k + "' (use 'cash' or 'asset')"@,
                ),
            }
        }),
{
    if str_eq(k, "cash") || str_eq(k, "cash_or_nothing") || str_eq(k, "cash-or-nothing") {
        Ok(BinaryType::CashOrNothing)
    } else if str_eq(k, "asset") || str_eq(k, "asset_or_nothing") || str_eq(k, "asset-or-nothing") {
        Ok(BinaryType::AssetOrNothing)
    } else {
        Err(
            invalid_input(
                "binary_type",
                quoted("invalid binary_type '", k, "' (use 'cash' or 'asset')"),
            ),
        )
    }
}

/// The binary settlement named by field `binary_type` (`cash` when absent).
pub fn parse_binary_type(s: Option<&str>) -> (r: Result<BinaryType, RustyQLibError>)
    ensures
        all_ascii(trimmed(text_or(s, "cash"))) ==> normalized(text_or(s, "cash")) == ascii_lowered(trimmed(text_or(s, "cash"))),
        ({
            let k = normalized(text_or(s, "cash"));
            match binary_type_of(k) {
                Some(v) => r is Ok && r->Ok_0 == v,
                None => r is Err && is_invalid_input(
                    r->Err_0,
                    "binary_type"@,
                    "invalid binary_type '"@ + k + "' (use 'cash' or 'asset')"@,
                ),
            }
        }),
{
    let k = normalize(or_default(s, "cash"));
    binary_type_from_keyword(k.as_str())
}

// ── lookback type ───────────────────────────────────────────────────────

pub open spec fn lookback_type_of(k: Seq<char>) -> Option<LookbackType> {
    if k == "floating"@ || k == "floating_strike"@ {
        Some(LookbackType::FloatingStrike)
    } else if k == "fixed"@ || k == "fixed_strike"@ {
        Some(LookbackType::FixedStrike)
    } else {
        None
    }
}

/// The lookback variant a trimmed, lower-cased keyword names.
pub fn lookback_type_from_keyword(k: &str) -> (r: Result<LookbackType, RustyQLibError>)
    ensures
        ({
            let k = k@;
            match lookback_type_of(k) {
                Some(v) => r is Ok && r->Ok_0 == v,
                None => r is Err && is_invalid_input(
                    r->Err_0,
                    "lookback_type"@,
                    "invalid lookback_type '"@ + k + "' (use 'floating' or 'fixed')"@,
                ),
            }
        }),
{
    if str_eq(k, "floating") || str_eq(k, "floating_strike") {
        Ok(LookbackType::FloatingStrike)
    } else if str_eq(k, "fixed") || str_eq(k, "fixed_strike") {
        Ok(LookbackType::FixedStrike)
    } else {
        Err(
            invalid_input(
                "lookback_type",
                quoted("invalid lookback_type '", k, "' (use 'floating' or 'fixed')"),
            ),
        )
    }
}

/// The lookback variant named by field `lookback_type` (`floating` when
/// absent).
pub fn parse_lookback_type(s: Option<&str>) -> (r: Result<LookbackType, RustyQLibError>)
    ensures
        all_ascii(trimmed(text_or(s, "floating"))) ==> normalized(text_or(s, "floating")) == ascii_lowered(trimmed(text_or(s, "floating"))),
        ({
            let k = normalized(text_or(s, "floating"));
            match lookback_type_of(k) {
                Some(v) => r is Ok && r->Ok_0 == v,
                None => r is Err && is_invalid_input(
                    r->Err_0,
                    "lookback_type"@,
                    "invalid lookback_type '"@ + k + "' (use 'floating' or 'fixed')"@,
                ),
            }
        }),
{
    let k = normalize(or_default(s, "floating"));
    lookback_type_from_keyword(k.as_str())
}

// ── barrier type ────────────────────────────────────────────────────────

pub open spec fn barrier_type_of(k: Seq<char>) -> Option<(BarrierDirection, KnockType)> {
    if k == "up_in"@ || k == "up-in"@ || k == "ui"@ {
        Some((BarrierDirection::Up, KnockType::In))
    } else if k == "up_out"@ || k == "up-out"@ || k == "uo"@ {
        Some((BarrierDirection::Up, KnockType::Out))
    } else if k == "down_in"@ || k == "down-in"@ || k == "di"@ {
        Some((BarrierDirection::Down, KnockType::In))
    } else if k == "down_out"@ || k == "down-out"@ || k == "do"@ {
        Some((BarrierDirection::Down, KnockType::Out))
    } else {
        None
    }
}

/// The direction and knock a trimmed, lower-cased keyword names.
pub fn barrier_type_from_keyword(k: &str) -> (r: Result<(BarrierDirection, KnockType), RustyQLibError>)
    ensures
        ({
            let k = k@;
            match barrier_type_of(k) {
                Some(v) => r is Ok && r->Ok_0 == v,
                None => r is Err && is_invalid_input(
                    r->Err_0,
                    "barrier_type"@,
                    "barrier_type must be up_in/up_out/down_in/down_out, got '"@ + k + "'"@,
                ),
            }
        }),
{
    if str_eq(k, "up_in") || str_eq(k, "up-in") || str_eq(k, "ui") {
        Ok((BarrierDirection::Up, KnockType::In))
    } else if str_eq(k, "up_out") || str_eq(k, "up-out") || str_eq(k, "uo") {
        Ok((BarrierDirection::Up, KnockType::Out))
    } else if str_eq(k, "down_in") || str_eq(k, "down-in") || str_eq(k, "di") {
        Ok((BarrierDirection::Down, KnockType::In))
    } else if str_eq(k, "down_out") || str_eq(k, "down-out") || str_eq(k, "do") {
        Ok((BarrierDirection::Down, KnockType::Out))
    } else {
        Err(
            invalid_input(
                "barrier_type",
                quoted("barrier_type must be up_in/up_out/down_in/down_out, got '", k, "'"),
            ),
        )
    }
}

/// Direction and knock of field `barrier_type` (empty when absent).
pub fn parse_barrier_type(s: Option<&str>) -> (r: Result<(BarrierDirection, KnockType), RustyQLibError>)
    ensures
        all_ascii(trimmed(text_or(s, ""))) ==> normalized(text_or(s, "")) == ascii_lowered(trimmed(text_or(s, ""))),
        ({
            let k = normalized(text_or(s, ""));
            match barrier_type_of(k) {
                Some(v) => r is Ok && r->Ok_0 == v,
                None => r is Err && is_invalid_input(
                    r->Err_0,
                    "barrier_type"@,
                    "barrier_type must be up_in/up_out/down_in/down_out, got '"@ + k + "'"@,
                ),
            }
        }),
{
    let k = normalize(or_default(s, ""));
    barrier_type_from_keyword(k.as_str())
}

// ── Asian terms ─────────────────────────────────────────────────────────

pub open spec fn averaging_type_of(k: Seq<char>) -> Option<AveragingType> {
    if k == "arithmetic"@ || k == "arith"@ {
        Some(AveragingType::Arithmetic)
    } else if k == "geometric"@ || k == "geo"@ {
        Some(AveragingType::Geometric)
    } else {
        None
    }
}

/// The averaging a trimmed, lower-cased keyword names.
pub fn averaging_type_from_keyword(k: &str) -> (r: Result<AveragingType, RustyQLibError>)
    ensures
        ({
            let k = k@;
            match averaging_type_of(k) {
                Some(v) => r is Ok && r->Ok_0 == v,
                None => r is Err && is_invalid_input(
                    r->Err_0,
                    "averaging_type"@,
                    "averaging_type must be arithmetic or geometric, got '"@ + k + "'"@,
                ),
            }
        }),
{
    if str_eq(k, "arithmetic") || str_eq(k, "arith") {
        Ok(AveragingType::Arithmetic)
    } else if str_eq(k, "geometric") || str_eq(k, "geo") {
        Ok(AveragingType::Geometric)
    } else {
        Err(
            invalid_input(
                "averaging_type",
                quoted("averaging_type must be arithmetic or geometric, got '", k, "'"),
            ),
        )
    }
}

/// The averaging of field `averaging_type` (`arithmetic` when absent).
pub fn parse_averaging_type(s: Option<&str>) -> (r: Result<AveragingType, RustyQLibError>)
    ensures
        all_ascii(trimmed(text_or(s, "arithmetic"))) ==> normalized(text_or(s, "arithmetic")) == ascii_lowered(trimmed(text_or(s, "arithmetic"))),
        ({
            let k = normalized(text_or(s, "arithmetic"));
            match averaging_type_of(k) {
                Some(v) => r is Ok && r->Ok_0 == v,
                None => r is Err && is_invalid_input(
                    r->Err_0,
                    "averaging_type"@,
                    "averaging_type must be arithmetic or geometric, got '"@ + k + "'"@,
                ),
            }
        }),
{
    let k = normalize(or_default(s, "arithmetic"));
    averaging_type_from_keyword(k.as_str())
}

pub open spec fn asian_strike_type_of(k: Seq<char>) -> Option<AsianStrikeType> {
    if k == "fixed"@ || k == "average_price"@ {
        Some(AsianStrikeType::FixedStrike)
    } else if k == "floating"@ || k == "average_strike"@ {
        Some(AsianStrikeType::FloatingStrike)
    } else {
        None
    }
}

/// The Asian strike type a trimmed, lower-cased keyword names.
pub fn asian_strike_type_from_keyword(k: &str) -> (r: Result<AsianStrikeType, RustyQLibError>)
    ensures
        ({
            let k = k@;
            match asian_strike_type_of(k) {
                Some(v) => r is Ok && r->Ok_0 == v,
                None => r is Err && is_invalid_input(
                    r->Err_0,
                    "asian_strike_type"@,
                    "asian_strike_type must be fixed or floating, got '"@ + k + "'"@,
                ),
            }
        }),
{
    if str_eq(k, "fixed") || str_eq(k, "average_price") {
        Ok(AsianStrikeType::FixedStrike)
    } else if str_eq(k, "floating") || str_eq(k, "average_strike") {
        Ok(AsianStrikeType::FloatingStrike)
    } else {
        Err(
            invalid_input(
                "asian_strike_type",
                quoted("asian_strike_type must be fixed or floating, got '", k, "'"),
            ),
        )
    }
}

/// The strike type of field `asian_strike_type` (`fixed` when absent).
pub fn parse_asian_strike_type(s: Option<&str>) -> (r: Result<AsianStrikeType, RustyQLibError>)
    ensures
        all_ascii(trimmed(text_or(s, "fixed"))) ==> normalized(text_or(s, "fixed")) == ascii_lowered(trimmed(text_or(s, "fixed"))),
        ({
            let k = normalized(text_or(s, "fixed"));
            match asian_strike_type_of(k) {
                Some(v) => r is Ok && r->Ok_0 == v,
                None => r is Err && is_invalid_input(
                    r->Err_0,
                    "asian_strike_type"@,
                    "asian_strike_type must be fixed or floating, got '"@ + k + "'"@,
                ),
            }
        }),
{
    let k = normalize(or_default(s, "fixed"));
    asian_strike_type_from_keyword(k.as_str())
}

// ── pricer ──────────────────────────────────────────────────────────────

pub open spec fn engine_of(k: Seq<char>) -> Option<Engine> {
    if k == "Analytical"@ || k == "analytical"@ || k == "bs"@ {
        Some(Engine::BlackScholes)
    } else if k == "MonteCarlo"@ || k == "montecarlo"@ || k == "MC"@ || k == "mc"@ {
        Some(Engine::MonteCarlo)
    } else if k == "Binomial"@ || k == "binomial"@ || k == "bino"@ {
        Some(Engine::Binomial)
    } else if k == "FiniteDifference"@ || k == "finitdifference"@ || k == "FD"@ || k == "fd"@ {
        Some(Engine::FiniteDifference)
    } else if k == "BaroneAdesiWhaley"@ || k == "baw"@ || k == "BAW"@ {
        Some(Engine::BaroneAdesiWhaley)
    } else if k == "BjerksundStensland"@ || k == "bjerksund_stensland"@ || k == "bs2002"@ || k
        == "BS2002"@ {
        Some(Engine::BjerksundStensland)
    } else {
        None
    }
}

/// The engine named by field `pricer` (`Analytical` when absent).
pub fn parse_pricer(s: Option<&str>) -> (r: Result<Engine, RustyQLibError>)
    ensures
        ({
            let k = trimmed(text_or(s, "Analytical"));
            match engine_of(k) {
                Some(v) => r is Ok && r->Ok_0 == v,
                None => r is Err && is_invalid_input(
                    r->Err_0,
                    "pricer"@,
                    "unknown pricer '"@ + k
                        + "' (use Analytical, MonteCarlo, Binomial, FiniteDifference, BAW or BS2002)"@,
                ),
            }
        }),
{
    let k = trim(or_default(s, "Analytical"));
    if str_eq(k, "Analytical") || str_eq(k, "analytical") || str_eq(k, "bs") {
        Ok(Engine::BlackScholes)
    } else if str_eq(k, "MonteCarlo") || str_eq(k, "montecarlo") || str_eq(k, "MC") || str_eq(
        k,
        "mc",
    ) {
        Ok(Engine::MonteCarlo)
    } else if str_eq(k, "Binomial") || str_eq(k, "binomial") || str_eq(k, "bino") {
        Ok(Engine::Binomial)
    } else if str_eq(k, "FiniteDifference") || str_eq(k, "finitdifference") || str_eq(k, "FD")
        || str_eq(k, "fd") {
        Ok(Engine::FiniteDifference)
    } else if str_eq(k, "BaroneAdesiWhaley") || str_eq(k, "baw") || str_eq(k, "BAW") {
        Ok(Engine::BaroneAdesiWhaley)
    } else if str_eq(k, "BjerksundStensland") || str_eq(k, "bjerksund_stensland") || str_eq(
        k,
        "bs2002",
    ) || str_eq(k, "BS2002") {
        Ok(Engine::BjerksundStensland)
    } else {
        Err(
            invalid_input(
                "pricer",
                quoted(
                    "unknown pricer '",
                    k,
                    "' (use Analytical, MonteCarlo, Binomial, FiniteDifference, BAW or BS2002)",
                ),
            ),
        )
    }
}

// ── exercise ────────────────────────────────────────────────────────────

/// The exercise terms of a contract.
#[derive(Debug)]
pub enum ExerciseTerms {
    European,
    American,
    /// Bermudan exercise on these dates.
    Bermudan(Vec<Date>),
}

pub open spec fn exercise_kind_of(k: Seq<char>) -> ExerciseKind {
    if k == "American"@ || k == "american"@ {
        ExerciseKind::American
    } else if k == "Bermudan"@ || k == "bermudan"@ {
        ExerciseKind::Bermudan
    } else {
        ExerciseKind::European
    }
}

/// The kind of exercise terms.
pub open spec fn exercise_terms_kind(t: ExerciseTerms) -> ExerciseKind {
    match t {
        ExerciseTerms::European => ExerciseKind::European,
        ExerciseTerms::American => ExerciseKind::American,
        ExerciseTerms::Bermudan(_) => ExerciseKind::Bermudan,
    }
}

/// The texts of an optional list field.
pub open spec fn list_texts(o: Option<&Vec<String>>) -> Option<Seq<String>> {
    match o {
        Some(v) => Some(v@),
        None => None,
    }
}

/// What reading an exercise style (its text `style`, `European` when the
/// field is absent) and the exercise date texts `dates` gives: unknown
/// styles are European, and a Bermudan style requires dates that all
/// parse; otherwise the first that does not is refused.
pub open spec fn exercise_outcome(style: Seq<char>, dates: Option<Seq<String>>, r: Result<ExerciseTerms, RustyQLibError>) -> bool {
    let kind = exercise_kind_of(trimmed(style));
    &&& r matches Ok(t) ==> exercise_terms_kind(t) == kind
    &&& kind != ExerciseKind::Bermudan ==> r is Ok
    &&& kind == ExerciseKind::Bermudan && dates is None ==> r is Err && is_invalid_input(
        r->Err_0,
        "exercise_dates"@,
        "exercise_dates is required when exercise_style is Bermudan"@,
    )
    &&& kind == ExerciseKind::Bermudan && dates is Some ==> {
        let ds = dates->Some_0;
        &&& (forall|i: int| 0 <= i < ds.len() ==> parsed_date(#[trigger] ds[i]@, "%Y-%m-%d"@) is Some)
            <==> r is Ok
        &&& r matches Ok(ExerciseTerms::Bermudan(v)) ==> v.len() == ds.len() && forall|i: int|
            0 <= i < ds.len() ==> parsed_date(#[trigger] ds[i]@, "%Y-%m-%d"@) == Some(v@[i]@)
        &&& r matches Err(e) ==> exists|i: int|
            0 <= i < ds.len() && (forall|j: int|
                0 <= j < i ==> parsed_date(#[trigger] ds[j]@, "%Y-%m-%d"@) is Some)
                && parsed_date(#[trigger] ds[i]@, "%Y-%m-%d"@) is None
                && is_invalid_input(e, "exercise_dates"@, bad_date_reason(ds[i]@))
    }
}

/// Exercise terms from fields `exercise_style` (`European` when absent;
/// unknown styles are European) and `exercise_dates`, which a Bermudan
/// style requires.
pub fn parse_exercise_terms(style: Option<&str>, dates: Option<&Vec<String>>) -> (r: Result<
    ExerciseTerms,
    RustyQLibError,
>)
    ensures
        exercise_outcome(text_or(style, "European"), list_texts(dates), r),
{
    let k = trim(or_default(style, "European"));
    if str_eq(k, "American") || str_eq(k, "american") {
        Ok(ExerciseTerms::American)
    } else if str_eq(k, "Bermudan") || str_eq(k, "bermudan") {
        match dates {
            None => Err(
                invalid_input(
                    "exercise_dates",
                    String::from_str("exercise_dates is required when exercise_style is Bermudan"),
                ),
            ),
            Some(ds) => match parse_date_list("exercise_dates", ds) {
                Ok(v) => Ok(ExerciseTerms::Bermudan(v)),
                Err(e) => Err(e),
            },
        }
    } else {
        Ok(ExerciseTerms::European)
    }
}

// ── accumulators and cliquets ───────────────────────────────────────────

pub open spec fn accumulator_side_of(k: Seq<char>) -> Option<AccumulatorSide> {
    if k == "accumulator"@ || k == "accu"@ {
        Some(AccumulatorSide::Accumulator)
    } else if k == "decumulator"@ || k == "decu"@ {
        Some(AccumulatorSide::Decumulator)
    } else {
        None
    }
}

/// The accumulator side a trimmed, lower-cased keyword names.
pub fn accumulator_side_from_keyword(k: &str) -> (r: Result<AccumulatorSide, RustyQLibError>)
    ensures
        ({
            let k = k@;
            match accumulator_side_of(k) {
                Some(v) => r is Ok && r->Ok_0 == v,
                None => r is Err && is_invalid_input(
                    r->Err_0,
                    "side"@,
                    "invalid accumulator side '"@ + k + "' (use accumulator or decumulator)"@,
                ),
            }
        }),
{
    if str_eq(k, "accumulator") || str_eq(k, "accu") {
        Ok(AccumulatorSide::Accumulator)
    } else if str_eq(k, "decumulator") || str_eq(k, "decu") {
        Ok(AccumulatorSide::Decumulator)
    } else {
        Err(
            invalid_input(
                "side",
                quoted("invalid accumulator side '", k, "' (use accumulator or decumulator)"),
            ),
        )
    }
}

/// The side named by an accumulator's field `side`.
pub fn parse_accumulator_side(s: &str) -> (r: Result<AccumulatorSide, RustyQLibError>)
    ensures
        all_ascii(trimmed(s@)) ==> normalized(s@) == ascii_lowered(trimmed(s@)),
        ({
            let k = normalized(s@);
            match accumulator_side_of(k) {
                Some(v) => r is Ok && r->Ok_0 == v,
                None => r is Err && is_invalid_input(
                    r->Err_0,
                    "side"@,
                    "invalid accumulator side '"@ + k + "' (use accumulator or decumulator)"@,
                ),
            }
        }),
{
    let k = normalize(s);
    accumulator_side_from_keyword(k.as_str())
}

pub open spec fn accumulator_pricer_of(k: Seq<char>) -> Option<AccumulatorPricer> {
    if k == "Analytical"@ || k == "analytical"@ {
        Some(AccumulatorPricer::Analytical)
    } else if k == "MonteCarlo"@ || k == "montecarlo"@ || k == "MC"@ || k == "mc"@ {
        Some(AccumulatorPricer::MonteCarlo)
    } else {
        None
    }
}

/// The pricer named by an accumulator's field `pricer` (analytical when
/// absent).
pub fn parse_accumulator_pricer(s: Option<&str>) -> (r: Result<AccumulatorPricer, RustyQLibError>)
    ensures
        match s {
            None => r is Ok && r->Ok_0 == AccumulatorPricer::Analytical,
            Some(t) => match accumulator_pricer_of(trimmed(t@)) {
                Some(v) => r is Ok && r->Ok_0 == v,
                None => r is Err && is_invalid_input(
                    r->Err_0,
                    "pricer"@,
                    "invalid accumulator pricer '"@ + trimmed(t@)
                        + "' (use Analytical or MonteCarlo)"@,
                ),
            },
        },
{
    match s {
        None => Ok(AccumulatorPricer::Analytical),
        Some(t) => {
            let k = trim(t);
            if str_eq(k, "Analytical") || str_eq(k, "analytical") {
                Ok(AccumulatorPricer::Analytical)
            } else if str_eq(k, "MonteCarlo") || str_eq(k, "montecarlo") || str_eq(k, "MC")
                || str_eq(k, "mc") {
                Ok(AccumulatorPricer::MonteCarlo)
            } else {
                Err(
                    invalid_input(
                        "pricer",
                        quoted(
                            "invalid accumulator pricer '",
                            k,
                            "' (use Analytical or MonteCarlo)",
                        ),
                    ),
                )
            }
        },
    }
}

pub open spec fn cliquet_pricer_of(k: Seq<char>) -> Option<CliquetPricer> {
    if k == "Analytical"@ || k == "analytical"@ || k == "bs"@ {
        Some(CliquetPricer::Analytical)
    } else if k == "MonteCarlo"@ || k == "montecarlo"@ || k == "MC"@ || k == "mc"@ {
        Some(CliquetPricer::MonteCarlo)
    } else {
        None
    }
}

/// The pricer named by a cliquet's field `pricer` (analytical when
/// absent); an unknown name is reported with the message a cliquet
/// contract is refused with.
pub fn parse_cliquet_pricer(s: Option<&str>) -> (r: Result<CliquetPricer, String>)
    ensures
        match s {
            None => r is Ok && r->Ok_0 == CliquetPricer::Analytical,
            Some(t) => match cliquet_pricer_of(trimmed(t@)) {
                Some(v) => r is Ok && r->Ok_0 == v,
                None => r is Err && r->Err_0@ == "Invalid cliquet pricer '"@ + trimmed(t@) + "'"@,
            },
        },
{
    match s {
        None => Ok(CliquetPricer::Analytical),
        Some(t) => {
            let k = trim(t);
            if str_eq(k, "Analytical") || str_eq(k, "analytical") || str_eq(k, "bs") {
                Ok(CliquetPricer::Analytical)
            } else if str_eq(k, "MonteCarlo") || str_eq(k, "montecarlo") || str_eq(k, "MC")
                || str_eq(k, "mc") {
                Ok(CliquetPricer::MonteCarlo)
            } else {
                Err(quoted("Invalid cliquet pricer '", k, "'"))
            }
        },
    }
}

pub open spec fn cliquet_style_of(k: Seq<char>) -> Option<CliquetStyleKind> {
    if k == "standard"@ || k == "Standard"@ {
        Some(CliquetStyleKind::Standard)
    } else if k == "reverse"@ || k == "Reverse"@ {
        Some(CliquetStyleKind::Reverse)
    } else if k == "napoleon"@ || k == "Napoleon"@ {
        Some(CliquetStyleKind::Napoleon)
    } else {
        None
    }
}

/// The payoff family named by a cliquet's field `style` (standard when
/// absent); an unknown name is reported with the message a cliquet
/// contract is refused with.
pub fn parse_cliquet_style(s: Option<&str>) -> (r: Result<CliquetStyleKind, String>)
    ensures
        match s {
            None => r is Ok && r->Ok_0 == CliquetStyleKind::Standard,
            Some(t) => match cliquet_style_of(trimmed(t@)) {
                Some(v) => r is Ok && r->Ok_0 == v,
                None => r is Err && r->Err_0@ == "Invalid cliquet style: "@ + trimmed(t@),
            },
        },
{
    match s {
        None => Ok(CliquetStyleKind::Standard),
        Some(t) => {
            let k = trim(t);
            if str_eq(k, "standard") || str_eq(k, "Standard") {
                Ok(CliquetStyleKind::Standard)
            } else if str_eq(k, "reverse") || str_eq(k, "Reverse") {
                Ok(CliquetStyleKind::Reverse)
            } else if str_eq(k, "napoleon") || str_eq(k, "Napoleon") {
                Ok(CliquetStyleKind::Napoleon)
            } else {
                let mut m = String::from_str("Invalid cliquet style: ");
                m.append(k);
                Err(m)
            }
        },
    }
}

/// The position of a forward or future contract: `-1` is short, any
/// other value (or none, read as `1`) is long.
pub fn position_of(long_short: Option<i64>) -> (r: LongShort)
    ensures
        r == (if long_short == Some(-1i64) {
            LongShort::SHORT
        } else {
            LongShort::LONG
        }),
{
    match long_short {
        Some(v) => if v == -1 {
            LongShort::SHORT
        } else {
            LongShort::LONG
        },
        None => LongShort::LONG,
    }
}

/// The rebate timing of a barrier: at the touch or at expiry.
pub fn rebate_timing(at_hit: bool) -> (r: RebateTiming)
    ensures
        r == (if at_hit {
            RebateTiming::AtHit
        } else {
            RebateTiming::AtExpiry
        }),
{
    if at_hit {
        RebateTiming::AtHit
    } else {
        RebateTiming::AtExpiry
    }
}

/// Each term's canonical keyword parses back to it: the first spelling
/// listed for a value is not shadowed by the spellings of any value
/// tried before it.
pub proof fn lemma_canonical_keywords()
    ensures
        side_of("C"@) == Some(PutOrCall::Call),
        side_of("P"@) == Some(PutOrCall::Put),
        binary_type_of("cash"@) == Some(BinaryType::CashOrNothing),
        binary_type_of("asset"@) == Some(BinaryType::AssetOrNothing),
        lookback_type_of("floating"@) == Some(LookbackType::FloatingStrike),
        lookback_type_of("fixed"@) == Some(LookbackType::FixedStrike),
        barrier_type_of("up_in"@) == Some((BarrierDirection::Up, KnockType::In)),
        barrier_type_of("up_out"@) == Some((BarrierDirection::Up, KnockType::Out)),
        barrier_type_of("down_in"@) == Some((BarrierDirection::Down, KnockType::In)),
        barrier_type_of("down_out"@) == Some((BarrierDirection::Down, KnockType::Out)),
        averaging_type_of("arithmetic"@) == Some(AveragingType::Arithmetic),
        averaging_type_of("geometric"@) == Some(AveragingType::Geometric),
        asian_strike_type_of("fixed"@) == Some(AsianStrikeType::FixedStrike),
        asian_strike_type_of("floating"@) == Some(AsianStrikeType::FloatingStrike),
        engine_of("Analytical"@) == Some(Engine::BlackScholes),
        engine_of("MonteCarlo"@) == Some(Engine::MonteCarlo),
        engine_of("Binomial"@) == Some(Engine::Binomial),
        engine_of("FiniteDifference"@) == Some(Engine::FiniteDifference),
        engine_of("BaroneAdesiWhaley"@) == Some(Engine::BaroneAdesiWhaley),
        engine_of("BjerksundStensland"@) == Some(Engine::BjerksundStensland),
        accumulator_side_of("accumulator"@) == Some(AccumulatorSide::Accumulator),
        accumulator_side_of("decumulator"@) == Some(AccumulatorSide::Decumulator),
        accumulator_pricer_of("Analytical"@) == Some(AccumulatorPricer::Analytical),
        accumulator_pricer_of("MonteCarlo"@) == Some(AccumulatorPricer::MonteCarlo),
        cliquet_pricer_of("Analytical"@) == Some(CliquetPricer::Analytical),
        cliquet_pricer_of("MonteCarlo"@) == Some(CliquetPricer::MonteCarlo),
        cliquet_style_of("standard"@) == Some(CliquetStyleKind::Standard),
        cliquet_style_of("reverse"@) == Some(CliquetStyleKind::Reverse),
        cliquet_style_of("napoleon"@) == Some(CliquetStyleKind::Napoleon),
{
    reveal_strlit("Analytical");
    reveal_strlit("BAW");
    reveal_strlit("BaroneAdesiWhaley");
    reveal_strlit("Binomial");
    reveal_strlit("BjerksundStensland");
    reveal_strlit("C");
    reveal_strlit("Call");
    reveal_strlit("FD");
    reveal_strlit("FiniteDifference");
    reveal_strlit("MC");
    reveal_strlit("MonteCarlo");
    reveal_strlit("P");
    reveal_strlit("Reverse");
    reveal_strlit("Standard");
    reveal_strlit("accu");
    reveal_strlit("accumulator");
    reveal_strlit("analytical");
    reveal_strlit("arith");
    reveal_strlit("arithmetic");
    reveal_strlit("asset");
    reveal_strlit("average_price");
    reveal_strlit("baw");
    reveal_strlit("bino");
    reveal_strlit("binomial");
    reveal_strlit("bs");
    reveal_strlit("c");
    reveal_strlit("call");
    reveal_strlit("cash");
    reveal_strlit("cash-or-nothing");
    reveal_strlit("cash_or_nothing");
    reveal_strlit("decumulator");
    reveal_strlit("di");
    reveal_strlit("down-in");
    reveal_strlit("down_in");
    reveal_strlit("down_out");
    reveal_strlit("fd");
    reveal_strlit("finitdifference");
    reveal_strlit("fixed");
    reveal_strlit("floating");
    reveal_strlit("floating_strike");
    reveal_strlit("geometric");
    reveal_strlit("mc");
    reveal_strlit("montecarlo");
    reveal_strlit("napoleon");
    reveal_strlit("reverse");
    reveal_strlit("standard");
    reveal_strlit("ui");
    reveal_strlit("uo");
    reveal_strlit("up-in");
    reveal_strlit("up-out");
    reveal_strlit("up_in");
    reveal_strlit("up_out");
    assert("P"@[0] != "C"@[0]);
    assert("P"@[0] != "c"@[0]);
    assert("P"@.len() != "Call"@.len());
    assert("P"@.len() != "call"@.len());
    assert("asset"@.len() != "cash"@.len());
    assert("asset"@.len() != "cash_or_nothing"@.len());
    assert("asset"@.len() != "cash-or-nothing"@.len());
    assert("fixed"@.len() != "floating"@.len());
    assert("fixed"@.len() != "floating_strike"@.len());
    assert("up_out"@.len() != "up_in"@.len());
    assert("up_out"@.len() != "up-in"@.len());
    assert("up_out"@.len() != "ui"@.len());
    assert("down_in"@.len() != "up_in"@.len());
    assert("down_in"@.len() != "up-in"@.len());
    assert("down_in"@.len() != "ui"@.len());
    assert("down_in"@.len() != "up_out"@.len());
    assert("down_in"@.len() != "up-out"@.len());
    assert("down_in"@.len() != "uo"@.len());
    assert("down_out"@.len() != "up_in"@.len());
    assert("down_out"@.len() != "up-in"@.len());
    assert("down_out"@.len() != "ui"@.len());
    assert("down_out"@.len() != "up_out"@.len());
    assert("down_out"@.len() != "up-out"@.len());
    assert("down_out"@.len() != "uo"@.len());
    assert("down_out"@.len() != "down_in"@.len());
    assert("down_out"@.len() != "down-in"@.len());
    assert("down_out"@.len() != "di"@.len());
    assert("geometric"@.len() != "arithmetic"@.len());
    assert("geometric"@.len() != "arith"@.len());
    assert("floating"@.len() != "fixed"@.len());
    assert("floating"@.len() != "average_price"@.len());
    assert("MonteCarlo"@[0] != "Analytical"@[0]);
    assert("MonteCarlo"@[0] != "analytical"@[0]);
    assert("MonteCarlo"@.len() != "bs"@.len());
    assert("Binomial"@.len() != "Analytical"@.len());
    assert("Binomial"@.len() != "analytical"@.len());
    assert("Binomial"@.len() != "bs"@.len());
    assert("Binomial"@.len() != "MonteCarlo"@.len());
    assert("Binomial"@.len() != "montecarlo"@.len());
    assert("Binomial"@.len() != "MC"@.len());
    assert("Binomial"@.len() != "mc"@.len());
    assert("FiniteDifference"@.len() != "Analytical"@.len());
    assert("FiniteDifference"@.len() != "analytical"@.len());
    assert("FiniteDifference"@.len() != "bs"@.len());
    assert("FiniteDifference"@.len() != "MonteCarlo"@.len());
    assert("FiniteDifference"@.len() != "montecarlo"@.len());
    assert("FiniteDifference"@.len() != "MC"@.len());
    assert("FiniteDifference"@.len() != "mc"@.len());
    assert("FiniteDifference"@.len() != "Binomial"@.len());
    assert("FiniteDifference"@.len() != "binomial"@.len());
    assert("FiniteDifference"@.len() != "bino"@.len());
    assert("BaroneAdesiWhaley"@.len() != "Analytical"@.len());
    assert("BaroneAdesiWhaley"@.len() != "analytical"@.len());
    assert("BaroneAdesiWhaley"@.len() != "bs"@.len());
    assert("BaroneAdesiWhaley"@.len() != "MonteCarlo"@.len());
    assert("BaroneAdesiWhaley"@.len() != "montecarlo"@.len());
    assert("BaroneAdesiWhaley"@.len() != "MC"@.len());
    assert("BaroneAdesiWhaley"@.len() != "mc"@.len());
    assert("BaroneAdesiWhaley"@.len() != "Binomial"@.len());
    assert("BaroneAdesiWhaley"@.len() != "binomial"@.len());
    assert("BaroneAdesiWhaley"@.len() != "bino"@.len());
    assert("BaroneAdesiWhaley"@.len() != "FiniteDifference"@.len());
    assert("BaroneAdesiWhaley"@.len() != "finitdifference"@.len());
    assert("BaroneAdesiWhaley"@.len() != "FD"@.len());
    assert("BaroneAdesiWhaley"@.len() != "fd"@.len());
    assert("BjerksundStensland"@.len() != "Analytical"@.len());
    assert("BjerksundStensland"@.len() != "analytical"@.len());
    assert("BjerksundStensland"@.len() != "bs"@.len());
    assert("BjerksundStensland"@.len() != "MonteCarlo"@.len());
    assert("BjerksundStensland"@.len() != "montecarlo"@.len());
    assert("BjerksundStensland"@.len() != "MC"@.len());
    assert("BjerksundStensland"@.len() != "mc"@.len());
    assert("BjerksundStensland"@.len() != "Binomial"@.len());
    assert("BjerksundStensland"@.len() != "binomial"@.len());
    assert("BjerksundStensland"@.len() != "bino"@.len());
    assert("BjerksundStensland"@.len() != "FiniteDifference"@.len());
    assert("BjerksundStensland"@.len() != "finitdifference"@.len());
    assert("BjerksundStensland"@.len() != "FD"@.len());
    assert("BjerksundStensland"@.len() != "fd"@.len());
    assert("BjerksundStensland"@.len() != "BaroneAdesiWhaley"@.len());
    assert("BjerksundStensland"@.len() != "baw"@.len());
    assert("BjerksundStensland"@.len() != "BAW"@.len());
    assert("decumulator"@[0] != "accumulator"@[0]);
    assert("decumulator"@.len() != "accu"@.len());
    assert("MonteCarlo"@[0] != "Analytical"@[0]);
    assert("MonteCarlo"@[0] != "analytical"@[0]);
    assert("MonteCarlo"@[0] != "Analytical"@[0]);
    assert("MonteCarlo"@[0] != "analytical"@[0]);
    assert("MonteCarlo"@.len() != "bs"@.len());
    assert("reverse"@.len() != "standard"@.len());
    assert("reverse"@.len() != "Standard"@.len());
    assert("napoleon"@[0] != "standard"@[0]);
    assert("napoleon"@[0] != "Standard"@[0]);
    assert("napoleon"@.len() != "reverse"@.len());
    assert("napoleon"@.len() != "Reverse"@.len());
}

/// `k` with every `_` written as `-`.
pub open spec fn dashed(k: Seq<char>) -> Seq<char> {
    k.map_values(|c: char| if c == '_' { '-' } else { c })
}

/// The two separators are interchangeable in barrier keywords: a
/// recognized keyword names the same barrier with `_` written as `-`.
pub proof fn lemma_barrier_separators(k: Seq<char>)
    requires
        barrier_type_of(k) is Some,
    ensures
        barrier_type_of(dashed(k)) == barrier_type_of(k),
{
    reveal_strlit("up_in");
    reveal_strlit("up-in");
    reveal_strlit("ui");
    reveal_strlit("up_out");
    reveal_strlit("up-out");
    reveal_strlit("uo");
    reveal_strlit("down_in");
    reveal_strlit("down-in");
    reveal_strlit("di");
    reveal_strlit("down_out");
    reveal_strlit("down-out");
    reveal_strlit("do");
    if k == "up_in"@ {
        assert("up_in"@.len() == 5);
        assert(dashed(k) =~= "up-in"@);
    } else if k == "up-in"@ {
        assert("up-in"@.len() == 5);
        assert(dashed(k) =~= "up-in"@);
    } else if k == "ui"@ {
        assert("ui"@.len() == 2);
        assert(dashed(k) =~= "ui"@);
    } else if k == "up_out"@ {
        assert("up_out"@.len() == 6);
        assert(dashed(k) =~= "up-out"@);
    } else if k == "up-out"@ {
        assert("up-out"@.len() == 6);
        assert(dashed(k) =~= "up-out"@);
    } else if k == "uo"@ {
        assert("uo"@.len() == 2);
        assert(dashed(k) =~= "uo"@);
    } else if k == "down_in"@ {
        assert("down_in"@.len() == 7);
        assert(dashed(k) =~= "down-in"@);
    } else if k == "down-in"@ {
        assert("down-in"@.len() == 7);
        assert(dashed(k) =~= "down-in"@);
    } else if k == "di"@ {
        assert("di"@.len() == 2);
        assert(dashed(k) =~= "di"@);
    } else if k == "down_out"@ {
        assert("down_out"@.len() == 8);
        assert(dashed(k) =~= "down-out"@);
    } else if k == "down-out"@ {
        assert("down-out"@.len() == 8);
        assert(dashed(k) =~= "down-out"@);
    } else if k == "do"@ {
        assert("do"@.len() == 2);
        assert(dashed(k) =~= "do"@);
    }
}

/// The letters of a recognized barrier keyword say what it names: the
/// barrier is up exactly when the keyword starts with `u`, and knocks in
/// exactly when it ends in `n` (`..._in`) or `i` (`ui`, `di`).
pub proof fn lemma_barrier_keyword_letters(k: Seq<char>)
    requires
        barrier_type_of(k) is Some,
    ensures
        (barrier_type_of(k)->Some_0.0 == BarrierDirection::Up) <==> k[0] == 'u',
        (barrier_type_of(k)->Some_0.1 == KnockType::In) <==> (k.last() == 'n' || k.last() == 'i'),
{
    reveal_strlit("up_in");
    reveal_strlit("up-in");
    reveal_strlit("ui");
    reveal_strlit("up_out");
    reveal_strlit("up-out");
    reveal_strlit("uo");
    reveal_strlit("down_in");
    reveal_strlit("down-in");
    reveal_strlit("di");
    reveal_strlit("down_out");
    reveal_strlit("down-out");
    reveal_strlit("do");
    if k == "up_in"@ {
        assert(k.len() == 5);
        assert(k[0] == 'u' && k.last() == 'n');
    } else if k == "up-in"@ {
        assert(k.len() == 5);
        assert(k[0] == 'u' && k.last() == 'n');
    } else if k == "ui"@ {
        assert(k.len() == 2);
        assert(k[0] == 'u' && k.last() == 'i');
    } else if k == "up_out"@ {
        assert(k.len() == 6);
        assert(k[0] == 'u' && k.last() == 't');
    } else if k == "up-out"@ {
        assert(k.len() == 6);
        assert(k[0] == 'u' && k.last() == 't');
    } else if k == "uo"@ {
        assert(k.len() == 2);
        assert(k[0] == 'u' && k.last() == 'o');
    } else if k == "down_in"@ {
        assert(k.len() == 7);
        assert(k[0] == 'd' && k.last() == 'n');
    } else if k == "down-in"@ {
        assert(k.len() == 7);
        assert(k[0] == 'd' && k.last() == 'n');
    } else if k == "di"@ {
        assert(k.len() == 2);
        assert(k[0] == 'd' && k.last() == 'i');
    } else if k == "down_out"@ {
        assert(k.len() == 8);
        assert(k[0] == 'd' && k.last() == 't');
    } else if k == "down-out"@ {
        assert(k.len() == 8);
        assert(k[0] == 'd' && k.last() == 't');
    } else if k == "do"@ {
        assert(k.len() == 2);
        assert(k[0] == 'd' && k.last() == 'o');
    }
}

} // verus!
