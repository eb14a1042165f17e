//! Calendar dates as day numbers, their parsing from contract text, and
//! the date rules of contracts: maturity after valuation, exercise and
//! observation schedules, and the windows of choice, leg-expiry and
//! strike-fixing dates.

use vstd::prelude::*;
use chrono::{Datelike, NaiveDate};
use crate::error::{invalid_input, is_invalid_input, RustyQLibError};
use crate::text::quoted;

verus! {

/// Day number of the earliest date the calendar represents.
pub open spec fn min_day() -> int {
    -95746129
}

/// Day number of the latest date the calendar represents.
pub open spec fn max_day() -> int {
    95745399
}

/// A calendar date, as its day number in the proleptic Gregorian
/// calendar (0001-01-01 is day 1).
#[derive(Debug, Clone, Copy, PartialEq, Eq)]
pub struct Date {
    days: i32,
}

impl View for Date {
    type V = int;

    closed spec fn view(&self) -> int {
        self.days as int
    }
}

impl Date {
    #[verifier::type_invariant]
    spec fn in_range(self) -> bool {
        min_day() <= self.days <= max_day()
    }

    /// The date with day number `days`, if the calendar represents it.
    pub fn from_days(days: i32) -> (r: Option<Date>)
        ensures
            r is Some <==> min_day() <= days <= max_day(),
            r matches Some(d) ==> d@ == days,
    {
        if -95746129 <= days && days <= 95745399 {
            Some(Date { days })
        } else {
            None
        }
    }

    /// The day number.
    pub fn days(&self) -> (r: i32)
        ensures
            r == self@,
            min_day() <= r <= max_day(),
    {
        proof {
            use_type_invariant(self);
        }
        self.days
    }

    /// Whole days from `self` to `later` (negative when `later` is earlier).
    pub fn days_until(&self, later: &Date) -> (r: i32)
        ensures
            r == later@ - self@,
    {
        proof {
            use_type_invariant(self);
            use_type_invariant(later);
        }
        later.days - self.days
    }
}

/// What `NaiveDate::parse_from_str(s, fmt)` yields, as a day number.
pub uninterp spec fn parsed_date(s: Seq<char>, fmt: Seq<char>) -> Option<int>;

/// The text `NaiveDate` displays for day number `days`.
pub uninterp spec fn date_text(days: int) -> Seq<char>;

/// Calls `chrono::NaiveDate::parse_from_str(s, fmt)`: the date `s` names
/// in format `fmt`, or `None` where `s` does not match. The result, as a
/// day number (`Datelike::num_days_from_ce`), is named and not spelled
/// out.
#[verifier::external_body]
pub(crate) fn parse_date(s: &str, fmt: &str) -> (r: Option<Date>)
    ensures
        match r {
            Some(d) => parsed_date(s@, fmt@) == Some(d@),
            None => parsed_date(s@, fmt@) is None,
        },
{
    NaiveDate::parse_from_str(s, fmt).ok().map(|d| Date { days: d.num_days_from_ce() })
}

/// Calls chrono's `Display` for the `NaiveDate` of day number `d`
/// (`NaiveDate::from_num_days_from_ce_opt`, which every `Date` satisfies);
/// the text is named and not spelled out.
#[verifier::external_body]
pub(crate) fn format_date(d: &Date) -> (r: String)
    ensures
        r@ == date_text(d@),
{
    NaiveDate::from_num_days_from_ce_opt(d.days).unwrap().to_string()
}

/// The message for a date field that does not parse.
pub open spec fn bad_date_reason(s: Seq<char>) -> Seq<char> {
    "invalid date '"@ + s + "' (expected YYYY-MM-DD)"@
}

/// The date of contract field `field` once its text `s` is parsed:
/// the parsed date, or the refusal of a text that did not parse.
pub fn field_date(field: &str, s: &str, parsed: Option<Date>) -> (r: Result<Date, RustyQLibError>)
    ensures
        match parsed {
            Some(d) => r == Ok::<Date, RustyQLibError>(d),
            None => r is Err && is_invalid_input(r->Err_0, field@, bad_date_reason(s@)),
        },
{
    match parsed {
        Some(d) => Ok(d),
        None => Err(invalid_input(field, quoted("invalid date '", s, "' (expected YYYY-MM-DD)"))),
    }
}

/// Parse the `YYYY-MM-DD` date of contract field `field`.
pub fn parse_field_date(field: &str, s: &str) -> (r: Result<Date, RustyQLibError>)
    ensures
        match parsed_date(s@, "%Y-%m-%d"@) {
            Some(days) => r is Ok && r->Ok_0@ == days,
            None => r is Err && is_invalid_input(r->Err_0, field@, bad_date_reason(s@)),
        },
{
    field_date(field, s, parse_date(s, "%Y-%m-%d"))
}

/// The ex-date of a cash dividend once its text `s` is parsed.
pub fn dividend_date(s: &str, parsed: Option<Date>) -> (r: Result<Date, RustyQLibError>)
    ensures
        match parsed {
            Some(d) => r == Ok::<Date, RustyQLibError>(d),
            None => r is Err && is_invalid_input(
                r->Err_0,
                "cash_dividends"@,
                "invalid dividend date '"@ + s@ + "' (expected YYYY-MM-DD)"@,
            ),
        },
{
    match parsed {
        Some(d) => Ok(d),
        None => Err(
            invalid_input(
                "cash_dividends",
                quoted("invalid dividend date '", s, "' (expected YYYY-MM-DD)"),
            ),
        ),
    }
}

/// Parse the `YYYY-MM-DD` ex-date of a cash dividend.
pub fn parse_dividend_date(s: &str) -> (r: Result<Date, RustyQLibError>)
    ensures
        match parsed_date(s@, "%Y-%m-%d"@) {
            Some(days) => r is Ok && r->Ok_0@ == days,
            None => r is Err && is_invalid_input(
                r->Err_0,
                "cash_dividends"@,
                "invalid dividend date '"@ + s@ + "' (expected YYYY-MM-DD)"@,
            ),
        },
{
    dividend_date(s, parse_date(s, "%Y-%m-%d"))
}

/// The dates of list field `field` once each text of `texts` is parsed
/// (`parsed[i]` from `texts[i]`): all of them, or the refusal of the
/// first text that did not parse.
pub fn collect_dates(field: &str, texts: &Vec<String>, parsed: &Vec<Option<Date>>) -> (r: Result<
    Vec<Date>,
    RustyQLibError,
>)
    requires
        texts.len() == parsed.len(),
    ensures
        (forall|i: int| 0 <= i < parsed.len() ==> #[trigger] parsed@[i] is Some) ==> r is Ok,
        r matches Ok(v) ==> v.len() == parsed.len() && forall|i: int|
            0 <= i < parsed.len() ==> #[trigger] parsed@[i] == Some(v@[i]),
        r matches Err(e) ==> exists|i: int|
            0 <= i < parsed.len() && (forall|j: int| 0 <= j < i ==> #[trigger] parsed@[j] is Some)
                && #[trigger] parsed@[i] is None && is_invalid_input(e, field@, bad_date_reason(texts@[i]@)),
{
    let mut out: Vec<Date> = Vec::new();
    let mut i: usize = 0;
    while i < parsed.len()
        invariant
            i <= parsed.len(),
            texts.len() == parsed.len(),
            out.len() == i,
            forall|j: int| 0 <= j < i ==> #[trigger] parsed@[j] == Some(out@[j]),
        decreases parsed.len() - i,
    {
        match parsed[i] {
            Some(d) => {
                out.push(d);
            },
            None => {
                assert(forall|j: int| 0 <= j < i ==> #[trigger] parsed@[j] is Some);
                return Err(invalid_input(field, quoted("invalid date '", texts[i].as_str(), "' (expected YYYY-MM-DD)")));
            },
        }
        i = i + 1;
    }
    Ok(out)
}

/// Parse a list of `YYYY-MM-DD` dates of field `field`, stopping at the
/// first that does not parse. Order and range are checked elsewhere.
pub fn parse_date_list(field: &str, dates: &Vec<String>) -> (r: Result<Vec<Date>, RustyQLibError>)
    ensures
        (forall|i: int| 0 <= i < dates.len() ==> parsed_date(#[trigger] dates@[i]@, "%Y-%m-%d"@) is Some)
            ==> r is Ok,
        r matches Ok(v) ==> v.len() == dates.len() && forall|i: int|
            0 <= i < dates.len() ==> parsed_date(#[trigger] dates@[i]@, "%Y-%m-%d"@) == Some(v@[i]@),
        r matches Err(e) ==> exists|i: int|
            0 <= i < dates.len() && (forall|j: int|
                0 <= j < i ==> parsed_date(#[trigger] dates@[j]@, "%Y-%m-%d"@) is Some)
                && parsed_date(#[trigger] dates@[i]@, "%Y-%m-%d"@) is None && is_invalid_input(
                e,
                field@,
                bad_date_reason(dates@[i]@),
            ),
{
    let mut parsed: Vec<Option<Date>> = Vec::new();
    let mut i: usize = 0;
    while i < dates.len()
        invariant
            i <= dates.len(),
            parsed.len() == i,
            forall|j: int|
                0 <= j < i ==> match #[trigger] parsed@[j] {
                    Some(d) => parsed_date(dates@[j]@, "%Y-%m-%d"@) == Some(d@),
                    None => parsed_date(dates@[j]@, "%Y-%m-%d"@) is None,
                },
        decreases dates.len() - i,
    {
        parsed.push(parse_date(dates[i].as_str(), "%Y-%m-%d"));
        i = i + 1;
    }
    let r = collect_dates(field, dates, &parsed);
    proof {
        if forall|i: int| 0 <= i < dates.len() ==> parsed_date(#[trigger] dates@[i]@, "%Y-%m-%d"@) is Some {
            assert forall|i: int| 0 <= i < parsed.len() implies #[trigger] parsed@[i] is Some by {
                assert(parsed_date(dates@[i]@, "%Y-%m-%d"@) is Some);
            }
        }
        if r is Ok {
            let v = r->Ok_0;
            assert forall|i: int| 0 <= i < dates.len() implies parsed_date(
                #[trigger] dates@[i]@,
                "%Y-%m-%d"@,
            ) == Some(v@[i]@) by {
                assert(parsed@[i] == Some(v@[i]));
            }
        }
        if r is Err {
            let e = r->Err_0;
            let i = choose|i: int|
                0 <= i < parsed.len() && (forall|j: int| 0 <= j < i ==> #[trigger] parsed@[j] is Some)
                    && #[trigger] parsed@[i] is None && is_invalid_input(e, field@, bad_date_reason(dates@[i]@));
            assert(parsed@[i] is None);
            assert forall|j: int| 0 <= j < i implies parsed_date(#[trigger] dates@[j]@, "%Y-%m-%d"@) is Some by {
                assert(parsed@[j] is Some);
            }
        }
    }
    r
}

/// The day numbers of `dates`.
pub open spec fn day_numbers(dates: Seq<Date>) -> Seq<int> {
    dates.map_values(|d: Date| d@)
}

/// The day that entry `i` of a schedule must strictly follow: the
/// valuation date for the first entry, the previous entry otherwise.
pub open spec fn prior_day(days: Seq<int>, valuation: int, i: int) -> int {
    if i == 0 {
        valuation
    } else {
        days[i - 1]
    }
}

/// Entry `i` does not strictly follow its prior day.
pub open spec fn out_of_order(days: Seq<int>, valuation: int, i: int) -> bool {
    days[i] <= prior_day(days, valuation, i)
}

/// Entry `i` breaks the schedule rules: out of order, or after maturity.
pub open spec fn faulty_entry(days: Seq<int>, valuation: int, maturity: int, i: int) -> bool {
    out_of_order(days, valuation, i) || days[i] > maturity
}

/// A schedule is sound when it is not empty, strictly increasing, starts
/// after the valuation date and ends no later than the maturity.
pub open spec fn sound_schedule(days: Seq<int>, valuation: int, maturity: int) -> bool {
    days.len() > 0 && forall|i: int| 0 <= i < days.len() ==> !faulty_entry(days, valuation, maturity, i)
}

/// Entry `i` is the first faulty one.
pub open spec fn first_fault(days: Seq<int>, valuation: int, maturity: int, i: int) -> bool {
    &&& 0 <= i < days.len()
    &&& faulty_entry(days, valuation, maturity, i)
    &&& forall|j: int| 0 <= j < i ==> !faulty_entry(days, valuation, maturity, j)
}

/// The two dated schedules a contract can carry.
#[derive(Debug, Clone, Copy, PartialEq, Eq, Structural)]
pub enum ScheduleKind {
    /// Bermudan exercise dates.
    Exercise,
    /// Autocall observation dates.
    Observation,
}

/// The field a schedule is reported under.
pub open spec fn schedule_field(kind: ScheduleKind) -> Seq<char> {
    match kind {
        ScheduleKind::Exercise => "bermudan"@,
        ScheduleKind::Observation => "autocall_observation_dates"@,
    }
}

/// The reason an empty schedule is refused.
pub open spec fn empty_schedule_reason(kind: ScheduleKind) -> Seq<char> {
    match kind {
        ScheduleKind::Exercise => "the exercise date list must not be empty"@,
        ScheduleKind::Observation => "the observation date list must not be empty"@,
    }
}

/// The reason schedule entry `i` is refused.
pub open spec fn fault_reason(
    kind: ScheduleKind,
    days: Seq<int>,
    valuation: int,
    maturity: int,
    i: int,
) -> Seq<char> {
    if out_of_order(days, valuation, i) {
        match kind {
            ScheduleKind::Exercise => "exercise dates must be strictly increasing after valuation; "@
                + date_text(days[i]) + " is not"@,
            ScheduleKind::Observation => "dates must be strictly increasing after valuation; "@
                + date_text(days[i]) + " is not"@,
        }
    } else {
        match kind {
            ScheduleKind::Exercise => "exercise date "@ + date_text(days[i])
                + " lies after the maturity "@ + date_text(maturity),
            ScheduleKind::Observation => "observation "@ + date_text(days[i])
                + " lies after the maturity "@ + date_text(maturity),
        }
    }
}

/// What checking schedule `dates` of kind `kind` between day `valuation`
/// and day `maturity` gives.
pub open spec fn schedule_outcome(kind: ScheduleKind, dates: Seq<Date>, valuation: int, maturity: int, r: Result<Vec<i32>, RustyQLibError>) -> bool {
    &&& r is Ok <==> sound_schedule(day_numbers(dates), valuation, maturity)
    &&& r matches Ok(offsets) ==> offsets.len() == dates.len() && forall|i: int|
        0 <= i < dates.len() ==> offsets@[i] == dates[i]@ - valuation
    &&& r matches Err(e) ==> {
        ||| dates.len() == 0 && is_invalid_input(e, schedule_field(kind), empty_schedule_reason(kind))
        ||| exists|i: int|
            first_fault(day_numbers(dates), valuation, maturity, i) && is_invalid_input(
                e,
                schedule_field(kind),
                fault_reason(kind, day_numbers(dates), valuation, maturity, i),
            )
    }
}

/// Check an exercise or observation schedule against the valuation and
/// maturity dates. On success, the day count from valuation to each
/// date (the numerators of their year fractions).
pub fn check_schedule(kind: ScheduleKind, dates: &Vec<Date>, valuation: Date, maturity: Date) -> (r:
    Result<Vec<i32>, RustyQLibError>)
    ensures
        schedule_outcome(kind, dates@, valuation@, maturity@, r),
{
    let ghost days = day_numbers(dates@);
    let field = match kind {
        ScheduleKind::Exercise => "bermudan",
        ScheduleKind::Observation => "autocall_observation_dates",
    };
    if dates.len() == 0 {
        let reason = match kind {
            ScheduleKind::Exercise => String::from_str("the exercise date list must not be empty"),
            ScheduleKind::Observation => String::from_str("the observation date list must not be empty"),
        };
        return Err(invalid_input(field, reason));
    }
    let mut offsets: Vec<i32> = Vec::new();
    let mut prev = valuation;
    let mut i: usize = 0;
    while i < dates.len()
        invariant
            i <= dates.len(),
            days == day_numbers(dates@),
            dates.len() > 0,
            prev@ == prior_day(days, valuation@, i as int),
            offsets.len() == i,
            forall|j: int| 0 <= j < i ==> offsets@[j] == dates@[j]@ - valuation@,
            forall|j: int| 0 <= j < i ==> !faulty_entry(days, valuation@, maturity@, j),
            field@ == schedule_field(kind),
        decreases dates.len() - i,
    {
        let d = dates[i];
        assert(days[i as int] == d@);
        if d.days() <= prev.days() {
            let text = format_date(&d);
            let reason = match kind {
                ScheduleKind::Exercise => quoted(
                    "exercise dates must be strictly increasing after valuation; ",
                    text.as_str(),
                    " is not",
                ),
                ScheduleKind::Observation => quoted(
                    "dates must be strictly increasing after valuation; ",
                    text.as_str(),
                    " is not",
                ),
            };
            assert(first_fault(days, valuation@, maturity@, i as int));
            return Err(invalid_input(field, reason));
        }
        if d.days() > maturity.days() {
            let text = format_date(&d);
            let mat_text = format_date(&maturity);
            let mut reason = match kind {
                ScheduleKind::Exercise => quoted(
                    "exercise date ",
                    text.as_str(),
                    " lies after the maturity ",
                ),
                ScheduleKind::Observation => quoted(
                    "observation ",
                    text.as_str(),
                    " lies after the maturity ",
                ),
            };
            reason.append(mat_text.as_str());
            assert(first_fault(days, valuation@, maturity@, i as int));
            return Err(invalid_input(field, reason));
        }
        offsets.push(valuation.days_until(&d));
        prev = d;
        i = i + 1;
    }
    Ok(offsets)
}

/// What checking maturity `maturity` against day `valuation` gives.
pub open spec fn maturity_outcome(valuation: int, maturity: Option<Date>, r: Result<Date, RustyQLibError>) -> bool {
    &&& match maturity {
        None => r is Err && is_invalid_input(
            r->Err_0,
            "maturity_date"@,
            "set maturity_date() or years_to_maturity() before build()"@,
        ),
        Some(m) => if m@ > valuation {
            r == Ok::<Date, RustyQLibError>(m)
        } else {
            r is Err && is_invalid_input(
                r->Err_0,
                "maturity_date"@,
                "maturity "@ + date_text(m@) + " must be after the valuation date "@ + date_text(
                    valuation,
                ),
            )
        },
    }
}

/// The maturity a contract is built with: it must be set and fall
/// strictly after the valuation date.
pub fn check_maturity(valuation: Date, maturity: Option<Date>) -> (r: Result<Date, RustyQLibError>)
    ensures
        maturity_outcome(valuation@, maturity, r),
{
    match maturity {
        None => Err(
            invalid_input(
                "maturity_date",
                String::from_str("set maturity_date() or years_to_maturity() before build()"),
            ),
        ),
        Some(m) => {
            if m.days() <= valuation.days() {
                let m_text = format_date(&m);
                let v_text = format_date(&valuation);
                let mut reason = quoted("maturity ", m_text.as_str(), " must be after the valuation date ");
                reason.append(v_text.as_str());
                Err(invalid_input("maturity_date", reason))
            } else {
                Ok(m)
            }
        },
    }
}

/// A chooser's choice date must fall strictly between valuation and
/// maturity; on success, the days from valuation to the choice.
pub fn check_choice_date(valuation: Date, choice: Date, maturity: Date) -> (r: Result<i32, RustyQLibError>)
    ensures
        if valuation@ < choice@ < maturity@ {
            r is Ok && r->Ok_0 == choice@ - valuation@
        } else {
            r is Err && is_invalid_input(
                r->Err_0,
                "choice_date"@,
                "choice_date must lie between valuation and maturity"@,
            )
        },
{
    if !(choice.days() > valuation.days() && choice.days() < maturity.days()) {
        return Err(
            invalid_input(
                "choice_date",
                String::from_str("choice_date must lie between valuation and maturity"),
            ),
        );
    }
    Ok(valuation.days_until(&choice))
}

/// A complex chooser's leg expiry (reported under `field`) must fall
/// after the choice date and no later than maturity; on success, the
/// days from valuation to the leg expiry.
pub fn check_leg_expiry(field: &str, valuation: Date, choice: Date, leg: Date, maturity: Date) -> (r:
    Result<i32, RustyQLibError>)
    ensures
        if choice@ < leg@ <= maturity@ {
            r is Ok && r->Ok_0 == leg@ - valuation@
        } else {
            r is Err && is_invalid_input(
                r->Err_0,
                field@,
                "leg expiry must lie after the choice date and at or before maturity"@,
            )
        },
{
    if !(leg.days() > choice.days() && leg.days() <= maturity.days()) {
        return Err(
            invalid_input(
                field,
                String::from_str("leg expiry must lie after the choice date and at or before maturity"),
            ),
        );
    }
    Ok(valuation.days_until(&leg))
}

/// A forward-start option's strike-fixing date must fall strictly
/// between valuation and maturity; on success, the days from valuation
/// to the fixing.
pub fn check_forward_start_date(valuation: Date, start: Date, maturity: Date) -> (r: Result<
    i32,
    RustyQLibError,
>)
    ensures
        if valuation@ < start@ < maturity@ {
            r is Ok && r->Ok_0 == start@ - valuation@
        } else {
            r is Err && is_invalid_input(
                r->Err_0,
                "forward_start_date"@,
                "forward_start_date must lie between valuation and maturity"@,
            )
        },
{
    if !(start.days() > valuation.days() && start.days() < maturity.days()) {
        return Err(
            invalid_input(
                "forward_start_date",
                String::from_str("forward_start_date must lie between valuation and maturity"),
            ),
        );
    }
    Ok(valuation.days_until(&start))
}

/// An accumulator must not be expired: on success, the days from the
/// valuation date to maturity, which are positive.
pub fn check_accumulator_life(valuation: Date, maturity: Date) -> (r: Result<i32, RustyQLibError>)
    ensures
        if maturity@ > valuation@ {
            r is Ok && r->Ok_0 == maturity@ - valuation@
        } else {
            r is Err && is_invalid_input(r->Err_0, "maturity"@, "accumulator is expired"@)
        },
{
    let days = valuation.days_until(&maturity);
    if days <= 0 {
        return Err(invalid_input("maturity", String::from_str("accumulator is expired")));
    }
    Ok(days)
}

/// What checking Bermudan dates `dates` (of a custom payoff or not)
/// between day `valuation` and day `maturity` gives.
pub open spec fn bermudan_outcome(custom_payoff: bool, dates: Seq<Date>, valuation: int, maturity: int, r: Result<Vec<i32>, RustyQLibError>) -> bool {
    &&& custom_payoff ==> r is Err && is_invalid_input(
        r->Err_0,
        "bermudan"@,
        "bermudan dates apply to built-in payoffs; embed the exercise style in the custom payoff instead"@,
    )
    &&& !custom_payoff ==> (r is Ok <==> sound_schedule(day_numbers(dates), valuation, maturity))
    &&& !custom_payoff && r is Ok ==> r->Ok_0.len() == dates.len() && forall|i: int|
        0 <= i < dates.len() ==> r->Ok_0@[i] == dates[i]@ - valuation
    &&& !custom_payoff && r is Err ==> {
        let e = r->Err_0;
        ||| dates.len() == 0 && is_invalid_input(e, "bermudan"@, "the exercise date list must not be empty"@)
        ||| exists|i: int|
            first_fault(day_numbers(dates), valuation, maturity, i) && is_invalid_input(
                e,
                "bermudan"@,
                fault_reason(ScheduleKind::Exercise, day_numbers(dates), valuation, maturity, i),
            )
    }
}

/// Bermudan exercise dates of a built-in payoff (a custom payoff carries
/// its own exercise style and is refused), checked as a schedule; on
/// success, the days from valuation to each exercise date.
pub fn check_bermudan_dates(custom_payoff: bool, dates: &Vec<Date>, valuation: Date, maturity: Date) -> (r:
    Result<Vec<i32>, RustyQLibError>)
    ensures
        bermudan_outcome(custom_payoff, dates@, valuation@, maturity@, r),
{
    if custom_payoff {
        return Err(
            invalid_input(
                "bermudan",
                String::from_str(
                    "bermudan dates apply to built-in payoffs; embed the exercise style in the custom payoff instead",
                ),
            ),
        );
    }
    check_schedule(ScheduleKind::Exercise, dates, valuation, maturity)
}

/// A sound schedule is strictly increasing, strictly after the
/// valuation date and no later than the maturity.
pub proof fn lemma_sound_schedule_ordered(days: Seq<int>, valuation: int, maturity: int)
    requires
        sound_schedule(days, valuation, maturity),
    ensures
        forall|a: int, b: int| 0 <= a < b < days.len() ==> days[a] < days[b],
        forall|a: int| 0 <= a < days.len() ==> valuation < #[trigger] days[a] <= maturity,
{
    assert forall|a: int| 0 <= a < days.len() implies valuation < #[trigger] days[a] by {
        lemma_entries_after(days, valuation, maturity, a);
    }
    assert forall|a: int, b: int| 0 <= a < b < days.len() implies days[a] < days[b] by {
        lemma_entries_increase(days, valuation, maturity, a, b);
    }
    assert forall|a: int| 0 <= a < days.len() implies #[trigger] days[a] <= maturity by {
        assert(!faulty_entry(days, valuation, maturity, a));
    }
}

proof fn lemma_entries_after(days: Seq<int>, valuation: int, maturity: int, a: int)
    requires
        sound_schedule(days, valuation, maturity),
        0 <= a < days.len(),
    ensures
        valuation < days[a],
    decreases a,
{
    assert(!faulty_entry(days, valuation, maturity, a));
    if a > 0 {
        lemma_entries_after(days, valuation, maturity, a - 1);
    }
}

proof fn lemma_entries_increase(days: Seq<int>, valuation: int, maturity: int, a: int, b: int)
    requires
        sound_schedule(days, valuation, maturity),
        0 <= a < b < days.len(),
    ensures
        days[a] < days[b],
    decreases b - a,
{
    assert(!faulty_entry(days, valuation, maturity, b));
    if a < b - 1 {
        lemma_entries_increase(days, valuation, maturity, a, b - 1);
    }
}

} // verus!
