//! The checks that building an option runs, in their order, ending with
//! the engine-support rules: an option that builds can be priced. The
//! checks on floating-point amounts (spot, volatility, rates, dividend
//! amounts, strike, barrier levels, coupons, fractions, model
//! parameters) and the construction of the discount curve and the
//! volatility surface are made outside; their outcomes enter here at the
//! points where building runs them.

use vstd::prelude::*;
use crate::dates::{
    bermudan_outcome, check_bermudan_dates, check_maturity, check_schedule, day_numbers,
    maturity_outcome, schedule_outcome, sound_schedule, Date, ScheduleKind,
};
use crate::error::{invalid_input, is_invalid_input, is_unsupported, RustyQLibError};
use crate::settings::{check_numerical_settings, numerical_outcome};
use crate::settlement::{check_futures_option, futures_outcome};
use crate::setters::{built_payoff_outcome, SetterLog};
use crate::support::{
    check_engine_support, path_dependent_payoff, support_refusal, Engine, ExerciseKind, PayoffType,
    PricingRequest,
};

verus! {

/// What building reads of an option besides its floating-point amounts.
#[derive(Debug)]
pub struct BuildPlan {
    pub valuation: Date,
    pub maturity: Option<Date>,
    /// Path dependence of a custom payoff (one given by
    /// `SetterLog::set_custom_payoff`).
    pub custom_path_dependent: bool,
    /// American exercise was asked for.
    pub american: bool,
    /// Bermudan exercise dates, given or generated from a schedule.
    pub bermudan_dates: Option<Vec<Date>>,
    /// Observation count of an autocallable or accumulator.
    pub observations: usize,
    /// Explicit (or generated) autocall observation dates.
    pub observation_dates: Option<Vec<Date>>,
    /// The underlying is a future.
    pub futures: bool,
    pub heston: bool,
    /// A barrier rebate is paid at the touch.
    pub rebate_at_hit: bool,
    pub engine: Engine,
    pub paths: usize,
    pub mc_time_steps: usize,
    pub tree_steps: usize,
    pub fd_spot_steps: usize,
    pub fd_time_steps: usize,
}

/// The outcomes of the checks made outside, in the order building runs
/// them.
#[derive(Debug)]
pub struct AmountChecks {
    /// Spot, volatility, rates and dividend amounts.
    pub market: Result<(), RustyQLibError>,
    /// Strike and the payoff's amounts checked before its observation
    /// count (levels, rebate, fractions, coupons, notional).
    pub payoff_amounts: Result<(), RustyQLibError>,
    /// The accumulator's shares per day and gearing.
    pub late_amounts: Result<(), RustyQLibError>,
    /// Heston parameters.
    pub model: Result<(), RustyQLibError>,
    /// Construction of the discount curve and the volatility surface.
    pub market_objects: Result<(), RustyQLibError>,
}

/// The exercise an option is built with: Bermudan when it has exercise
/// dates, else American when asked for, else European.
pub open spec fn exercise_of(plan: BuildPlan) -> ExerciseKind {
    if plan.bermudan_dates is Some {
        ExerciseKind::Bermudan
    } else if plan.american {
        ExerciseKind::American
    } else {
        ExerciseKind::European
    }
}

/// A built-in vanilla payoff.
pub open spec fn built_in_vanilla(custom: bool, payoff: PayoffType) -> bool {
    !custom && payoff == PayoffType::Vanilla
}

/// The pricing request of an option built from `plan` with payoff
/// family `payoff`.
pub open spec fn request_of(plan: BuildPlan, custom: bool, payoff: PayoffType) -> PricingRequest {
    PricingRequest {
        engine: plan.engine,
        payoff,
        exercise: exercise_of(plan),
        path_dependent: if custom {
            plan.custom_path_dependent
        } else {
            path_dependent_payoff(payoff)
        },
        futures_option: plan.futures,
        heston: plan.heston,
        rebate_at_hit: plan.rebate_at_hit,
    }
}

/// A built-in autocallable or accumulator, whose observation count is
/// checked.
pub open spec fn counts_observations(custom: bool, payoff: PayoffType) -> bool {
    !custom && (payoff == PayoffType::Autocallable || payoff == PayoffType::Accumulator)
}

/// The Bermudan dates pass (or there are none).
pub open spec fn bermudan_ok(plan: BuildPlan, custom: bool, maturity: int) -> bool {
    match plan.bermudan_dates {
        None => true,
        Some(ds) => !custom && sound_schedule(day_numbers(ds@), plan.valuation@, maturity),
    }
}

/// The observation dates of a built-in autocallable pass (or there are
/// none).
pub open spec fn observation_dates_ok(plan: BuildPlan, custom: bool, payoff: PayoffType, maturity: int) -> bool {
    match plan.observation_dates {
        Some(ds) => custom || payoff != PayoffType::Autocallable || sound_schedule(
            day_numbers(ds@),
            plan.valuation@,
            maturity,
        ),
        None => true,
    }
}

/// What building gives: the refusal of the first check that fails, or
/// the pricing request of the option.
pub open spec fn build_outcome(
    log: SetterLog,
    plan: BuildPlan,
    checks: AmountChecks,
    r: Result<PricingRequest, RustyQLibError>,
) -> bool {
    match log.misuse {
        Some(e) => r == Err::<PricingRequest, RustyQLibError>(e),
        None => match checks.market {
            Err(e) => r == Err::<PricingRequest, RustyQLibError>(e),
            Ok(_) => exists|rm: Result<Date, RustyQLibError>|
                #[trigger] maturity_outcome(plan.valuation@, plan.maturity, rm) && match rm {
                    Err(e) => r == Err::<PricingRequest, RustyQLibError>(e),
                    Ok(m) => exists|rp: Result<PayoffType, RustyQLibError>|
                        #[trigger] built_payoff_outcome(log, rp) && match rp {
                            Err(e) => r == Err::<PricingRequest, RustyQLibError>(e),
                            Ok(p) => after_payoff(plan, checks, log.custom, m@, p, r),
                        },
                },
        },
    }
}

/// The outcome once the maturity and the payoff family `payoff` are
/// accepted.
pub open spec fn after_payoff(
    plan: BuildPlan,
    checks: AmountChecks,
    custom: bool,
    maturity: int,
    payoff: PayoffType,
    r: Result<PricingRequest, RustyQLibError>,
) -> bool {
    if !bermudan_ok(plan, custom, maturity) {
        exists|rb: Result<Vec<i32>, RustyQLibError>|
            #[trigger] bermudan_outcome(
                custom,
                plan.bermudan_dates->Some_0@,
                plan.valuation@,
                maturity,
                rb,
            ) && match rb {
                Err(e) => r == Err::<PricingRequest, RustyQLibError>(e),
                Ok(_) => false,
            }
    } else {
        match checks.payoff_amounts {
            Err(e) => r == Err::<PricingRequest, RustyQLibError>(e),
            Ok(_) => if counts_observations(custom, payoff) && plan.observations < 1 {
                r is Err && is_invalid_input(r->Err_0, "observations"@, "need at least one observation"@)
            } else if !observation_dates_ok(plan, custom, payoff, maturity) {
                exists|rs: Result<Vec<i32>, RustyQLibError>|
                    #[trigger] schedule_outcome(
                        ScheduleKind::Observation,
                        plan.observation_dates->Some_0@,
                        plan.valuation@,
                        maturity,
                        rs,
                    ) && match rs {
                        Err(e) => r == Err::<PricingRequest, RustyQLibError>(e),
                        Ok(_) => false,
                    }
            } else {
                after_schedules(plan, checks, custom, payoff, r)
            },
        }
    }
}

/// The outcome once the dates and the payoff's amounts are accepted.
pub open spec fn after_schedules(
    plan: BuildPlan,
    checks: AmountChecks,
    custom: bool,
    payoff: PayoffType,
    r: Result<PricingRequest, RustyQLibError>,
) -> bool {
    match checks.late_amounts {
        Err(e) => r == Err::<PricingRequest, RustyQLibError>(e),
        Ok(_) => exists|rf: Result<(), RustyQLibError>|
            #[trigger] futures_outcome(
                plan.futures,
                built_in_vanilla(custom, payoff),
                plan.american,
                rf,
            ) && match rf {
                Err(e) => r == Err::<PricingRequest, RustyQLibError>(e),
                Ok(_) => match checks.model {
                    Err(e) => r == Err::<PricingRequest, RustyQLibError>(e),
                    Ok(_) => exists|rn: Result<(), RustyQLibError>|
                        #[trigger] numerical_outcome(
                            plan.paths,
                            plan.mc_time_steps,
                            plan.tree_steps,
                            plan.fd_spot_steps,
                            plan.fd_time_steps,
                            rn,
                        ) && match rn {
                            Err(e) => r == Err::<PricingRequest, RustyQLibError>(e),
                            Ok(_) => match checks.market_objects {
                                Err(e) => r == Err::<PricingRequest, RustyQLibError>(e),
                                Ok(_) => match support_refusal(request_of(plan, custom, payoff)) {
                                    Some(msg) => r is Err && is_unsupported(r->Err_0, msg),
                                    None => r == Ok::<PricingRequest, RustyQLibError>(
                                        request_of(plan, custom, payoff),
                                    ),
                                },
                            },
                        },
                },
            },
    }
}

fn payoff_is(payoff: PayoffType, family: PayoffType) -> (r: bool)
    ensures
        r == (payoff == family),
{
    payoff == family
}

/// Run the checks of building an option with setter log `log`, plan
/// `plan` and the outcomes `checks` of the checks made outside, in the
/// order building runs them. An option that builds can be priced: its
/// pricing request passes the engine-support rules.
pub fn check_build(log: SetterLog, plan: &BuildPlan, checks: AmountChecks) -> (r: Result<
    PricingRequest,
    RustyQLibError,
>)
    ensures
        build_outcome(log, *plan, checks, r),
        r matches Ok(q) ==> support_refusal(q) is None,
{
    let ghost log0 = log;
    let mut log = log;
    if let Err(e) = log.take_misuse() {
        return Err(e);
    }
    let AmountChecks { market, payoff_amounts, late_amounts, model, market_objects } = checks;
    if let Err(e) = market {
        return Err(e);
    }
    let rm = check_maturity(plan.valuation, plan.maturity);
    let ghost rm_g = rm;
    assert(maturity_outcome(plan.valuation@, plan.maturity, rm_g));
    let maturity = match rm {
        Ok(m) => m,
        Err(e) => return Err(e),
    };
    let rp = log.built_payoff();
    let ghost rp_g = rp;
    assert(built_payoff_outcome(log0, rp_g));
    let payoff = match rp {
        Ok(p) => p,
        Err(e) => return Err(e),
    };
    if let Some(ds) = &plan.bermudan_dates {
        let rb = check_bermudan_dates(log.custom, ds, plan.valuation, maturity);
        let ghost rb_g = rb;
        assert(bermudan_outcome(log.custom, ds@, plan.valuation@, maturity@, rb_g));
        if let Err(e) = rb {
            return Err(e);
        }
    }
    assert(bermudan_ok(*plan, log.custom, maturity@));
    if let Err(e) = payoff_amounts {
        return Err(e);
    }
    let autocallable = !log.custom && payoff_is(payoff, PayoffType::Autocallable);
    let accumulator = !log.custom && payoff_is(payoff, PayoffType::Accumulator);
    if (autocallable || accumulator) && plan.observations < 1 {
        return Err(invalid_input("observations", String::from_str("need at least one observation")));
    }
    if autocallable {
        if let Some(ds) = &plan.observation_dates {
            let rs = check_schedule(ScheduleKind::Observation, ds, plan.valuation, maturity);
            let ghost rs_g = rs;
            assert(schedule_outcome(ScheduleKind::Observation, ds@, plan.valuation@, maturity@, rs_g));
            if let Err(e) = rs {
                return Err(e);
            }
        }
    }
    assert(observation_dates_ok(*plan, log.custom, payoff, maturity@));
    if let Err(e) = late_amounts {
        return Err(e);
    }
    let vanilla = !log.custom && payoff_is(payoff, PayoffType::Vanilla);
    let rf = check_futures_option(plan.futures, vanilla, plan.american);
    let ghost rf_g = rf;
    assert(vanilla == built_in_vanilla(log.custom, payoff));
    assert(futures_outcome(plan.futures, built_in_vanilla(log.custom, payoff), plan.american, rf_g));
    if let Err(e) = rf {
        return Err(e);
    }
    if let Err(e) = model {
        return Err(e);
    }
    let rn = check_numerical_settings(
        plan.paths,
        plan.mc_time_steps,
        plan.tree_steps,
        plan.fd_spot_steps,
        plan.fd_time_steps,
    );
    let ghost rn_g = rn;
    assert(numerical_outcome(
        plan.paths,
        plan.mc_time_steps,
        plan.tree_steps,
        plan.fd_spot_steps,
        plan.fd_time_steps,
        rn_g,
    ));
    if let Err(e) = rn {
        return Err(e);
    }
    if let Err(e) = market_objects {
        return Err(e);
    }
    let exercise = if plan.bermudan_dates.is_some() {
        ExerciseKind::Bermudan
    } else if plan.american {
        ExerciseKind::American
    } else {
        ExerciseKind::European
    };
    let req = if log.custom {
        PricingRequest {
            engine: plan.engine,
            payoff,
            exercise,
            path_dependent: plan.custom_path_dependent,
            futures_option: plan.futures,
            heston: plan.heston,
            rebate_at_hit: plan.rebate_at_hit,
        }
    } else {
        PricingRequest::built_in(plan.engine, payoff, exercise, plan.futures, plan.heston, plan.rebate_at_hit)
    };
    assert(req == request_of(*plan, log.custom, payoff));
    if let Err(e) = check_engine_support(&req) {
        return Err(e);
    }
    Ok(req)
}

proof fn lemma_after_schedules_ok(
    plan: BuildPlan,
    checks: AmountChecks,
    custom: bool,
    payoff: PayoffType,
    r: Result<PricingRequest, RustyQLibError>,
)
    requires
        after_schedules(plan, checks, custom, payoff, r),
        r is Ok,
    ensures
        r->Ok_0 == request_of(plan, custom, payoff),
        support_refusal(r->Ok_0) is None,
{
    let rf = choose|rf: Result<(), RustyQLibError>|
        #[trigger] futures_outcome(plan.futures, built_in_vanilla(custom, payoff), plan.american, rf)
            && match rf {
            Err(e) => r == Err::<PricingRequest, RustyQLibError>(e),
            Ok(_) => match checks.model {
                Err(e) => r == Err::<PricingRequest, RustyQLibError>(e),
                Ok(_) => exists|rn: Result<(), RustyQLibError>|
                    #[trigger] numerical_outcome(
                        plan.paths,
                        plan.mc_time_steps,
                        plan.tree_steps,
                        plan.fd_spot_steps,
                        plan.fd_time_steps,
                        rn,
                    ) && match rn {
                        Err(e) => r == Err::<PricingRequest, RustyQLibError>(e),
                        Ok(_) => match checks.market_objects {
                            Err(e) => r == Err::<PricingRequest, RustyQLibError>(e),
                            Ok(_) => match support_refusal(request_of(plan, custom, payoff)) {
                                Some(msg) => r is Err && is_unsupported(r->Err_0, msg),
                                None => r == Ok::<PricingRequest, RustyQLibError>(
                                    request_of(plan, custom, payoff),
                                ),
                            },
                        },
                    },
            },
        };
    assert(rf is Ok);
    assert(checks.model is Ok);
    let rn = choose|rn: Result<(), RustyQLibError>|
        #[trigger] numerical_outcome(
            plan.paths,
            plan.mc_time_steps,
            plan.tree_steps,
            plan.fd_spot_steps,
            plan.fd_time_steps,
            rn,
        ) && match rn {
            Err(e) => r == Err::<PricingRequest, RustyQLibError>(e),
            Ok(_) => match checks.market_objects {
                Err(e) => r == Err::<PricingRequest, RustyQLibError>(e),
                Ok(_) => match support_refusal(request_of(plan, custom, payoff)) {
                    Some(msg) => r is Err && is_unsupported(r->Err_0, msg),
                    None => r == Ok::<PricingRequest, RustyQLibError>(request_of(plan, custom, payoff)),
                },
            },
        };
    assert(rn is Ok);
}

/// An option that builds is priced on its own engine, with its payoff
/// family, and with the path dependence of its payoff: a custom payoff's
/// own answer, and for the builder's own payoffs that of the family
/// (barrier, Asian, lookback, forward start, autocallable and
/// accumulator depend on the path; vanilla, binary and chooser do not).
/// Its request passes the engine-support rules.
pub proof fn lemma_built_request(
    log: SetterLog,
    plan: BuildPlan,
    checks: AmountChecks,
    r: Result<PricingRequest, RustyQLibError>,
)
    requires
        build_outcome(log, plan, checks, r),
        r is Ok,
    ensures
        log.payoff == Some(r->Ok_0.payoff),
        r->Ok_0.engine == plan.engine,
        log.custom ==> r->Ok_0.path_dependent == plan.custom_path_dependent,
        !log.custom ==> (r->Ok_0.path_dependent <==> (r->Ok_0.payoff == PayoffType::Barrier
            || r->Ok_0.payoff == PayoffType::Asian || r->Ok_0.payoff == PayoffType::Lookback
            || r->Ok_0.payoff == PayoffType::ForwardStart || r->Ok_0.payoff == PayoffType::Autocallable
            || r->Ok_0.payoff == PayoffType::Accumulator)),
        support_refusal(r->Ok_0) is None,
{
    assert(log.misuse is None);
    assert(checks.market is Ok);
    let rm = choose|rm: Result<Date, RustyQLibError>|
        #[trigger] maturity_outcome(plan.valuation@, plan.maturity, rm) && match rm {
            Err(e) => r == Err::<PricingRequest, RustyQLibError>(e),
            Ok(m) => exists|rp: Result<PayoffType, RustyQLibError>|
                #[trigger] built_payoff_outcome(log, rp) && match rp {
                    Err(e) => r == Err::<PricingRequest, RustyQLibError>(e),
                    Ok(p) => after_payoff(plan, checks, log.custom, m@, p, r),
                },
        };
    assert(rm is Ok);
    let m = rm->Ok_0;
    let rp = choose|rp: Result<PayoffType, RustyQLibError>|
        #[trigger] built_payoff_outcome(log, rp) && match rp {
            Err(e) => r == Err::<PricingRequest, RustyQLibError>(e),
            Ok(p) => after_payoff(plan, checks, log.custom, m@, p, r),
        };
    assert(rp is Ok);
    let p = rp->Ok_0;
    assert(log.payoff == Some(p));
    assert(after_payoff(plan, checks, log.custom, m@, p, r));
    assert(bermudan_ok(plan, log.custom, m@));
    assert(checks.payoff_amounts is Ok);
    assert(observation_dates_ok(plan, log.custom, p, m@));
    lemma_after_schedules_ok(plan, checks, log.custom, p, r);
}

/// A custom path-dependent payoff is never built for the Binomial
/// engine.
pub proof fn lemma_custom_path_dependent_not_on_tree(
    log: SetterLog,
    plan: BuildPlan,
    checks: AmountChecks,
    r: Result<PricingRequest, RustyQLibError>,
)
    requires
        build_outcome(log, plan, checks, r),
        log.custom,
        plan.custom_path_dependent,
        plan.engine == Engine::Binomial,
    ensures
        r is Err,
{
    if r is Ok {
        lemma_built_request(log, plan, checks, r);
    }
}

} // verus!
