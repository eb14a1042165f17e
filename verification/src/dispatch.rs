//! Which pricing method values an option, and how its sensitivities are
//! produced, by engine and model: the routing behind `npv`, bumped
//! repricing and the Greeks.

use vstd::prelude::*;
use crate::support::{support_refusal, Engine, PayoffType, PricingRequest};
use crate::terms::{CliquetPricer, CliquetStyleKind};

verus! {

/// The method that values an option.
#[derive(Debug, Clone, Copy, PartialEq, Eq, Structural)]
pub enum PricingMethod {
    /// Black-76 closed form for an option on a future.
    Black76,
    /// Semi-analytic Heston characteristic-function pricing.
    AnalyticHeston,
    /// Payoff-aware Black-Scholes closed forms.
    BlackScholes,
    MonteCarlo,
    Binomial,
    FiniteDifference,
    BaroneAdesiWhaley,
    BjerksundStensland,
}

/// The central-difference bump sizes a bump route uses.
#[derive(Debug, Clone, Copy, PartialEq, Eq, Structural)]
pub enum BumpPolicyKind {
    /// Monte Carlo: bumps of 1% of the spot.
    MonteCarlo,
    /// Barone-Adesi-Whaley and Bjerksund-Stensland: bumps of 1bp of the
    /// escrowed spot.
    AmericanApproximation,
    /// Analytic Heston.
    AnalyticHeston,
}

/// How the Greeks of an option are produced.
#[derive(Debug, Clone, Copy, PartialEq, Eq, Structural)]
pub enum GreeksRoute {
    /// Read off the finite-difference grid.
    Grid,
    /// Read off the binomial tree.
    Tree,
    /// Black-Scholes closed forms.
    Analytic,
    /// Central differences of bumped reprices.
    Bump(BumpPolicyKind),
}

/// The analytic Heston pricer serves the Analytical and Binomial engines
/// under Heston dynamics.
pub fn analytic_heston(engine: Engine, heston: bool) -> (r: bool)
    ensures
        r == ((engine == Engine::BlackScholes || engine == Engine::Binomial) && heston),
{
    (engine == Engine::BlackScholes || engine == Engine::Binomial) && heston
}

/// The method that values an option (its `npv`).
pub fn npv_method(engine: Engine, heston: bool) -> (r: PricingMethod)
    ensures
        r == spec_npv_method(engine, heston),
{
    match engine {
        Engine::BlackScholes => if heston {
            PricingMethod::AnalyticHeston
        } else {
            PricingMethod::BlackScholes
        },
        Engine::MonteCarlo => PricingMethod::MonteCarlo,
        Engine::Binomial => PricingMethod::Binomial,
        Engine::FiniteDifference => PricingMethod::FiniteDifference,
        Engine::BaroneAdesiWhaley => PricingMethod::BaroneAdesiWhaley,
        Engine::BjerksundStensland => PricingMethod::BjerksundStensland,
    }
}

/// The method that values an option under a bumped market view.
pub fn bumped_method(engine: Engine, heston: bool, futures_option: bool) -> (r: PricingMethod)
    ensures
        r == spec_bumped_method(engine, heston, futures_option),
{
    if futures_option {
        return PricingMethod::Black76;
    }
    match engine {
        Engine::MonteCarlo => PricingMethod::MonteCarlo,
        Engine::FiniteDifference => PricingMethod::FiniteDifference,
        Engine::BaroneAdesiWhaley => PricingMethod::BaroneAdesiWhaley,
        Engine::BjerksundStensland => PricingMethod::BjerksundStensland,
        _ => if analytic_heston(engine, heston) {
            PricingMethod::AnalyticHeston
        } else if engine == Engine::Binomial {
            PricingMethod::Binomial
        } else {
            PricingMethod::BlackScholes
        },
    }
}

/// How the Greeks of an option are produced.
pub fn greeks_route(engine: Engine, heston: bool) -> (r: GreeksRoute)
    ensures
        r == spec_greeks_route(engine, heston),
{
    match engine {
        Engine::MonteCarlo => GreeksRoute::Bump(BumpPolicyKind::MonteCarlo),
        Engine::FiniteDifference => GreeksRoute::Grid,
        Engine::BaroneAdesiWhaley | Engine::BjerksundStensland => GreeksRoute::Bump(
            BumpPolicyKind::AmericanApproximation,
        ),
        _ => if analytic_heston(engine, heston) {
            GreeksRoute::Bump(BumpPolicyKind::AnalyticHeston)
        } else if engine == Engine::Binomial {
            GreeksRoute::Tree
        } else {
            GreeksRoute::Analytic
        },
    }
}

/// The closed form the analytic engine uses for a payoff family; `None`
/// for the families it values at zero.
pub fn analytic_formula(payoff: PayoffType) -> (r: Option<PayoffType>)
    ensures
        r == (match payoff {
            PayoffType::Vanilla | PayoffType::Binary | PayoffType::Barrier | PayoffType::Asian
            | PayoffType::ForwardStart => Some(payoff),
            _ => None,
        }),
{
    match payoff {
        PayoffType::Vanilla | PayoffType::Binary | PayoffType::Barrier | PayoffType::Asian
        | PayoffType::ForwardStart => Some(payoff),
        _ => None,
    }
}

/// The spec of `bumped_method`.
pub open spec fn spec_bumped_method(engine: Engine, heston: bool, futures_option: bool) -> PricingMethod {
    if futures_option {
        PricingMethod::Black76
    } else {
        match engine {
            Engine::MonteCarlo => PricingMethod::MonteCarlo,
            Engine::FiniteDifference => PricingMethod::FiniteDifference,
            Engine::BaroneAdesiWhaley => PricingMethod::BaroneAdesiWhaley,
            Engine::BjerksundStensland => PricingMethod::BjerksundStensland,
            Engine::BlackScholes => if heston {
                PricingMethod::AnalyticHeston
            } else {
                PricingMethod::BlackScholes
            },
            Engine::Binomial => if heston {
                PricingMethod::AnalyticHeston
            } else {
                PricingMethod::Binomial
            },
        }
    }
}

/// The method a route's Greeks are consistent with.
pub open spec fn route_method(route: GreeksRoute, engine: Engine) -> PricingMethod {
    match route {
        GreeksRoute::Grid => PricingMethod::FiniteDifference,
        GreeksRoute::Tree => PricingMethod::Binomial,
        GreeksRoute::Analytic => PricingMethod::BlackScholes,
        GreeksRoute::Bump(BumpPolicyKind::MonteCarlo) => PricingMethod::MonteCarlo,
        GreeksRoute::Bump(BumpPolicyKind::AnalyticHeston) => PricingMethod::AnalyticHeston,
        GreeksRoute::Bump(BumpPolicyKind::AmericanApproximation) => if engine
            == Engine::BaroneAdesiWhaley {
            PricingMethod::BaroneAdesiWhaley
        } else {
            PricingMethod::BjerksundStensland
        },
    }
}

/// The spec of `npv_method`.
pub open spec fn spec_npv_method(engine: Engine, heston: bool) -> PricingMethod {
    match engine {
        Engine::BlackScholes => if heston {
            PricingMethod::AnalyticHeston
        } else {
            PricingMethod::BlackScholes
        },
        Engine::MonteCarlo => PricingMethod::MonteCarlo,
        Engine::Binomial => PricingMethod::Binomial,
        Engine::FiniteDifference => PricingMethod::FiniteDifference,
        Engine::BaroneAdesiWhaley => PricingMethod::BaroneAdesiWhaley,
        Engine::BjerksundStensland => PricingMethod::BjerksundStensland,
    }
}

/// The spec of `greeks_route`.
pub open spec fn spec_greeks_route(engine: Engine, heston: bool) -> GreeksRoute {
    match engine {
        Engine::MonteCarlo => GreeksRoute::Bump(BumpPolicyKind::MonteCarlo),
        Engine::FiniteDifference => GreeksRoute::Grid,
        Engine::BaroneAdesiWhaley | Engine::BjerksundStensland => GreeksRoute::Bump(
            BumpPolicyKind::AmericanApproximation,
        ),
        Engine::BlackScholes => if heston {
            GreeksRoute::Bump(BumpPolicyKind::AnalyticHeston)
        } else {
            GreeksRoute::Analytic
        },
        Engine::Binomial => if heston {
            GreeksRoute::Bump(BumpPolicyKind::AnalyticHeston)
        } else {
            GreeksRoute::Tree
        },
    }
}

/// For every request the support rules admit, the Greeks are produced by
/// the same method that values the option: the route's method is the
/// `npv` method. (Only the Binomial engine under Heston would split the
/// two, and the support rules refuse it.)
pub proof fn lemma_greeks_follow_npv(req: PricingRequest)
    requires
        support_refusal(req) is None,
    ensures
        route_method(spec_greeks_route(req.engine, req.heston), req.engine) == spec_npv_method(
            req.engine,
            req.heston,
        ),
{
}

/// Repricing under an unbumped view uses the `npv` method for every
/// admitted request on a spot underlying.
pub proof fn lemma_bumped_follows_npv(req: PricingRequest)
    requires
        support_refusal(req) is None,
        !req.futures_option,
    ensures
        spec_bumped_method(req.engine, req.heston, false) == spec_npv_method(req.engine, req.heston),
{
}

/// Why the cliquet closed form does not apply, if it does not: a global
/// cap or floor couples the periods; Heston dynamics and the Napoleon's
/// worst-of statistic need simulation.
pub open spec fn cliquet_closed_form_refusal(
    global_floor: bool,
    global_cap: bool,
    heston: bool,
    style: CliquetStyleKind,
) -> Option<Seq<char>> {
    if global_floor || global_cap {
        Some("global cap/floor couples the periods: use Monte Carlo"@)
    } else if heston {
        Some("Heston cliquets price by Monte Carlo"@)
    } else if style == CliquetStyleKind::Napoleon {
        Some("the Napoleon's worst-of statistic prices by Monte Carlo"@)
    } else {
        None
    }
}

/// Whether the cliquet closed form applies to a contract with (or
/// without) a global floor and cap, Heston dynamics, and this style.
pub fn cliquet_closed_form_check(
    global_floor: bool,
    global_cap: bool,
    heston: bool,
    style: CliquetStyleKind,
) -> (r: Result<(), String>)
    ensures
        match cliquet_closed_form_refusal(global_floor, global_cap, heston, style) {
            None => r is Ok,
            Some(msg) => r is Err && r->Err_0@ == msg,
        },
{
    if global_floor || global_cap {
        return Err(String::from_str("global cap/floor couples the periods: use Monte Carlo"));
    }
    if heston {
        return Err(String::from_str("Heston cliquets price by Monte Carlo"));
    }
    if style == CliquetStyleKind::Napoleon {
        return Err(String::from_str("the Napoleon's worst-of statistic prices by Monte Carlo"));
    }
    Ok(())
}

/// The method that actually prices a cliquet: the requested one, except
/// that an analytical request falls back to Monte Carlo where the closed
/// form does not apply.
pub fn cliquet_method(
    pricer: CliquetPricer,
    global_floor: bool,
    global_cap: bool,
    heston: bool,
    style: CliquetStyleKind,
) -> (r: CliquetPricer)
    ensures
        r == (if pricer == CliquetPricer::Analytical && cliquet_closed_form_refusal(
            global_floor,
            global_cap,
            heston,
            style,
        ) is None {
            CliquetPricer::Analytical
        } else {
            CliquetPricer::MonteCarlo
        }),
{
    match pricer {
        CliquetPricer::Analytical => match cliquet_closed_form_check(
            global_floor,
            global_cap,
            heston,
            style,
        ) {
            Ok(()) => CliquetPricer::Analytical,
            Err(_) => CliquetPricer::MonteCarlo,
        },
        CliquetPricer::MonteCarlo => CliquetPricer::MonteCarlo,
    }
}

/// Without Heston every engine values with a method of its own: two
/// engines never share their valuation method (so no engine borrows the
/// tree, or any other engine's method).
pub proof fn lemma_npv_methods_distinct(e1: Engine, e2: Engine)
    requires
        spec_npv_method(e1, false) == spec_npv_method(e2, false),
    ensures
        e1 == e2,
{
}

/// Without Heston the Greeks come from the engine's own valuation
/// method, repriced under bumps for the Monte Carlo engine and for the
/// American approximations (Barone-Adesi-Whaley, Bjerksund-Stensland),
/// read off the grid or tree for the finite-difference and Binomial
/// engines, and from closed forms on the Analytical engine.
pub proof fn lemma_greeks_route_without_heston(e: Engine)
    ensures
        route_method(spec_greeks_route(e, false), e) == spec_npv_method(e, false),
        e == Engine::BaroneAdesiWhaley || e == Engine::BjerksundStensland ==> spec_greeks_route(e, false)
            == GreeksRoute::Bump(BumpPolicyKind::AmericanApproximation),
        e == Engine::MonteCarlo ==> spec_greeks_route(e, false) == GreeksRoute::Bump(BumpPolicyKind::MonteCarlo),
        spec_greeks_route(e, false) == GreeksRoute::Tree <==> e == Engine::Binomial,
        spec_greeks_route(e, false) == GreeksRoute::Grid <==> e == Engine::FiniteDifference,
        spec_bumped_method(e, false, false) == spec_npv_method(e, false),
{
}

} // verus!
