use rustyqlib::autocall::{first_call, phoenix_coupons};
use rustyqlib::dispatch::{
    analytic_formula, analytic_heston, bumped_method, cliquet_closed_form_check, cliquet_method,
    greeks_route, npv_method, BumpPolicyKind, GreeksRoute, PricingMethod,
};
use rustyqlib::support::{Engine, PayoffType};
use rustyqlib::terms::{CliquetPricer, CliquetStyleKind};

#[test]
fn npv_routes_by_engine_and_model() {
    assert_eq!(npv_method(Engine::BlackScholes, false), PricingMethod::BlackScholes);
    assert_eq!(npv_method(Engine::BlackScholes, true), PricingMethod::AnalyticHeston);
    assert_eq!(npv_method(Engine::Binomial, true), PricingMethod::Binomial);
    assert_eq!(npv_method(Engine::MonteCarlo, true), PricingMethod::MonteCarlo);
    assert!(analytic_heston(Engine::Binomial, true));
    assert!(!analytic_heston(Engine::MonteCarlo, true));
}

#[test]
fn bumped_repricing_routes() {
    assert_eq!(bumped_method(Engine::MonteCarlo, false, true), PricingMethod::Black76);
    assert_eq!(bumped_method(Engine::Binomial, true, false), PricingMethod::AnalyticHeston);
    assert_eq!(bumped_method(Engine::Binomial, false, false), PricingMethod::Binomial);
    assert_eq!(bumped_method(Engine::BlackScholes, false, false), PricingMethod::BlackScholes);
    assert_eq!(bumped_method(Engine::BjerksundStensland, true, false), PricingMethod::BjerksundStensland);
}

#[test]
fn greeks_routes() {
    assert_eq!(greeks_route(Engine::FiniteDifference, true), GreeksRoute::Grid);
    assert_eq!(greeks_route(Engine::Binomial, false), GreeksRoute::Tree);
    assert_eq!(greeks_route(Engine::BlackScholes, false), GreeksRoute::Analytic);
    assert_eq!(greeks_route(Engine::BlackScholes, true), GreeksRoute::Bump(BumpPolicyKind::AnalyticHeston));
    assert_eq!(greeks_route(Engine::MonteCarlo, false), GreeksRoute::Bump(BumpPolicyKind::MonteCarlo));
    assert_eq!(
        greeks_route(Engine::BaroneAdesiWhaley, false),
        GreeksRoute::Bump(BumpPolicyKind::AmericanApproximation)
    );
}

#[test]
fn analytic_formulas_by_payoff() {
    assert_eq!(analytic_formula(PayoffType::Barrier), Some(PayoffType::Barrier));
    assert_eq!(analytic_formula(PayoffType::Chooser), None);
    assert_eq!(analytic_formula(PayoffType::Autocallable), None);
}

#[test]
fn cliquet_closed_form_and_fallback() {
    assert!(cliquet_closed_form_check(false, false, false, CliquetStyleKind::Standard).is_ok());
    assert_eq!(
        cliquet_closed_form_check(false, true, false, CliquetStyleKind::Standard).unwrap_err(),
        "global cap/floor couples the periods: use Monte Carlo"
    );
    assert_eq!(
        cliquet_closed_form_check(false, false, true, CliquetStyleKind::Reverse).unwrap_err(),
        "Heston cliquets price by Monte Carlo"
    );
    assert_eq!(
        cliquet_closed_form_check(false, false, false, CliquetStyleKind::Napoleon).unwrap_err(),
        "the Napoleon's worst-of statistic prices by Monte Carlo"
    );
    assert_eq!(
        cliquet_method(CliquetPricer::Analytical, false, false, false, CliquetStyleKind::Reverse),
        CliquetPricer::Analytical
    );
    assert_eq!(
        cliquet_method(CliquetPricer::Analytical, true, false, false, CliquetStyleKind::Standard),
        CliquetPricer::MonteCarlo
    );
    assert_eq!(
        cliquet_method(CliquetPricer::MonteCarlo, false, false, false, CliquetStyleKind::Standard),
        CliquetPricer::MonteCarlo
    );
}

#[test]
fn first_call_is_the_first_breach() {
    assert_eq!(first_call(&vec![false, false, true, true]), Some(2));
    assert_eq!(first_call(&vec![false, false]), None);
    assert_eq!(first_call(&Vec::new()), None);
}

#[test]
fn phoenix_coupon_units_with_and_without_memory() {
    let coupons = vec![false, false, true, false, true];
    let calls = vec![false, false, false, false, false];
    let (units, called) = phoenix_coupons(&coupons, &calls, true);
    assert_eq!(units, vec![0, 0, 3, 0, 2]);
    assert_eq!(called, None);
    let (units, _) = phoenix_coupons(&coupons, &calls, false);
    assert_eq!(units, vec![0, 0, 1, 0, 1]);
}

#[test]
fn phoenix_stops_at_the_call() {
    let coupons = vec![true, false, true, true];
    let calls = vec![false, false, true, true];
    let (units, called) = phoenix_coupons(&coupons, &calls, true);
    assert_eq!(units, vec![1, 0, 2]);
    assert_eq!(called, Some(2));
}

#[test]
fn phoenix_and_athena_are_called_together() {
    let calls = vec![false, true, false, true];
    for coupons in [vec![true, true, true, true], vec![false, false, false, false]] {
        let (units, called) = phoenix_coupons(&coupons, &calls, true);
        assert_eq!(called, first_call(&calls));
        assert_eq!(units.len(), 2);
    }
}

#[test]
fn memory_pays_at_least_the_plain_coupons() {
    let coupons = vec![false, true, false, false, true, true];
    let calls = vec![false; 6];
    let (with_memory, _) = phoenix_coupons(&coupons, &calls, true);
    let (plain, _) = phoenix_coupons(&coupons, &calls, false);
    let mut total_memory = 0;
    let mut total_plain = 0;
    for m in 0..coupons.len() {
        total_memory += with_memory[m];
        total_plain += plain[m];
        assert!(total_plain <= total_memory);
    }
    assert_eq!((total_plain, total_memory), (3, 6));
}
