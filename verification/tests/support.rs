use rustyqlib::error::RustyQLibError;
use rustyqlib::support::{check_engine_support, Engine, ExerciseKind, PayoffType, PricingRequest};

fn request(engine: Engine, payoff: PayoffType, exercise: ExerciseKind) -> PricingRequest {
    PricingRequest::built_in(engine, payoff, exercise, false, false, false)
}

fn engine_refusal(req: &PricingRequest) -> String {
    match check_engine_support(req) {
        Err(RustyQLibError::UnsupportedEngine(m)) => m,
        other => panic!("expected a refusal, got {other:?}"),
    }
}

#[test]
fn european_vanilla_prices_on_every_engine() {
    for engine in [
        Engine::BlackScholes,
        Engine::MonteCarlo,
        Engine::Binomial,
        Engine::FiniteDifference,
        Engine::BaroneAdesiWhaley,
        Engine::BjerksundStensland,
    ] {
        assert!(check_engine_support(&request(engine, PayoffType::Vanilla, ExerciseKind::European)).is_ok());
    }
}

#[test]
fn analytical_engine_refuses_early_exercise() {
    let req = request(Engine::BlackScholes, PayoffType::Vanilla, ExerciseKind::American);
    assert_eq!(
        engine_refusal(&req),
        "Analytical engine cannot price American exercise; use Binomial, FiniteDifference or MonteCarlo"
    );
    assert!(engine_refusal(&req).contains("Analytical engine cannot price American"));
    let req = request(Engine::BlackScholes, PayoffType::Vanilla, ExerciseKind::Bermudan);
    assert_eq!(
        engine_refusal(&req),
        "Analytical engine cannot price early exercise; use Binomial, FiniteDifference or MonteCarlo"
    );
    assert!(check_engine_support(&request(Engine::Binomial, PayoffType::Vanilla, ExerciseKind::American)).is_ok());
}

#[test]
fn futures_options_need_the_analytical_engine() {
    let mut req = request(Engine::MonteCarlo, PayoffType::Vanilla, ExerciseKind::European);
    req.futures_option = true;
    assert_eq!(engine_refusal(&req), "Options on futures (Black-76) price on the Analytical engine only");
    req.engine = Engine::BlackScholes;
    assert!(check_engine_support(&req).is_ok());
    req.exercise = ExerciseKind::American;
    assert_eq!(engine_refusal(&req), "Black-76 supports European exercise only");
}

#[test]
fn chooser_rules() {
    let mut req = request(Engine::MonteCarlo, PayoffType::Chooser, ExerciseKind::European);
    assert_eq!(engine_refusal(&req), "Chooser options price on the Analytical engine (closed form) only");
    req.engine = Engine::BlackScholes;
    req.heston = true;
    assert!(engine_refusal(&req).starts_with("The chooser closed form assumes Black-Scholes dynamics"));
    req.heston = false;
    assert!(check_engine_support(&req).is_ok());
}

#[test]
fn path_dependent_rules() {
    let req = request(Engine::MonteCarlo, PayoffType::Asian, ExerciseKind::American);
    assert_eq!(
        engine_refusal(&req),
        "early-exercise (American/Bermudan) path-dependent options are not supported yet"
    );
    let req = request(Engine::Binomial, PayoffType::Barrier, ExerciseKind::European);
    assert_eq!(engine_refusal(&req), "Path-dependent payoffs are not supported on the Binomial engine");
    let req = request(Engine::FiniteDifference, PayoffType::Asian, ExerciseKind::European);
    assert_eq!(
        engine_refusal(&req),
        "Of the path-dependent payoffs only barriers price on the FD engine; use MonteCarlo"
    );
    assert!(check_engine_support(&request(Engine::FiniteDifference, PayoffType::Barrier, ExerciseKind::European)).is_ok());
    let req = request(Engine::BlackScholes, PayoffType::Autocallable, ExerciseKind::European);
    assert_eq!(engine_refusal(&req), "Autocallables price on the MonteCarlo engine only");
    let req = request(Engine::BlackScholes, PayoffType::Accumulator, ExerciseKind::European);
    assert_eq!(engine_refusal(&req), "Autocallables and accumulators price on the MonteCarlo engine only");
    assert!(engine_refusal(&req).contains("MonteCarlo"));
    assert!(request(Engine::MonteCarlo, PayoffType::Lookback, ExerciseKind::European).path_dependent);
    assert!(!request(Engine::MonteCarlo, PayoffType::Chooser, ExerciseKind::European).path_dependent);
    let mut req = request(Engine::MonteCarlo, PayoffType::Barrier, ExerciseKind::European);
    req.rebate_at_hit = true;
    assert!(engine_refusal(&req).starts_with("at-hit rebates need the touch time"));
    req.engine = Engine::BlackScholes;
    assert!(check_engine_support(&req).is_ok());
}

#[test]
fn heston_rules() {
    let mut req = request(Engine::Binomial, PayoffType::Vanilla, ExerciseKind::European);
    req.heston = true;
    assert!(engine_refusal(&req).ends_with("not Binomial"));
    req.engine = Engine::FiniteDifference;
    assert!(check_engine_support(&req).is_ok());
    req.payoff = PayoffType::Barrier;
    assert!(engine_refusal(&req).starts_with("The Heston ADI engine prices vanilla and binary payoffs"));
}

#[test]
fn american_approximations_name_themselves() {
    let req = request(Engine::BaroneAdesiWhaley, PayoffType::Binary, ExerciseKind::American);
    assert_eq!(engine_refusal(&req), "Barone-Adesi-Whaley approximates vanilla options only");
    let mut req = request(Engine::BjerksundStensland, PayoffType::Vanilla, ExerciseKind::American);
    req.heston = true;
    assert_eq!(
        engine_refusal(&req),
        "Bjerksund-Stensland assumes constant-vol Black-Scholes dynamics, not Heston"
    );
    let req = request(Engine::BjerksundStensland, PayoffType::Vanilla, ExerciseKind::Bermudan);
    assert!(engine_refusal(&req).starts_with("Bjerksund-Stensland approximates American exercise only"));
    assert!(check_engine_support(&request(Engine::BaroneAdesiWhaley, PayoffType::Vanilla, ExerciseKind::American)).is_ok());
}
