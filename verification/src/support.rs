//! Which engine/model/payoff/exercise combinations the library can
//! price. A request that fails these rules is refused with an error that
//! names the engine that can price it, instead of being mispriced.

use vstd::prelude::*;
use crate::error::{is_unsupported, unsupported, RustyQLibError};

verus! {

/// The numerical method an option prices with.
#[derive(Debug, Clone, Copy, PartialEq, Eq, Structural)]
pub enum Engine {
    BlackScholes,
    MonteCarlo,
    Binomial,
    FiniteDifference,
    BaroneAdesiWhaley,
    BjerksundStensland,
}

/// The payoff family of an option.
#[derive(Debug, Clone, Copy, PartialEq, Eq, Structural)]
pub enum PayoffType {
    Vanilla,
    Binary,
    Barrier,
    Asian,
    Lookback,
    Chooser,
    ForwardStart,
    Autocallable,
    Accumulator,
}

/// When the holder may exercise.
#[derive(Debug, Clone, Copy, PartialEq, Eq, Structural)]
pub enum ExerciseKind {
    European,
    American,
    Bermudan,
}

/// What the support rules read of a priced option.
#[derive(Debug, Clone, Copy, PartialEq, Eq, Structural)]
pub struct PricingRequest {
    pub engine: Engine,
    pub payoff: PayoffType,
    pub exercise: ExerciseKind,
    /// The payoff depends on the whole path, not only on the terminal spot.
    pub path_dependent: bool,
    /// The underlying is a future priced with Black-76.
    pub futures_option: bool,
    /// The dynamics are Heston stochastic volatility.
    pub heston: bool,
    /// A barrier payoff carries a non-zero rebate paid at the touch.
    pub rebate_at_hit: bool,
}


/// The built-in payoff families whose value depends on the whole path,
/// not only on the terminal spot.
pub open spec fn path_dependent_payoff(payoff: PayoffType) -> bool {
    ||| payoff == PayoffType::Barrier
    ||| payoff == PayoffType::Asian
    ||| payoff == PayoffType::Lookback
    ||| payoff == PayoffType::ForwardStart
    ||| payoff == PayoffType::Autocallable
    ||| payoff == PayoffType::Accumulator
}

impl PricingRequest {
    /// The request for a built-in payoff: its path dependence follows
    /// from its family (a custom payoff states its own).
    pub fn built_in(
        engine: Engine,
        payoff: PayoffType,
        exercise: ExerciseKind,
        futures_option: bool,
        heston: bool,
        rebate_at_hit: bool,
    ) -> (r: PricingRequest)
        ensures
            r == (PricingRequest {
                engine,
                payoff,
                exercise,
                path_dependent: path_dependent_payoff(payoff),
                futures_option,
                heston,
                rebate_at_hit,
            }),
    {
        let path_dependent = match payoff {
            PayoffType::Barrier | PayoffType::Asian | PayoffType::Lookback | PayoffType::ForwardStart
            | PayoffType::Autocallable | PayoffType::Accumulator => true,
            _ => false,
        };
        PricingRequest { engine, payoff, exercise, path_dependent, futures_option, heston, rebate_at_hit }
    }
}

/// The refusal message for `req`, or `None` when it can be priced. The
/// rules are tried in this order and the first that applies decides.
pub open spec fn support_refusal(req: PricingRequest) -> Option<Seq<char>> {
    let bermudan = req.exercise == ExerciseKind::Bermudan;
    let early = req.exercise != ExerciseKind::European;
    let name: Seq<char> = if req.engine == Engine::BaroneAdesiWhaley {
        "Barone-Adesi-Whaley"@
    } else {
        "Bjerksund-Stensland"@
    };
    if req.futures_option && req.engine != Engine::BlackScholes {
        Some("Options on futures (Black-76) price on the Analytical engine only"@)
    } else if req.futures_option && early {
        Some("Black-76 supports European exercise only"@)
    } else if req.payoff == PayoffType::Chooser && req.engine != Engine::BlackScholes {
        Some("Chooser options price on the Analytical engine (closed form) only"@)
    } else if req.payoff == PayoffType::Chooser && req.heston {
        Some(
            "The chooser closed form assumes Black-Scholes dynamics; the analytic Heston pricer covers vanilla and binary payoffs only"@,
        )
    } else if req.path_dependent && early {
        Some("early-exercise (American/Bermudan) path-dependent options are not supported yet"@)
    } else if req.path_dependent && req.engine == Engine::Binomial {
        Some("Path-dependent payoffs are not supported on the Binomial engine"@)
    } else if req.path_dependent && req.engine == Engine::FiniteDifference && req.payoff
        != PayoffType::Barrier {
        Some(
            "Of the path-dependent payoffs only barriers price on the FD engine; use MonteCarlo"@,
        )
    } else if req.path_dependent && req.engine == Engine::BlackScholes && req.payoff
        == PayoffType::Autocallable {
        Some("Autocallables price on the MonteCarlo engine only"@)
    } else if req.path_dependent && req.engine == Engine::BlackScholes && req.payoff
        == PayoffType::Accumulator {
        Some("Autocallables and accumulators price on the MonteCarlo engine only"@)
    } else if req.path_dependent && req.engine == Engine::MonteCarlo && req.payoff
        == PayoffType::Barrier && req.rebate_at_hit {
        Some(
            "at-hit rebates need the touch time: price on the Analytical engine (Monte Carlo supports the at-expiry rebate convention)"@,
        )
    } else if req.heston && req.engine == Engine::Binomial {
        Some(
            "The Heston model is supported on the Analytical, MonteCarlo and FiniteDifference (2-D ADI) engines, not Binomial"@,
        )
    } else if req.heston && req.engine == Engine::FiniteDifference && req.payoff
        != PayoffType::Vanilla && req.payoff != PayoffType::Binary {
        Some(
            "The Heston ADI engine prices vanilla and binary payoffs; use MonteCarlo for path-dependent payoffs"@,
        )
    } else if req.engine == Engine::BlackScholes && req.exercise == ExerciseKind::American {
        Some(
            "Analytical engine cannot price American exercise; use Binomial, FiniteDifference or MonteCarlo"@,
        )
    } else if req.engine == Engine::BlackScholes && bermudan {
        Some(
            "Analytical engine cannot price early exercise; use Binomial, FiniteDifference or MonteCarlo"@,
        )
    } else if req.engine == Engine::BaroneAdesiWhaley || req.engine
        == Engine::BjerksundStensland {
        if req.payoff != PayoffType::Vanilla {
            Some(name + " approximates vanilla options only"@)
        } else if req.heston {
            Some(name + " assumes constant-vol Black-Scholes dynamics, not Heston"@)
        } else if bermudan {
            Some(
                name
                    + " approximates American exercise only; Bermudan prices on Binomial, FiniteDifference or MonteCarlo"@,
            )
        } else {
            None
        }
    } else {
        None
    }
}

/// Refuse the combinations of engine, model, payoff and exercise that
/// the library cannot price.
pub fn check_engine_support(req: &PricingRequest) -> (r: Result<(), RustyQLibError>)
    ensures
        match support_refusal(*req) {
            None => r is Ok,
            Some(msg) => r is Err && is_unsupported(r->Err_0, msg),
        },
{
    let bermudan = req.exercise == ExerciseKind::Bermudan;
    let early = req.exercise != ExerciseKind::European;
    if req.futures_option {
        if req.engine != Engine::BlackScholes {
            return Err(
                unsupported("Options on futures (Black-76) price on the Analytical engine only"),
            );
        }
        if early {
            return Err(unsupported("Black-76 supports European exercise only"));
        }
    }
    if req.payoff == PayoffType::Chooser {
        if req.engine != Engine::BlackScholes {
            return Err(
                unsupported("Chooser options price on the Analytical engine (closed form) only"),
            );
        }
        if req.heston {
            return Err(
                unsupported(
                    "The chooser closed form assumes Black-Scholes dynamics; the analytic Heston pricer covers vanilla and binary payoffs only",
                ),
            );
        }
    }
    if req.path_dependent {
        if early {
            return Err(
                unsupported(
                    "early-exercise (American/Bermudan) path-dependent options are not supported yet",
                ),
            );
        }
        if req.engine == Engine::Binomial {
            return Err(unsupported("Path-dependent payoffs are not supported on the Binomial engine"));
        }
        if req.engine == Engine::FiniteDifference && req.payoff != PayoffType::Barrier {
            return Err(
                unsupported(
                    "Of the path-dependent payoffs only barriers price on the FD engine; use MonteCarlo",
                ),
            );
        }
        if req.engine == Engine::BlackScholes && req.payoff == PayoffType::Autocallable {
            return Err(unsupported("Autocallables price on the MonteCarlo engine only"));
        }
        if req.engine == Engine::BlackScholes && req.payoff == PayoffType::Accumulator {
            return Err(unsupported("Autocallables and accumulators price on the MonteCarlo engine only"));
        }
        if req.engine == Engine::MonteCarlo && req.payoff == PayoffType::Barrier
            && req.rebate_at_hit {
            return Err(
                unsupported(
                    "at-hit rebates need the touch time: price on the Analytical engine (Monte Carlo supports the at-expiry rebate convention)",
                ),
            );
        }
    }
    if req.heston && req.engine == Engine::Binomial {
        return Err(
            unsupported(
                "The Heston model is supported on the Analytical, MonteCarlo and FiniteDifference (2-D ADI) engines, not Binomial",
            ),
        );
    }
    if req.heston && req.engine == Engine::FiniteDifference && req.payoff != PayoffType::Vanilla
        && req.payoff != PayoffType::Binary {
        return Err(
            unsupported(
                "The Heston ADI engine prices vanilla and binary payoffs; use MonteCarlo for path-dependent payoffs",
            ),
        );
    }
    if req.engine == Engine::BlackScholes && req.exercise == ExerciseKind::American {
        return Err(
            unsupported(
                "Analytical engine cannot price American exercise; use Binomial, FiniteDifference or MonteCarlo",
            ),
        );
    }
    if req.engine == Engine::BlackScholes && bermudan {
        return Err(
            unsupported(
                "Analytical engine cannot price early exercise; use Binomial, FiniteDifference or MonteCarlo",
            ),
        );
    }
    if req.engine == Engine::BaroneAdesiWhaley || req.engine == Engine::BjerksundStensland {
        let name = if req.engine == Engine::BaroneAdesiWhaley {
            "Barone-Adesi-Whaley"
        } else {
            "Bjerksund-Stensland"
        };
        if req.payoff != PayoffType::Vanilla {
            let mut m = String::from_str(name);
            m.append(" approximates vanilla options only");
            return Err(RustyQLibError::UnsupportedEngine(m));
        }
        if req.heston {
            let mut m = String::from_str(name);
            m.append(" assumes constant-vol Black-Scholes dynamics, not Heston");
            return Err(RustyQLibError::UnsupportedEngine(m));
        }
        if bermudan {
            let mut m = String::from_str(name);
            m.append(
                " approximates American exercise only; Bermudan prices on Binomial, FiniteDifference or MonteCarlo",
            );
            return Err(RustyQLibError::UnsupportedEngine(m));
        }
    }
    Ok(())
}

/// The support rules never admit: an option on a future off the
/// Analytical engine or with early exercise; a chooser off the
/// Analytical engine or under Heston; an early-exercise or tree-priced
/// path-dependent payoff; Heston on the Binomial engine; early exercise
/// on the Analytical engine; and a non-vanilla, Heston or Bermudan
/// request on the American approximations (Barone-Adesi-Whaley,
/// Bjerksund-Stensland).
pub proof fn lemma_accepted_requests(req: PricingRequest)
    requires
        support_refusal(req) is None,
    ensures
        req.futures_option ==> req.engine == Engine::BlackScholes && req.exercise
            == ExerciseKind::European,
        req.payoff == PayoffType::Chooser ==> req.engine == Engine::BlackScholes && !req.heston,
        req.path_dependent ==> req.exercise == ExerciseKind::European && req.engine
            != Engine::Binomial,
        req.path_dependent && req.engine == Engine::FiniteDifference ==> req.payoff
            == PayoffType::Barrier,
        req.heston ==> req.engine != Engine::Binomial,
        req.engine == Engine::BlackScholes ==> req.exercise == ExerciseKind::European,
        req.engine == Engine::BaroneAdesiWhaley || req.engine == Engine::BjerksundStensland
            ==> req.payoff == PayoffType::Vanilla && !req.heston && req.exercise
            != ExerciseKind::Bermudan,
{
}

/// A built-in path-dependent payoff (barrier, Asian, lookback, forward
/// start, autocallable, accumulator) is never admitted with early
/// exercise or on the Binomial engine, an autocallable or accumulator
/// never on the Analytical engine, and on the finite-difference engine
/// only a barrier is.
pub proof fn lemma_built_in_path_dependent_requests(req: PricingRequest)
    requires
        req.path_dependent == path_dependent_payoff(req.payoff),
        path_dependent_payoff(req.payoff),
        support_refusal(req) is None,
    ensures
        req.exercise == ExerciseKind::European,
        req.engine != Engine::Binomial,
        req.engine == Engine::BlackScholes ==> req.payoff != PayoffType::Autocallable && req.payoff
            != PayoffType::Accumulator,
        req.engine == Engine::FiniteDifference ==> req.payoff == PayoffType::Barrier,
{
}

/// Monte Carlo prices every European payoff but the chooser, off a
/// future and without Heston, except a barrier whose rebate is paid at
/// the touch: in particular a European barrier without an at-hit rebate
/// is admitted there.
pub proof fn lemma_monte_carlo_admits_european(req: PricingRequest)
    requires
        req.engine == Engine::MonteCarlo,
        req.exercise == ExerciseKind::European,
        !req.futures_option,
        !req.heston,
        req.payoff != PayoffType::Chooser,
        req.payoff == PayoffType::Barrier ==> !req.rebate_at_hit,
    ensures
        support_refusal(req) is None,
{
}

/// Only an at-hit rebate makes Monte Carlo refuse a barrier: a refusal
/// of a European barrier on Monte Carlo, off a future and without
/// Heston, means its rebate is paid at the touch.
pub proof fn lemma_at_hit_refusal_needs_at_hit_rebate(req: PricingRequest)
    requires
        req.engine == Engine::MonteCarlo,
        req.payoff == PayoffType::Barrier,
        req.exercise == ExerciseKind::European,
        !req.futures_option,
        !req.heston,
        support_refusal(req) is Some,
    ensures
        req.rebate_at_hit,
        req.path_dependent,
{
}

} // verus!
