//! The analytic pricer handle and the vanilla payoff's contract terms.

use vstd::prelude::*;
use crate::support::{ExerciseKind, PayoffType};
use crate::terms::PutOrCall;

verus! {

/// The closed-form Black-Scholes pricer (a stateless handle).
pub struct BlackScholesPricer;

impl BlackScholesPricer {
    pub fn new() -> (r: Self)
        ensures
            r == BlackScholesPricer,
    {
        BlackScholesPricer
    }
}

/// The interactive implied-volatility entry point; it does nothing.
pub fn implied_volatility() {
}

/// A plain call or put with its exercise style.
#[derive(Debug, Clone, Copy, PartialEq, Eq, Structural)]
pub struct VanillaPayoff {
    pub put_or_call: PutOrCall,
    pub exercise_style: ExerciseKind,
}

impl VanillaPayoff {
    /// The payoff family: vanilla.
    pub fn payoff_kind(&self) -> (r: PayoffType)
        ensures
            r == PayoffType::Vanilla,
    {
        PayoffType::Vanilla
    }

    /// Call or put.
    pub fn put_or_call(&self) -> (r: PutOrCall)
        ensures
            r == self.put_or_call,
    {
        self.put_or_call
    }

    /// When the holder may exercise.
    pub fn exercise_style(&self) -> (r: ExerciseKind)
        ensures
            r == self.exercise_style,
    {
        self.exercise_style
    }
}

} // verus!
