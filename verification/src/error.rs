//! The error reported when contract data or a requested combination of
//! engine, model and payoff is rejected.

use vstd::prelude::*;

verus! {

/// Why an input or a pricing request was refused.
#[derive(Debug)]
pub enum RustyQLibError {
    /// A contract field holds a value outside its domain.
    InvalidInput { field: String, reason: String },
    /// The engine cannot price the requested payoff/model/exercise.
    UnsupportedEngine(String),
}

/// `e` rejects field `field` for reason `reason`.
pub open spec fn is_invalid_input(e: RustyQLibError, field: Seq<char>, reason: Seq<char>) -> bool {
    match e {
        RustyQLibError::InvalidInput { field: f, reason: r } => f@ == field && r@ == reason,
        _ => false,
    }
}

/// `e` refuses the engine with message `msg`.
pub open spec fn is_unsupported(e: RustyQLibError, msg: Seq<char>) -> bool {
    match e {
        RustyQLibError::UnsupportedEngine(m) => m@ == msg,
        _ => false,
    }
}

/// The `InvalidInput` error for `field` with `reason`.
pub fn invalid_input(field: &str, reason: String) -> (e: RustyQLibError)
    ensures
        is_invalid_input(e, field@, reason@),
{
    RustyQLibError::InvalidInput { field: String::from_str(field), reason }
}

/// The `UnsupportedEngine` error with a fixed message.
pub fn unsupported(msg: &str) -> (e: RustyQLibError)
    ensures
        is_unsupported(e, msg@),
{
    RustyQLibError::UnsupportedEngine(String::from_str(msg))
}

} // verus!
