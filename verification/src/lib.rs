//! Verified contract logic of an equity-derivatives pricing library:
//! keyword grammars for contract fields, settlement styles, date
//! schedules, engine/payoff support rules and the integer grid
//! arithmetic of the numerical engines.

pub mod text;
pub mod settlement;
pub mod error;
pub mod grouping;
pub mod support;
pub mod dates;
pub mod grid;
pub mod settings;
pub mod terms;
pub mod pricing;
pub mod dispatch;
pub mod autocall;
pub mod payoff_terms;
pub mod setters;
pub mod option_terms;
pub mod build_checks;
