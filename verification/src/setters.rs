//! The order in which an option's terms are given to its builder: the
//! setters that refine a payoff (a barrier rebate, autocall observation
//! dates or an autocall schedule) must follow the builder's own payoff
//! they refine; a custom payoff is never refined. A misuse does not stop
//! the chain of setters; it is recorded and reported when the option is
//! built.

use vstd::prelude::*;
use crate::error::{invalid_input, is_invalid_input, RustyQLibError};
use crate::support::PayoffType;

verus! {

/// What the builder has recorded of the payoff setters so far.
#[derive(Debug)]
pub struct SetterLog {
    /// The payoff family given last, if any.
    pub payoff: Option<PayoffType>,
    /// The payoff given last is a custom one (of family `payoff`).
    pub custom: bool,
    /// An autocall schedule was requested.
    pub autocall_schedule: bool,
    /// The last refining setter given without the payoff it refines.
    pub misuse: Option<RustyQLibError>,
}

/// The payoff given last is the builder's own payoff of family `family`
/// (not a custom payoff of that family).
pub open spec fn built_in_payoff(log: SetterLog, family: PayoffType) -> bool {
    !log.custom && log.payoff == Some(family)
}

/// The reason a rebate given before any barrier payoff is refused.
pub open spec fn rebate_misuse(e: RustyQLibError) -> bool {
    is_invalid_input(e, "barrier_rebate"@, "barrier_rebate must follow .barrier(...) or .double_barrier(...)"@)
}

/// The reason observation dates given before any autocallable payoff
/// are refused.
pub open spec fn observation_dates_misuse(e: RustyQLibError) -> bool {
    is_invalid_input(
        e,
        "autocall_observation_dates"@,
        "autocall_observation_dates must follow .autocallable(...) or .phoenix(...)"@,
    )
}

/// The reason a schedule requested before any autocallable payoff is
/// refused.
pub open spec fn schedule_misuse(e: RustyQLibError) -> bool {
    is_invalid_input(e, "autocall_schedule"@, "autocall_schedule must follow .autocallable(...) or .phoenix(...)"@)
}

/// What `built_payoff` gives for the setter log `log`.
pub open spec fn built_payoff_outcome(log: SetterLog, r: Result<PayoffType, RustyQLibError>) -> bool {
    match log.payoff {
        None => r is Err && is_invalid_input(
            r->Err_0,
            "payoff"@,
            "set a payoff (vanilla(), barrier(), ...) before build()"@,
        ),
        Some(p) => if log.autocall_schedule && !built_in_payoff(log, PayoffType::Autocallable) {
            r is Err && is_invalid_input(
                r->Err_0,
                "autocall_schedule"@,
                "autocall_schedule set but the payoff is not an autocallable"@,
            )
        } else {
            r == Ok::<PayoffType, RustyQLibError>(p)
        },
    }
}

impl SetterLog {
    /// Nothing given yet.
    pub fn new() -> (r: SetterLog)
        ensures
            r.payoff is None,
            !r.custom,
            !r.autocall_schedule,
            r.misuse is None,
    {
        SetterLog { payoff: None, custom: false, autocall_schedule: false, misuse: None }
    }

    /// Give the payoff family (`vanilla()`, `barrier()`, `phoenix()`, ...),
    /// replacing any earlier one; a recorded misuse stays recorded.
    pub fn set_payoff(&mut self, payoff: PayoffType)
        ensures
            final(self).payoff == Some(payoff),
            !final(self).custom,
            final(self).autocall_schedule == old(self).autocall_schedule,
            final(self).misuse == old(self).misuse,
    {
        self.payoff = Some(payoff);
        self.custom = false;
    }

    /// Give a custom payoff of family `payoff` (`.payoff(...)`), replacing
    /// any earlier payoff; it cannot be refined by the builder's setters.
    /// A recorded misuse stays recorded.
    pub fn set_custom_payoff(&mut self, payoff: PayoffType)
        ensures
            final(self).payoff == Some(payoff),
            final(self).custom,
            final(self).autocall_schedule == old(self).autocall_schedule,
            final(self).misuse == old(self).misuse,
    {
        self.payoff = Some(payoff);
        self.custom = true;
    }

    /// Refine a barrier payoff with a rebate.
    pub fn barrier_rebate(&mut self)
        ensures
            final(self).payoff == old(self).payoff,
            final(self).custom == old(self).custom,
            final(self).autocall_schedule == old(self).autocall_schedule,
            built_in_payoff(*old(self), PayoffType::Barrier) ==> final(self).misuse == old(self).misuse,
            !built_in_payoff(*old(self), PayoffType::Barrier) ==> (final(self).misuse matches Some(e)
                && rebate_misuse(e)),
    {
        if self.custom || self.payoff != Some(PayoffType::Barrier) {
            self.misuse = Some(
                invalid_input(
                    "barrier_rebate",
                    String::from_str("barrier_rebate must follow .barrier(...) or .double_barrier(...)"),
                ),
            );
        }
    }

    /// Refine an autocallable payoff with explicit observation dates.
    pub fn autocall_observation_dates(&mut self)
        ensures
            final(self).payoff == old(self).payoff,
            final(self).custom == old(self).custom,
            final(self).autocall_schedule == old(self).autocall_schedule,
            built_in_payoff(*old(self), PayoffType::Autocallable) ==> final(self).misuse == old(self).misuse,
            !built_in_payoff(*old(self), PayoffType::Autocallable) ==> (final(self).misuse matches Some(e)
                && observation_dates_misuse(e)),
    {
        if self.custom || self.payoff != Some(PayoffType::Autocallable) {
            self.misuse = Some(
                invalid_input(
                    "autocall_observation_dates",
                    String::from_str(
                        "autocall_observation_dates must follow .autocallable(...) or .phoenix(...)",
                    ),
                ),
            );
        }
    }

    /// Refine an autocallable payoff with a generated schedule; refused
    /// (and not requested) when no autocallable payoff is given yet.
    pub fn autocall_schedule(&mut self)
        ensures
            final(self).payoff == old(self).payoff,
            final(self).custom == old(self).custom,
            built_in_payoff(*old(self), PayoffType::Autocallable) ==> final(self).autocall_schedule
                && final(self).misuse == old(self).misuse,
            !built_in_payoff(*old(self), PayoffType::Autocallable) ==> final(self).autocall_schedule
                == old(self).autocall_schedule && (final(self).misuse matches Some(e) && schedule_misuse(e)),
    {
        if self.custom || self.payoff != Some(PayoffType::Autocallable) {
            self.misuse = Some(
                invalid_input(
                    "autocall_schedule",
                    String::from_str("autocall_schedule must follow .autocallable(...) or .phoenix(...)"),
                ),
            );
            return;
        }
        self.autocall_schedule = true;
    }

    /// The first check of a build: a recorded misuse refuses it.
    pub fn take_misuse(&mut self) -> (r: Result<(), RustyQLibError>)
        ensures
            final(self).payoff == old(self).payoff,
            final(self).custom == old(self).custom,
            final(self).autocall_schedule == old(self).autocall_schedule,
            final(self).misuse is None,
            match old(self).misuse {
                Some(e) => r == Err::<(), RustyQLibError>(e),
                None => r is Ok,
            },
    {
        match self.misuse.take() {
            Some(e) => Err(e),
            None => Ok(()),
        }
    }

    /// The payoff the option is built with, once the market data and
    /// dates are checked: it must be given, and a requested autocall
    /// schedule needs it to be the builder's own autocallable.
    pub fn built_payoff(&self) -> (r: Result<PayoffType, RustyQLibError>)
        ensures
            built_payoff_outcome(*self, r),
    {
        match self.payoff {
            None => Err(
                invalid_input("payoff", String::from_str("set a payoff (vanilla(), barrier(), ...) before build()")),
            ),
            Some(p) => {
                if self.autocall_schedule && (self.custom || p != PayoffType::Autocallable) {
                    return Err(
                        invalid_input(
                            "autocall_schedule",
                            String::from_str("autocall_schedule set but the payoff is not an autocallable"),
                        ),
                    );
                }
                Ok(p)
            },
        }
    }
}

} // verus!
