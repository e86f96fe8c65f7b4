use vstd::prelude::*;
use crate::outcome::State;

verus! {

/// Warn and crit bounds on a metric for which smaller values are worse.
#[derive(Clone, Copy, Debug, PartialEq, Eq, Structural)]
pub struct LevelsChecker {
    pub warn: u64,
    pub crit: u64,
}

/// Severity of `value` against lower bounds `warn` and `crit`.
pub open spec fn level_of(value: u64, warn: u64, crit: u64) -> State {
    if value <= crit {
        State::Crit
    } else if value <= warn {
        State::Warn
    } else {
        State::Notice
    }
}

impl LevelsChecker {
    pub fn new(warn: u64, crit: u64) -> (r: LevelsChecker)
        ensures
            r.warn == warn,
            r.crit == crit,
    {
        LevelsChecker { warn, crit }
    }

    /// Severity of `value`: at or below crit is critical, else at or below warn
    /// is a warning, else a notice.
    pub fn check(&self, value: u64) -> (r: State)
        ensures
            r == level_of(value, self.warn, self.crit),
    {
        if value <= self.crit {
            State::Crit
        } else if value <= self.warn {
            State::Warn
        } else {
            State::Notice
        }
    }
}

} // verus!
