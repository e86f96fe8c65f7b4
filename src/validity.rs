use vstd::prelude::*;
use crate::levels::{level_of, LevelsChecker};
use crate::outcome::{simple, CheckResult, ResultView, SimpleCheckResult, State};
use crate::rules::opt_view;
use crate::text::{dec, decimal, join2};

verus! {

pub const SECONDS_PER_DAY: u64 = 86400;

/// Whole days in a non-negative number of seconds.
pub open spec fn whole_days(seconds: nat) -> nat {
    seconds / 86400
}

/// The view of an optional result with a metric.
pub open spec fn opt_metric_view(o: Option<CheckResult>) -> Option<ResultView> {
    match o {
        Some(r) => Some(r@),
        None => None,
    }
}

/// The expiration rule. `time_to_expiration` is the number of seconds until the
/// certificate expires, or `None` outside its validity window: once expired,
/// and also before `not_before`, where it is reported as expired too. Such a
/// certificate is critical whatever the levels say; otherwise the levels decide,
/// and the result carries the whole days left.
pub open spec fn expiration_rule(
    time_to_expiration: Option<u64>,
    levels: Option<LevelsChecker>,
    not_after: Seq<char>,
) -> Option<ResultView> {
    match levels {
        None => None,
        Some(l) => Some(
            match time_to_expiration {
                None => simple(State::Crit, "Certificate expired ("@ + not_after + ")"@),
                Some(t) => ResultView {
                    state: level_of(t, l.warn, l.crit),
                    summary: "Certificate expires in "@ + dec(whole_days(t as nat)) + " day(s) ("@
                        + not_after + ")"@,
                    details: None,
                    metric: Some(whole_days(t as nat) as int),
                },
            },
        ),
    }
}

/// Checks the time left until expiration against the levels, if levels are set.
pub fn check_validity_not_after(
    time_to_expiration: Option<u64>,
    levels: Option<LevelsChecker>,
    not_after: &str,
) -> (r: Option<CheckResult>)
    ensures
        opt_metric_view(r) == expiration_rule(time_to_expiration, levels, not_after@),
{
    match levels {
        None => None,
        Some(l) => match time_to_expiration {
            None => {
                let s = join2("Certificate expired (", not_after).concat(")");
                Some(CheckResult::from_simple(SimpleCheckResult::crit(s.as_str())))
            },
            Some(t) => {
                let days = t / SECONDS_PER_DAY;
                let s = join2("Certificate expires in ", decimal(days as u128).as_str())
                    .concat(" day(s) (")
                    .concat(not_after)
                    .concat(")");
                let state = l.check(t);
                let r = SimpleCheckResult::new(state, s.as_str());
                Some(CheckResult::with_metric(r, days as i64))
            },
        },
    }
}

/// The maximum validity rule: the lifetime from `not_before` to `not_after`
/// (seconds since the epoch) must be positive, and, truncated to whole days,
/// at most `max_validity` seconds.
pub open spec fn max_validity_rule(not_before: i64, not_after: i64, max_validity: Option<u64>) -> Option<ResultView> {
    match max_validity {
        None => None,
        Some(m) => Some(
            if not_after <= not_before {
                simple(State::Crit, "Invalid certificate validity"@)
            } else if whole_days((not_after - not_before) as nat) * 86400 <= m {
                simple(State::Notice, "Max validity "@ + dec(whole_days((not_after - not_before) as nat)) + " days"@)
            } else {
                simple(
                    State::Warn,
                    "Max validity is "@ + dec(whole_days((not_after - not_before) as nat))
                        + " days but expected at most "@ + dec(whole_days(m as nat)),
                )
            },
        ),
    }
}

/// Checks the certificate's total lifetime against a maximum, if one is set.
pub fn check_max_validity(not_before: i64, not_after: i64, max_validity: Option<u64>) -> (r: Option<SimpleCheckResult>)
    ensures
        opt_view(r) == max_validity_rule(not_before, not_after, max_validity),
{
    match max_validity {
        None => None,
        Some(m) => {
            if not_after <= not_before {
                Some(SimpleCheckResult::crit("Invalid certificate validity"))
            } else {
                let total = (not_after as i128 - not_before as i128) as u128;
                let whole = total / (SECONDS_PER_DAY as u128);
                let days = decimal(whole);
                if whole * (SECONDS_PER_DAY as u128) <= m as u128 {
                    let s = join2("Max validity ", days.as_str()).concat(" days");
                    Some(SimpleCheckResult::notice(s.as_str()))
                } else {
                    let s = join2("Max validity is ", days.as_str())
                        .concat(" days but expected at most ")
                        .concat(decimal((m / SECONDS_PER_DAY) as u128).as_str());
                    Some(SimpleCheckResult::warn(s.as_str()))
                }
            }
        },
    }
}

/// An expired certificate is critical whatever the levels are.
pub proof fn lemma_expired_is_critical(levels: LevelsChecker, not_after: Seq<char>)
    ensures
        expiration_rule(None, Some(levels), not_after)
            == Some(simple(State::Crit, "Certificate expired ("@ + not_after + ")"@)),
{
}

} // verus!
