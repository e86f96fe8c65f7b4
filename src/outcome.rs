use vstd::prelude::*;

verus! {

/// Severity of a check outcome, ordered from healthy to worst.
#[derive(Clone, Copy, Debug, PartialEq, Eq, Structural)]
pub enum State {
    Okay,
    Notice,
    Warn,
    Crit,
}

impl State {
    pub open spec fn rank(self) -> nat {
        match self {
            State::Okay => 0,
            State::Notice => 1,
            State::Warn => 2,
            State::Crit => 3,
        }
    }

    pub fn level(&self) -> (r: u8)
        ensures
            r as nat == self.rank(),
    {
        match self {
            State::Okay => 0,
            State::Notice => 1,
            State::Warn => 2,
            State::Crit => 3,
        }
    }
}

/// The worse of two severities.
pub open spec fn worse(a: State, b: State) -> State {
    if a.rank() >= b.rank() { a } else { b }
}

/// A severity with a summary line and, optionally, a longer detail text.
#[derive(Clone, Debug, PartialEq, Eq)]
pub struct SimpleCheckResult {
    pub state: State,
    pub summary: String,
    pub details: Option<String>,
}

/// What a result says, as values.
pub struct ResultView {
    pub state: State,
    pub summary: Seq<char>,
    pub details: Option<Seq<char>>,
    pub metric: Option<int>,
}

pub open spec fn opt_text(o: Option<String>) -> Option<Seq<char>> {
    match o {
        Some(s) => Some(s@),
        None => None,
    }
}

pub open spec fn simple(state: State, summary: Seq<char>) -> ResultView {
    ResultView { state, summary, details: None, metric: None }
}

impl View for SimpleCheckResult {
    type V = ResultView;

    open spec fn view(&self) -> ResultView {
        ResultView {
            state: self.state,
            summary: self.summary@,
            details: opt_text(self.details),
            metric: None,
        }
    }
}

impl SimpleCheckResult {
    pub fn new(state: State, summary: &str) -> (r: SimpleCheckResult)
        ensures
            r@ == simple(state, summary@),
    {
        SimpleCheckResult { state, summary: String::from_str(summary), details: None }
    }

    pub fn ok(summary: &str) -> (r: SimpleCheckResult)
        ensures
            r@ == simple(State::Okay, summary@),
    {
        SimpleCheckResult::new(State::Okay, summary)
    }

    pub fn notice(summary: &str) -> (r: SimpleCheckResult)
        ensures
            r@ == simple(State::Notice, summary@),
    {
        SimpleCheckResult::new(State::Notice, summary)
    }

    pub fn warn(summary: &str) -> (r: SimpleCheckResult)
        ensures
            r@ == simple(State::Warn, summary@),
    {
        SimpleCheckResult::new(State::Warn, summary)
    }

    pub fn crit(summary: &str) -> (r: SimpleCheckResult)
        ensures
            r@ == simple(State::Crit, summary@),
    {
        SimpleCheckResult::new(State::Crit, summary)
    }

    /// A notice that carries a second form of its text in its details.
    pub fn notice_with_details(summary: &str, details: &str) -> (r: SimpleCheckResult)
        ensures
            r@ == (ResultView {
                state: State::Notice,
                summary: summary@,
                details: Some(details@),
                metric: None,
            }),
    {
        SimpleCheckResult {
            state: State::Notice,
            summary: String::from_str(summary),
            details: Some(String::from_str(details)),
        }
    }
}

/// A result that may carry a numeric metric for performance data.
#[derive(Clone, Debug, PartialEq, Eq)]
pub struct CheckResult {
    pub result: SimpleCheckResult,
    pub metric: Option<i64>,
}

impl View for CheckResult {
    type V = ResultView;

    open spec fn view(&self) -> ResultView {
        ResultView {
            state: self.result.state,
            summary: self.result.summary@,
            details: opt_text(self.result.details),
            metric: match self.metric {
                Some(m) => Some(m as int),
                None => None,
            },
        }
    }
}

impl CheckResult {
    pub fn from_simple(result: SimpleCheckResult) -> (r: CheckResult)
        ensures
            r@ == result@,
    {
        CheckResult { result, metric: None }
    }

    /// A copy of this result.
    pub fn clone_result(&self) -> (r: CheckResult)
        ensures
            r@ == self@,
    {
        let details = match &self.result.details {
            Some(d) => Some(d.clone()),
            None => None,
        };
        CheckResult {
            result: SimpleCheckResult {
                state: self.result.state,
                summary: self.result.summary.clone(),
                details,
            },
            metric: self.metric,
        }
    }

    pub fn with_metric(result: SimpleCheckResult, metric: i64) -> (r: CheckResult)
        ensures
            r@ == (ResultView { metric: Some(metric as int), ..result@ }),
    {
        CheckResult { result, metric: Some(metric) }
    }
}

/// Worst severity over a sequence of results; `Okay` for none.
pub open spec fn worst(s: Seq<ResultView>) -> State
    decreases s.len(),
{
    if s.len() == 0 {
        State::Okay
    } else {
        worse(worst(s.drop_last()), s.last().state)
    }
}

/// The ordered results of one run.
#[derive(Clone, Debug, PartialEq, Eq)]
pub struct Collection {
    pub results: Vec<CheckResult>,
}

impl View for Collection {
    type V = Seq<ResultView>;

    open spec fn view(&self) -> Seq<ResultView> {
        self.results@.map_values(|r: CheckResult| r@)
    }
}

impl Collection {
    /// A report of exactly one critical result, for input that cannot be checked.
    pub fn abort(summary: &str) -> (r: Collection)
        ensures
            r@ == seq![simple(State::Crit, summary@)],
    {
        let mut results: Vec<CheckResult> = Vec::new();
        results.push(CheckResult::from_simple(SimpleCheckResult::crit(summary)));
        let r = Collection { results };
        assert(r@ =~= seq![simple(State::Crit, summary@)]);
        r
    }

    /// Overall status: the worst severity among the results.
    pub fn state(&self) -> (r: State)
        ensures
            r == worst(self@),
    {
        let mut acc = State::Okay;
        let mut i: usize = 0;
        while i < self.results.len()
            invariant
                i <= self.results@.len(),
                acc == worst(self@.take(i as int)),
            decreases self.results@.len() - i,
        {
            proof {
                assert(self@.take(i + 1).drop_last() =~= self@.take(i as int));
            }
            let s = self.results[i].result.state;
            if s.level() > acc.level() {
                acc = s;
            }
            i = i + 1;
        }
        assert(self@.take(i as int) =~= self@);
        acc
    }
}

/// The overall status is the worst severity of any result: no result is worse,
/// one result has it, and a report without results is `Okay`.
pub proof fn lemma_worst_is_maximum(s: Seq<ResultView>)
    ensures
        forall|i: int| 0 <= i < s.len() ==> worst(s).rank() >= (#[trigger] s[i]).state.rank(),
        s.len() == 0 ==> worst(s) == State::Okay,
        s.len() > 0 ==> exists|i: int| 0 <= i < s.len() && worst(s) == (#[trigger] s[i]).state,
    decreases s.len(),
{
    if s.len() > 0 {
        let d = s.drop_last();
        lemma_worst_is_maximum(d);
        assert forall|i: int| 0 <= i < s.len() implies worst(s).rank() >= (#[trigger] s[i]).state.rank() by {
            if i < d.len() {
                assert(s[i] == d[i]);
            }
        }
        if worst(s) == s.last().state {
            assert(s[s.len() - 1] == s.last());
        } else {
            let j = choose|j: int| 0 <= j < d.len() && worst(d) == (#[trigger] d[j]).state;
            assert(s[j] == d[j]);
        }
    }
}

} // verus!
