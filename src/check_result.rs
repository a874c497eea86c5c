use vstd::prelude::*;

use crate::metric::{metric_map_requires, metric_mapped, Metric};
use crate::state::State;

verus! {

/// The characters of an optional text.
pub open spec fn text_of(o: Option<String>) -> Option<Seq<char>> {
    match o {
        Some(s) => Some(s@),
        None => None,
    }
}

/// A text as stored in a finding: an empty text is absent.
pub open spec fn normalized(s: Seq<char>) -> Option<Seq<char>> {
    if s.len() == 0 {
        None
    } else {
        Some(s)
    }
}

/// The text as stored in a finding; `None` when it is empty.
pub fn as_option(s: &str) -> (r: Option<String>)
    ensures
        text_of(r) == normalized(s@),
{
    if s.is_empty() {
        None
    } else {
        Some(s.to_owned())
    }
}

/// A finding without a measurement.
#[derive(Debug, PartialEq)]
pub struct SimpleCheckResult {
    pub state: State,
    pub summary: Option<String>,
    pub details: Option<String>,
}

impl Default for SimpleCheckResult {
    fn default() -> (r: SimpleCheckResult)
        ensures
            r.state == State::Okay,
            r.summary.is_none(),
            r.details.is_none(),
    {
        SimpleCheckResult { state: State::Okay, summary: None, details: None }
    }
}

impl SimpleCheckResult {
    pub fn new(state: State, summary: Option<String>, details: Option<String>) -> (r: Self)
        ensures
            r == (SimpleCheckResult { state, summary, details }),
    {
        SimpleCheckResult { state, summary, details }
    }

    /// An `Okay` finding whose text goes to the details only.
    pub fn notice(details: &str) -> (r: Self)
        ensures
            r.state == State::Okay,
            r.summary.is_none(),
            text_of(r.details) == normalized(details@),
    {
        Self::new(State::Okay, None, as_option(details))
    }

    pub fn ok(summary: &str) -> (r: Self)
        ensures
            r.state == State::Okay,
            text_of(r.summary) == normalized(summary@),
            r.details.is_none(),
    {
        Self::new(State::Okay, as_option(summary), None)
    }

    pub fn warn(summary: &str) -> (r: Self)
        ensures
            r.state == State::Warn,
            text_of(r.summary) == normalized(summary@),
            r.details.is_none(),
    {
        Self::new(State::Warn, as_option(summary), None)
    }

    pub fn crit(summary: &str) -> (r: Self)
        ensures
            r.state == State::Crit,
            text_of(r.summary) == normalized(summary@),
            r.details.is_none(),
    {
        Self::new(State::Crit, as_option(summary), None)
    }

    pub fn unknown(summary: &str) -> (r: Self)
        ensures
            r.state == State::Unknown,
            text_of(r.summary) == normalized(summary@),
            r.details.is_none(),
    {
        Self::new(State::Unknown, as_option(summary), None)
    }

    pub fn ok_with_details(summary: &str, details: &str) -> (r: Self)
        ensures
            r.state == State::Okay,
            text_of(r.summary) == normalized(summary@),
            text_of(r.details) == normalized(details@),
    {
        Self::new(State::Okay, as_option(summary), as_option(details))
    }

    pub fn warn_with_details(summary: &str, details: &str) -> (r: Self)
        ensures
            r.state == State::Warn,
            text_of(r.summary) == normalized(summary@),
            text_of(r.details) == normalized(details@),
    {
        Self::new(State::Warn, as_option(summary), as_option(details))
    }

    pub fn crit_with_details(summary: &str, details: &str) -> (r: Self)
        ensures
            r.state == State::Crit,
            text_of(r.summary) == normalized(summary@),
            text_of(r.details) == normalized(details@),
    {
        Self::new(State::Crit, as_option(summary), as_option(details))
    }
}

/// A finding: a severity, optional summary and details, optional measurement.
#[derive(Debug)]
pub struct CheckResult<T> {
    pub state: State,
    pub summary: Option<String>,
    pub details: Option<String>,
    pub metrics: Option<Metric<T>>,
}

impl<T> Default for CheckResult<T> {
    fn default() -> (r: CheckResult<T>)
        ensures
            r.state == State::Okay,
            r.summary.is_none(),
            r.details.is_none(),
            r.metrics.is_none(),
    {
        CheckResult { state: State::Okay, summary: None, details: None, metrics: None }
    }
}

impl<T> CheckResult<T> {
    pub fn new(
        state: State,
        summary: Option<String>,
        details: Option<String>,
        metrics: Option<Metric<T>>,
    ) -> (r: Self)
        ensures
            r == (CheckResult { state, summary, details, metrics }),
    {
        CheckResult { state, summary, details, metrics }
    }

    /// An `Okay` finding whose text goes to the details only.
    pub fn notice(details: &str, metrics: Metric<T>) -> (r: Self)
        ensures
            r.state == State::Okay,
            r.summary.is_none(),
            text_of(r.details) == normalized(details@),
            r.metrics == Some(metrics),
    {
        Self::new(State::Okay, None, as_option(details), Some(metrics))
    }

    pub fn ok(summary: &str, metrics: Metric<T>) -> (r: Self)
        ensures
            r.state == State::Okay,
            text_of(r.summary) == normalized(summary@),
            r.details.is_none(),
            r.metrics == Some(metrics),
    {
        Self::new(State::Okay, as_option(summary), None, Some(metrics))
    }

    pub fn warn(summary: &str, metrics: Metric<T>) -> (r: Self)
        ensures
            r.state == State::Warn,
            text_of(r.summary) == normalized(summary@),
            r.details.is_none(),
            r.metrics == Some(metrics),
    {
        Self::new(State::Warn, as_option(summary), None, Some(metrics))
    }

    pub fn crit(summary: &str, metrics: Metric<T>) -> (r: Self)
        ensures
            r.state == State::Crit,
            text_of(r.summary) == normalized(summary@),
            r.details.is_none(),
            r.metrics == Some(metrics),
    {
        Self::new(State::Crit, as_option(summary), None, Some(metrics))
    }

    pub fn unknown(summary: &str, metrics: Metric<T>) -> (r: Self)
        ensures
            r.state == State::Unknown,
            text_of(r.summary) == normalized(summary@),
            r.details.is_none(),
            r.metrics == Some(metrics),
    {
        Self::new(State::Unknown, as_option(summary), None, Some(metrics))
    }

    pub fn ok_with_details(summary: &str, details: &str, metrics: Metric<T>) -> (r: Self)
        ensures
            r.state == State::Okay,
            text_of(r.summary) == normalized(summary@),
            text_of(r.details) == normalized(details@),
            r.metrics == Some(metrics),
    {
        Self::new(State::Okay, as_option(summary), as_option(details), Some(metrics))
    }

    pub fn warn_with_details(summary: &str, details: &str, metrics: Metric<T>) -> (r: Self)
        ensures
            r.state == State::Warn,
            text_of(r.summary) == normalized(summary@),
            text_of(r.details) == normalized(details@),
            r.metrics == Some(metrics),
    {
        Self::new(State::Warn, as_option(summary), as_option(details), Some(metrics))
    }

    pub fn crit_with_details(summary: &str, details: &str, metrics: Metric<T>) -> (r: Self)
        ensures
            r.state == State::Crit,
            text_of(r.summary) == normalized(summary@),
            text_of(r.details) == normalized(details@),
            r.metrics == Some(metrics),
    {
        Self::new(State::Crit, as_option(summary), as_option(details), Some(metrics))
    }

    /// Applies `f` to every value of the measurement, if there is one.
    pub fn map<F, U>(self, f: F) -> (r: CheckResult<U>)
        where
            F: Fn(T) -> U + Copy,
        requires
            match self.metrics {
                Some(m) => metric_map_requires(f, m),
                None => true,
            },
        ensures
            r.state == self.state,
            r.summary == self.summary,
            r.details == self.details,
            match self.metrics {
                Some(m) => r.metrics.is_some() && metric_mapped(f, m, r.metrics.unwrap()),
                None => r.metrics.is_none(),
            },
    {
        let metrics = match self.metrics {
            Some(m) => Some(m.map(f)),
            None => None,
        };
        CheckResult { state: self.state, summary: self.summary, details: self.details, metrics }
    }
}

impl<T> From<SimpleCheckResult> for CheckResult<T> {
    fn from(x: SimpleCheckResult) -> (r: Self) {
        CheckResult { state: x.state, summary: x.summary, details: x.details, metrics: None }
    }
}

impl<T> vstd::std_specs::convert::FromSpecImpl<SimpleCheckResult> for CheckResult<T> {
    open spec fn obeys_from_spec() -> bool {
        true
    }

    open spec fn from_spec(x: SimpleCheckResult) -> Self {
        CheckResult { state: x.state, summary: x.summary, details: x.details, metrics: None }
    }
}

} // verus!
