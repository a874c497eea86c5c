use vstd::prelude::*;
use vstd::string::*;

use crate::check_result::{as_option, normalized, text_of, CheckResult};
use crate::levels::{Levels, LevelsStrategy};
use crate::metric::{Metric, Uom};
use crate::render::{LevelValue, Render};
use crate::state::State;

verus! {

/// Label and unit of the measurement that a check produces.
#[derive(Debug)]
pub struct LevelsCheckerArgs {
    pub label: String,
    pub uom: Option<Uom>,
}

impl LevelsCheckerArgs {
    pub fn new(label: &str, uom: Option<Uom>) -> (r: Self)
        ensures
            r.label@ == label@,
            r.uom == uom,
    {
        LevelsCheckerArgs { label: label.to_owned(), uom }
    }
}

/// Where the text of a check goes when the value is within its thresholds.
#[derive(Debug)]
pub enum OutputType {
    /// In the summary line.
    Summary(String),
    /// In the details only.
    Notice(String),
}

/// The thresholds passed to `LevelsChecker::try_new` are inconsistent.
#[derive(Debug, Clone, Copy, PartialEq, Eq, Structural)]
pub struct InvalidLevels;

impl InvalidLevels {
    pub fn message(&self) -> (r: &'static str)
        ensures
            r@ == "bad values"@,
    {
        "bad values"
    }
}

/// Classifies values against validated thresholds.
#[derive(Debug)]
pub struct LevelsChecker<T> {
    strategy: LevelsStrategy,
    levels: Levels<T>,
}

/// Severity of `value` against `levels`: crit first, then warn.
pub open spec fn classify<T: LevelValue>(strategy: LevelsStrategy, levels: Levels<T>, value: T) -> State {
    if strategy.spec_cmp(value, levels.crit) {
        State::Crit
    } else if strategy.spec_cmp(value, levels.warn) {
        State::Warn
    } else {
        State::Okay
    }
}

/// The thresholds as appended to a text whose value raised an alarm.
pub open spec fn levels_note<T: LevelValue>(strategy: LevelsStrategy, levels: Levels<T>) -> Seq<char> {
    match strategy {
        LevelsStrategy::Upper => "(warn/crit at "@ + levels.warn.text() + "/"@ + levels.crit.text()
            + ")"@,
        LevelsStrategy::Lower => "(warn/crit below "@ + levels.warn.text() + "/"@
            + levels.crit.text() + ")"@,
    }
}

/// `text` followed by a space and the thresholds.
pub open spec fn with_levels_note<T: LevelValue>(
    text: Seq<char>,
    strategy: LevelsStrategy,
    levels: Levels<T>,
) -> Seq<char> {
    text + " "@ + levels_note(strategy, levels)
}

impl<T> LevelsChecker<T> {
    pub closed spec fn spec_strategy(&self) -> LevelsStrategy {
        self.strategy
    }

    pub closed spec fn spec_levels(&self) -> Levels<T> {
        self.levels
    }
}

impl<T: LevelValue> LevelsChecker<T> {
    fn append_to(&self, text: &str) -> (r: String)
        ensures
            r@ == with_levels_note(text@, self.strategy, self.levels),
    {
        let mut out = text.to_owned();
        out.append(" ");
        match self.strategy {
            LevelsStrategy::Upper => out.append("(warn/crit at "),
            LevelsStrategy::Lower => out.append("(warn/crit below "),
        }
        let warn = self.levels.warn.render();
        out.append(warn.as_str());
        out.append("/");
        let crit = self.levels.crit.render();
        out.append(crit.as_str());
        out.append(")");
        assert(out@ =~= with_levels_note(text@, self.strategy, self.levels));
        out
    }

    /// A checker for `levels`, provided that `crit` lies past `warn` in the
    /// alarm direction of `strategy`.
    pub fn try_new(strategy: LevelsStrategy, levels: Levels<T>) -> (r: Result<Self, InvalidLevels>)
        ensures
            r.is_ok() == strategy.spec_cmp(levels.crit, levels.warn),
            match r {
                Ok(c) => c.spec_strategy() == strategy && c.spec_levels() == levels,
                Err(e) => e == InvalidLevels,
            },
    {
        if strategy.cmp(&levels.crit, &levels.warn) {
            Ok(LevelsChecker { strategy, levels })
        } else {
            Err(InvalidLevels)
        }
    }

    /// Classifies `value` and makes a finding of it, with the measurement.
    ///
    /// Within the thresholds a notice goes to the details and a summary to
    /// the summary, an empty text to neither; past them, the text goes to the summary with the
    /// thresholds appended.
    pub fn check(&self, value: T, output: OutputType, args: LevelsCheckerArgs) -> (r: CheckResult<T>)
        ensures
            r.state == classify(self.spec_strategy(), self.spec_levels(), value),
            r.metrics == Some(
                (Metric {
                    label: args.label,
                    value,
                    uom: args.uom,
                    levels: Some(self.spec_levels()),
                    bounds: None,
                }),
            ),
            match output {
                OutputType::Notice(text) => if r.state == State::Okay {
                    r.summary.is_none() && text_of(r.details) == normalized(text@)
                } else {
                    r.details.is_none() && text_of(r.summary) == Some(
                        with_levels_note(text@, self.spec_strategy(), self.spec_levels()),
                    )
                },
                OutputType::Summary(text) => if r.state == State::Okay {
                    text_of(r.summary) == normalized(text@) && r.details.is_none()
                } else {
                    r.details.is_none() && text_of(r.summary) == Some(
                        with_levels_note(text@, self.spec_strategy(), self.spec_levels()),
                    )
                },
            },
    {
        let state = if self.strategy.cmp(&value, &self.levels.crit) {
            State::Crit
        } else if self.strategy.cmp(&value, &self.levels.warn) {
            State::Warn
        } else {
            State::Okay
        };
        let (summary, details) = match output {
            OutputType::Notice(text) => {
                if state == State::Okay {
                    (None, as_option(text.as_str()))
                } else {
                    (Some(self.append_to(text.as_str())), None)
                }
            },
            OutputType::Summary(text) => {
                if state == State::Okay {
                    (as_option(text.as_str()), None)
                } else {
                    (Some(self.append_to(text.as_str())), None)
                }
            },
        };
        let levels = Levels { warn: self.levels.warn, crit: self.levels.crit };
        CheckResult {
            state,
            summary,
            details,
            metrics: Some(
                Metric { label: args.label, value, uom: args.uom, levels: Some(levels), bounds: None },
            ),
        }
    }
}

} // verus!
