use vstd::prelude::*;

verus! {

/// The severity of a finding.
///
/// Variants are declared in merge order (`Okay < Warn < Unknown < Crit`), which
/// is the order that picks the worst of several severities. The process exit
/// code follows a different order, see [`State::exit_code`].
#[derive(Debug, Clone, Copy, PartialEq, Eq, Structural, PartialOrd, Ord)]
pub enum State {
    Okay,
    Warn,
    Unknown,
    Crit,
}

impl State {
    /// Rank of the severity in merge order.
    pub open spec fn rank(self) -> nat {
        match self {
            State::Okay => 0,
            State::Warn => 1,
            State::Unknown => 2,
            State::Crit => 3,
        }
    }

    /// The worse of two severities in merge order.
    pub open spec fn spec_worst(self, other: State) -> State {
        if self.rank() >= other.rank() {
            self
        } else {
            other
        }
    }

    /// Exit status of a plugin whose overall severity is `self`.
    pub open spec fn spec_exit_code(self) -> i32 {
        match self {
            State::Okay => 0,
            State::Warn => 1,
            State::Crit => 2,
            State::Unknown => 3,
        }
    }

    /// Upper-case name of the severity.
    pub open spec fn name(self) -> Seq<char> {
        match self {
            State::Okay => "OK"@,
            State::Warn => "WARNING"@,
            State::Crit => "CRITICAL"@,
            State::Unknown => "UNKNOWN"@,
        }
    }

    pub fn worst(self, other: State) -> (r: State)
        ensures
            r == self.spec_worst(other),
    {
        if self.rank_of() >= other.rank_of() {
            self
        } else {
            other
        }
    }

    fn rank_of(self) -> (r: u8)
        ensures
            r as nat == self.rank(),
    {
        match self {
            State::Okay => 0,
            State::Warn => 1,
            State::Unknown => 2,
            State::Crit => 3,
        }
    }

    pub fn exit_code(self) -> (r: i32)
        ensures
            r == self.spec_exit_code(),
    {
        match self {
            State::Okay => 0,
            State::Warn => 1,
            State::Crit => 2,
            State::Unknown => 3,
        }
    }

    pub fn as_str(&self) -> (r: &'static str)
        ensures
            r@ == self.name(),
    {
        match self {
            State::Okay => "OK",
            State::Warn => "WARNING",
            State::Crit => "CRITICAL",
            State::Unknown => "UNKNOWN",
        }
    }
}

impl Default for State {
    fn default() -> (r: State)
        ensures
            r == State::Okay,
    {
        State::Okay
    }
}

/// The worst severity of a sequence in merge order; `Okay` when it is empty.
pub open spec fn worst_of(states: Seq<State>) -> State
    decreases states.len(),
{
    if states.len() == 0 {
        State::Okay
    } else {
        worst_of(states.drop_last()).spec_worst(states.last())
    }
}

/// A text annotated with the marker of its severity.
pub open spec fn annotated(state: State, text: Seq<char>) -> Seq<char> {
    match state {
        State::Okay => text,
        State::Warn => text + " (!)"@,
        State::Crit => text + " (!!)"@,
        State::Unknown => text + " (?)"@,
    }
}

} // verus!
