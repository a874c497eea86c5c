use vstd::prelude::*;

use crate::render::LevelValue;

verus! {

/// The lower and upper bounds of a measurement.
#[derive(Debug, Clone, PartialEq)]
pub struct Bounds<T> {
    pub min: T,
    pub max: T,
}

impl<T> Bounds<T> {
    /// Applies `f` to both bounds, keeping which is which.
    pub fn map<F, U>(self, f: F) -> (r: Bounds<U>)
        where
            F: Fn(T) -> U,
        requires
            f.requires((self.min,)),
            f.requires((self.max,)),
        ensures
            f.ensures((self.min,), r.min),
            f.ensures((self.max,), r.max),
    {
        let min = f(self.min);
        let max = f(self.max);
        Bounds { min, max }
    }
}

impl<T: Default> From<&mut [T; 2]> for Bounds<T> {
    /// Takes the two bounds out of `[min, max]`, leaving defaults behind.
    fn from(arr: &mut [T; 2]) -> (r: Self) {
        let mut min = T::default();
        let mut max = T::default();
        core::mem::swap(&mut min, &mut arr[0]);
        core::mem::swap(&mut max, &mut arr[1]);
        Bounds { min, max }
    }
}

impl<T: Default> vstd::std_specs::convert::FromSpecImpl<&mut [T; 2]> for Bounds<T> {
    open spec fn obeys_from_spec() -> bool {
        true
    }

    open spec fn from_spec(arr: &mut [T; 2]) -> Self {
        Bounds { min: arr[0], max: arr[1] }
    }
}

/// The warning and critical thresholds of a measurement.
#[derive(Debug, Clone, PartialEq)]
pub struct Levels<T> {
    pub warn: T,
    pub crit: T,
}

impl<T> Levels<T> {
    /// Applies `f` to both thresholds, keeping which is which.
    pub fn map<F, U>(self, f: F) -> (r: Levels<U>)
        where
            F: Fn(T) -> U,
        requires
            f.requires((self.warn,)),
            f.requires((self.crit,)),
        ensures
            f.ensures((self.warn,), r.warn),
            f.ensures((self.crit,), r.crit),
    {
        let warn = f(self.warn);
        let crit = f(self.crit);
        Levels { warn, crit }
    }
}

impl<T: Default> From<&mut [T; 2]> for Levels<T> {
    /// Takes the two thresholds out of `[warn, crit]`, leaving defaults behind.
    fn from(arr: &mut [T; 2]) -> (r: Self) {
        let mut warn = T::default();
        let mut crit = T::default();
        core::mem::swap(&mut warn, &mut arr[0]);
        core::mem::swap(&mut crit, &mut arr[1]);
        Levels { warn, crit }
    }
}

impl<T: Default> vstd::std_specs::convert::FromSpecImpl<&mut [T; 2]> for Levels<T> {
    open spec fn obeys_from_spec() -> bool {
        true
    }

    open spec fn from_spec(arr: &mut [T; 2]) -> Self {
        Levels { warn: arr[0], crit: arr[1] }
    }
}

/// Which side of its thresholds a value raises an alarm on.
#[derive(Debug, Clone, Copy, PartialEq, Eq, Structural)]
pub enum LevelsStrategy {
    /// Alarm when the value is at or above a threshold.
    Upper,
    /// Alarm when the value is below a threshold.
    Lower,
}

impl LevelsStrategy {
    /// Whether `x` is past `y` in the alarm direction.
    pub open spec fn spec_cmp<T: LevelValue>(self, x: T, y: T) -> bool {
        match self {
            LevelsStrategy::Upper => x.spec_ge(&y),
            LevelsStrategy::Lower => x.spec_lt(&y),
        }
    }

    pub fn cmp<T: LevelValue>(&self, x: &T, y: &T) -> (r: bool)
        ensures
            r == self.spec_cmp(*x, *y),
    {
        match self {
            LevelsStrategy::Upper => x.ge(y),
            LevelsStrategy::Lower => x.lt(y),
        }
    }
}

} // verus!
