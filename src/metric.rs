use vstd::prelude::*;
use vstd::string::*;

use crate::levels::{Bounds, Levels};
use crate::render::Render;

verus! {

/// A unit of measure, rendered verbatim right after a value.
#[derive(Debug, Default, Clone, PartialEq)]
pub struct Uom(pub String);

impl Render for Uom {
    open spec fn text(&self) -> Seq<char> {
        self.0@
    }

    fn render(&self) -> (r: String) {
        self.0.clone()
    }
}

impl core::str::FromStr for Uom {
    type Err = ();

    fn from_str(s: &str) -> (r: Result<Uom, ()>) {
        Ok(Uom(s.to_owned()))
    }
}

impl Uom {
    pub fn new(s: &str) -> (r: Uom)
        ensures
            r.0@ == s@,
    {
        Uom(s.to_owned())
    }
}

/// A named numeric observation, with optional unit, thresholds and bounds.
#[derive(Debug, Default, Clone, PartialEq)]
pub struct Metric<T> {
    pub label: String,
    pub value: T,
    pub uom: Option<Uom>,
    pub levels: Option<Levels<T>>,
    pub bounds: Option<Bounds<T>>,
}

/// The text of an optional value; empty when absent.
pub open spec fn optional_text<T: Render>(v: Option<T>) -> Seq<char> {
    match v {
        Some(x) => x.text(),
        None => Seq::empty(),
    }
}

/// The warning threshold's slot of a measurement.
pub open spec fn warn_text<T: Render>(levels: Option<Levels<T>>) -> Seq<char> {
    match levels {
        Some(l) => l.warn.text(),
        None => Seq::empty(),
    }
}

/// The critical threshold's slot of a measurement.
pub open spec fn crit_text<T: Render>(levels: Option<Levels<T>>) -> Seq<char> {
    match levels {
        Some(l) => l.crit.text(),
        None => Seq::empty(),
    }
}

/// The lower bound's slot of a measurement.
pub open spec fn min_text<T: Render>(bounds: Option<Bounds<T>>) -> Seq<char> {
    match bounds {
        Some(b) => b.min.text(),
        None => Seq::empty(),
    }
}

/// The upper bound's slot of a measurement.
pub open spec fn max_text<T: Render>(bounds: Option<Bounds<T>>) -> Seq<char> {
    match bounds {
        Some(b) => b.max.text(),
        None => Seq::empty(),
    }
}

/// Performance-data token of a measurement: `label=value<uom>;warn;crit;min;max`.
pub open spec fn metric_text<T: Render>(m: Metric<T>) -> Seq<char> {
    m.label@ + "="@ + m.value.text() + optional_text(m.uom) + ";"@ + warn_text(m.levels) + ";"@
        + crit_text(m.levels) + ";"@ + min_text(m.bounds) + ";"@ + max_text(m.bounds)
}

/// `f` may be applied to both thresholds, if there are any.
pub open spec fn levels_map_requires<T, U, F: Fn(T) -> U>(f: F, l: Option<Levels<T>>) -> bool {
    match l {
        Some(l) => f.requires((l.warn,)) && f.requires((l.crit,)),
        None => true,
    }
}

/// `r` holds what `f` gave for each threshold of `l`.
pub open spec fn levels_mapped<T, U, F: Fn(T) -> U>(
    f: F,
    l: Option<Levels<T>>,
    r: Option<Levels<U>>,
) -> bool {
    match l {
        Some(l) => r.is_some() && f.ensures((l.warn,), r.unwrap().warn) && f.ensures(
            (l.crit,),
            r.unwrap().crit,
        ),
        None => r.is_none(),
    }
}

/// `f` may be applied to both bounds, if there are any.
pub open spec fn bounds_map_requires<T, U, F: Fn(T) -> U>(f: F, b: Option<Bounds<T>>) -> bool {
    match b {
        Some(b) => f.requires((b.min,)) && f.requires((b.max,)),
        None => true,
    }
}

/// `r` holds what `f` gave for each bound of `b`.
pub open spec fn bounds_mapped<T, U, F: Fn(T) -> U>(
    f: F,
    b: Option<Bounds<T>>,
    r: Option<Bounds<U>>,
) -> bool {
    match b {
        Some(b) => r.is_some() && f.ensures((b.min,), r.unwrap().min) && f.ensures(
            (b.max,),
            r.unwrap().max,
        ),
        None => r.is_none(),
    }
}

/// `f` may be applied to every value that a measurement holds.
pub open spec fn metric_map_requires<T, U, F: Fn(T) -> U>(f: F, m: Metric<T>) -> bool {
    &&& f.requires((m.value,))
    &&& levels_map_requires(f, m.levels)
    &&& bounds_map_requires(f, m.bounds)
}

/// `r` is `m` with `f` applied to every value, label and unit kept.
pub open spec fn metric_mapped<T, U, F: Fn(T) -> U>(f: F, m: Metric<T>, r: Metric<U>) -> bool {
    &&& r.label == m.label
    &&& r.uom == m.uom
    &&& f.ensures((m.value,), r.value)
    &&& levels_mapped(f, m.levels, r.levels)
    &&& bounds_mapped(f, m.bounds, r.bounds)
}

impl<T> Metric<T> {
    /// Applies `f` to the value, the thresholds and the bounds.
    pub fn map<F, U>(self, f: F) -> (r: Metric<U>)
        where
            F: Fn(T) -> U + Copy,
        requires
            metric_map_requires(f, self),
        ensures
            metric_mapped(f, self, r),
    {
        let value = f(self.value);
        let levels = match self.levels {
            Some(l) => Some(l.map(f)),
            None => None,
        };
        let bounds = match self.bounds {
            Some(b) => Some(b.map(f)),
            None => None,
        };
        Metric { label: self.label, value, uom: self.uom, levels, bounds }
    }
}

/// Assembles a `Metric` field by field; a label and a value are needed.
#[derive(Debug)]
pub struct MetricBuilder<T> {
    pub label: Option<String>,
    pub value: Option<T>,
    pub uom: Option<Uom>,
    pub levels: Option<Levels<T>>,
    pub bounds: Option<Bounds<T>>,
}

impl<T> Metric<T> {
    pub fn builder() -> (r: MetricBuilder<T>)
        ensures
            r.label.is_none(),
            r.value.is_none(),
            r.uom.is_none(),
            r.levels.is_none(),
            r.bounds.is_none(),
    {
        MetricBuilder { label: None, value: None, uom: None, levels: None, bounds: None }
    }
}

impl<T> MetricBuilder<T> {
    pub fn label(self, label: &str) -> (r: Self)
        ensures
            r.label.is_some() && r.label.unwrap()@ == label@,
            r.value == self.value,
            r.uom == self.uom,
            r.levels == self.levels,
            r.bounds == self.bounds,
    {
        MetricBuilder {
            label: Some(label.to_owned()),
            value: self.value,
            uom: self.uom,
            levels: self.levels,
            bounds: self.bounds,
        }
    }

    pub fn value(self, value: T) -> (r: Self)
        ensures
            r == (MetricBuilder {
                label: self.label,
                value: Some(value),
                uom: self.uom,
                levels: self.levels,
                bounds: self.bounds,
            }),
    {
        MetricBuilder {
            label: self.label,
            value: Some(value),
            uom: self.uom,
            levels: self.levels,
            bounds: self.bounds,
        }
    }

    pub fn uom(self, uom: Uom) -> (r: Self)
        ensures
            r == (MetricBuilder {
                label: self.label,
                value: self.value,
                uom: Some(uom),
                levels: self.levels,
                bounds: self.bounds,
            }),
    {
        MetricBuilder {
            label: self.label,
            value: self.value,
            uom: Some(uom),
            levels: self.levels,
            bounds: self.bounds,
        }
    }

    pub fn levels(self, levels: Levels<T>) -> (r: Self)
        ensures
            r == (MetricBuilder {
                label: self.label,
                value: self.value,
                uom: self.uom,
                levels: Some(levels),
                bounds: self.bounds,
            }),
    {
        MetricBuilder {
            label: self.label,
            value: self.value,
            uom: self.uom,
            levels: Some(levels),
            bounds: self.bounds,
        }
    }

    pub fn bounds(self, bounds: Bounds<T>) -> (r: Self)
        ensures
            r == (MetricBuilder {
                label: self.label,
                value: self.value,
                uom: self.uom,
                levels: self.levels,
                bounds: Some(bounds),
            }),
    {
        MetricBuilder {
            label: self.label,
            value: self.value,
            uom: self.uom,
            levels: self.levels,
            bounds: Some(bounds),
        }
    }

    pub fn build(self) -> (r: Metric<T>)
        requires
            self.label.is_some(),
            self.value.is_some(),
        ensures
            r == (Metric {
                label: self.label.unwrap(),
                value: self.value.unwrap(),
                uom: self.uom,
                levels: self.levels,
                bounds: self.bounds,
            }),
    {
        Metric {
            label: self.label.unwrap(),
            value: self.value.unwrap(),
            uom: self.uom,
            levels: self.levels,
            bounds: self.bounds,
        }
    }
}

fn push_optional<T: Render>(out: &mut String, v: Option<&T>)
    ensures
        final(out)@ == old(out)@ + match v {
            Some(x) => x.text(),
            None => Seq::empty(),
        },
{
    match v {
        Some(x) => {
            let s = x.render();
            out.append(s.as_str());
        },
        None => {
            assert(old(out)@ + Seq::<char>::empty() =~= old(out)@);
        },
    }
}

impl<T: Render> Metric<T> {
    /// Renders the measurement as a performance-data token.
    pub fn render(&self) -> (r: String)
        ensures
            r@ == metric_text(*self),
    {
        let mut out = self.label.clone();
        out.append("=");
        let value = self.value.render();
        out.append(value.as_str());
        let uom = match &self.uom {
            Some(u) => Some(u),
            None => None,
        };
        push_optional(&mut out, uom);
        out.append(";");
        let (warn, crit) = match &self.levels {
            Some(l) => (Some(&l.warn), Some(&l.crit)),
            None => (None, None),
        };
        push_optional(&mut out, warn);
        out.append(";");
        push_optional(&mut out, crit);
        out.append(";");
        let (min, max) = match &self.bounds {
            Some(b) => (Some(&b.min), Some(&b.max)),
            None => (None, None),
        };
        push_optional(&mut out, min);
        out.append(";");
        push_optional(&mut out, max);
        assert(out@ =~= metric_text(*self));
        out
    }
}

} // verus!
