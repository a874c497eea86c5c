use vstd::prelude::*;
use vstd::string::*;

use crate::render::{decimal, padded, push_decimal, push_padded, push_signed_decimal, signed_decimal, Render};

verus! {

/// A numeric reading: an integer, or a floating-point reading.
///
/// A floating-point reading always renders with exactly six fractional
/// digits, so it is held as that rendering shows it: a whole count of
/// millionths (`Double(42_000_000)` is 42.0 and renders as `42.000000`).
#[derive(Debug, Clone, Copy, PartialEq, Eq, Structural)]
pub enum Real {
    Integer(isize),
    Double(i128),
}

/// Fixed-point notation, six fractional digits, of `micros` millionths.
pub open spec fn fixed6(micros: int) -> Seq<char> {
    let magnitude: int = if micros < 0 { -micros } else { micros };
    let sign: Seq<char> = if micros < 0 { "-"@ } else { Seq::empty() };
    sign + decimal((magnitude / 1_000_000) as nat) + "."@ + padded((magnitude % 1_000_000) as nat, 6)
}

impl Render for Real {
    open spec fn text(&self) -> Seq<char> {
        match *self {
            Real::Integer(x) => signed_decimal(x as int),
            Real::Double(micros) => fixed6(micros as int),
        }
    }

    fn render(&self) -> (r: String) {
        let mut out = String::new();
        match *self {
            Real::Integer(x) => {
                push_signed_decimal(&mut out, x as i128);
            },
            Real::Double(micros) => {
                let magnitude: u128 = if micros < 0 {
                    out.append("-");
                    ((-(micros + 1)) as u128) + 1
                } else {
                    micros as u128
                };
                push_decimal(&mut out, magnitude / 1_000_000);
                out.append(".");
                push_padded(&mut out, magnitude % 1_000_000, 6);
            },
        }
        assert(out@ =~= self.text());
        out
    }
}

impl Real {
    /// A floating-point reading of `micros` millionths.
    pub fn from_micros(micros: i128) -> (r: Real)
        ensures
            r == Real::Double(micros),
    {
        Real::Double(micros)
    }
}

impl From<isize> for Real {
    fn from(x: isize) -> (r: Real) {
        Real::Integer(x)
    }
}

impl vstd::std_specs::convert::FromSpecImpl<isize> for Real {
    open spec fn obeys_from_spec() -> bool {
        true
    }

    open spec fn from_spec(x: isize) -> Real {
        Real::Integer(x)
    }
}

impl Default for Real {
    fn default() -> (r: Real)
        ensures
            r == Real::Integer(0),
    {
        Real::Integer(0)
    }
}

} // verus!
