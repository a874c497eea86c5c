use vstd::prelude::*;
use vstd::string::*;

verus! {

/// A value with a fixed textual rendering.
pub trait Render {
    /// The text that `render` produces.
    spec fn text(&self) -> Seq<char>;

    fn render(&self) -> (r: String)
        ensures
            r@ == self.text(),
    ;
}

/// A value that thresholds can be set on: it renders, and it is ordered.
pub trait LevelValue: Render + Copy {
    /// `self ≥ other`.
    spec fn spec_ge(&self, other: &Self) -> bool;

    /// `self < other`.
    spec fn spec_lt(&self, other: &Self) -> bool;

    fn ge(&self, other: &Self) -> (r: bool)
        ensures
            r == self.spec_ge(other),
    ;

    fn lt(&self, other: &Self) -> (r: bool)
        ensures
            r == self.spec_lt(other),
    ;
}

/// The text of one decimal digit.
pub open spec fn digit_text(d: nat) -> Seq<char> {
    if d == 0 {
        "0"@
    } else if d == 1 {
        "1"@
    } else if d == 2 {
        "2"@
    } else if d == 3 {
        "3"@
    } else if d == 4 {
        "4"@
    } else if d == 5 {
        "5"@
    } else if d == 6 {
        "6"@
    } else if d == 7 {
        "7"@
    } else if d == 8 {
        "8"@
    } else {
        "9"@
    }
}

/// Plain decimal notation of a natural number, without leading zeros.
pub open spec fn decimal(n: nat) -> Seq<char>
    decreases n,
{
    if n < 10 {
        digit_text(n)
    } else {
        decimal(n / 10) + digit_text(n % 10)
    }
}

/// The last `width` decimal digits of `n`, padded with leading zeros.
pub open spec fn padded(n: nat, width: nat) -> Seq<char>
    decreases width,
{
    if width == 0 {
        Seq::empty()
    } else {
        padded(n / 10, (width - 1) as nat) + digit_text(n % 10)
    }
}

/// Decimal notation of an integer, with a leading `-` when it is negative.
pub open spec fn signed_decimal(n: int) -> Seq<char> {
    if n < 0 {
        "-"@ + decimal((-n) as nat)
    } else {
        decimal(n as nat)
    }
}

fn push_digit(out: &mut String, d: u128)
    requires
        d < 10,
    ensures
        final(out)@ == old(out)@ + digit_text(d as nat),
{
    let s = if d == 0 {
        "0"
    } else if d == 1 {
        "1"
    } else if d == 2 {
        "2"
    } else if d == 3 {
        "3"
    } else if d == 4 {
        "4"
    } else if d == 5 {
        "5"
    } else if d == 6 {
        "6"
    } else if d == 7 {
        "7"
    } else if d == 8 {
        "8"
    } else {
        "9"
    };
    out.append(s);
}

/// Appends the decimal notation of `n`.
pub fn push_decimal(out: &mut String, n: u128)
    ensures
        final(out)@ == old(out)@ + decimal(n as nat),
    decreases n,
{
    if n >= 10 {
        push_decimal(out, n / 10);
        push_digit(out, n % 10);
        assert(final(out)@ =~= old(out)@ + decimal(n as nat));
    } else {
        push_digit(out, n);
    }
}

/// Appends the last `width` decimal digits of `n`, zero-padded.
pub fn push_padded(out: &mut String, n: u128, width: u32)
    ensures
        final(out)@ == old(out)@ + padded(n as nat, width as nat),
    decreases width,
{
    if width > 0 {
        push_padded(out, n / 10, width - 1);
        push_digit(out, n % 10);
        assert(final(out)@ =~= old(out)@ + padded(n as nat, width as nat));
    } else {
        assert(final(out)@ =~= old(out)@ + padded(n as nat, width as nat));
    }
}

/// Appends the decimal notation of a signed integer.
pub fn push_signed_decimal(out: &mut String, n: i128)
    ensures
        final(out)@ == old(out)@ + signed_decimal(n as int),
{
    if n < 0 {
        out.append("-");
        let magnitude: u128 = ((-(n + 1)) as u128) + 1;
        push_decimal(out, magnitude);
        assert(final(out)@ =~= old(out)@ + signed_decimal(n as int));
    } else {
        push_decimal(out, n as u128);
    }
}

impl Render for isize {
    open spec fn text(&self) -> Seq<char> {
        signed_decimal(*self as int)
    }

    fn render(&self) -> (r: String) {
        let mut out = String::new();
        push_signed_decimal(&mut out, *self as i128);
        assert(out@ =~= self.text());
        out
    }
}

impl LevelValue for isize {
    open spec fn spec_ge(&self, other: &Self) -> bool {
        *self >= *other
    }

    open spec fn spec_lt(&self, other: &Self) -> bool {
        *self < *other
    }

    fn ge(&self, other: &Self) -> (r: bool) {
        *self >= *other
    }

    fn lt(&self, other: &Self) -> (r: bool) {
        *self < *other
    }
}

} // verus!
