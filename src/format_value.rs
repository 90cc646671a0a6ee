use vstd::prelude::*;

use crate::seconds::{pow10, round_half_away, round_magnitude, rounding_step, step_for, Seconds};
use crate::unit::{plural_label, singular_label, SingularPlural, Unit};

verus! {

/// The decimal digit `d`.
pub open spec fn digit_char(d: nat) -> char {
    "0123456789"@[d as int]
}

/// `n` in decimal, without leading zeros.
pub open spec fn decimal_text(n: nat) -> Seq<char>
    decreases n,
{
    if n < 10 {
        seq![digit_char(n)]
    } else {
        decimal_text(n / 10).push(digit_char(n % 10))
    }
}

/// The last `width` decimal digits of `n`, leading zeros kept.
pub open spec fn padded_text(n: nat, width: nat) -> Seq<char>
    decreases width,
{
    if width == 0 {
        seq![]
    } else {
        padded_text(n / 10, (width - 1) as nat).push(digit_char(n % 10))
    }
}

/// `n` zero digits.
pub open spec fn zeros_text(n: nat) -> Seq<char> {
    Seq::new(n, |i: int| '0')
}

/// The label of `u`, plural or singular.
pub open spec fn label(u: Unit, plural: bool) -> Seq<char> {
    if plural {
        plural_label(u)
    } else {
        singular_label(u)
    }
}

/// A count followed by its unit: plural from two on.
pub open spec fn count_text(n: nat, u: Unit) -> Seq<char> {
    decimal_text(n) + " "@ + label(u, n >= 2)
}

/// A non-negative number of billionths written with exactly `decimal` fractional
/// digits, rounded half away from zero.
pub open spec fn fixed_text(nanos: nat, decimal: nat) -> Seq<char> {
    let r = round_half_away(nanos as int, rounding_step(decimal as int)) as nat;
    let whole = decimal_text(r / pow10(9));
    let fraction = r % pow10(9);
    if decimal == 0 {
        whole
    } else if decimal <= 9 {
        whole + "."@ + padded_text(fraction / pow10((9 - decimal) as nat), decimal)
    } else {
        whole + "."@ + padded_text(fraction, 9) + zeros_text((decimal - 9) as nat)
    }
}

/// A non-negative number of billionths of a unit, written with `decimal` fractional
/// digits and followed by the unit: plural from two on, whatever the digits show.
pub open spec fn value_text(nanos: nat, decimal: nat, u: Unit) -> Seq<char> {
    fixed_text(nanos, decimal) + " "@ + label(u, nanos >= 2 * pow10(9))
}

fn push_digit(out: &mut String, d: u64)
    requires
        d < 10,
    ensures
        final(out)@ == old(out)@.push(digit_char(d as nat)),
{
    let digits = "0123456789";
    proof {
        reveal_strlit("0123456789");
    }
    let s = digits.substring_ascii(d as usize, d as usize + 1);
    assert(s@ =~= seq![digit_char(d as nat)]);
    out.append(s);
}

fn push_decimal(out: &mut String, n: u64)
    ensures
        final(out)@ == old(out)@ + decimal_text(n as nat),
    decreases n,
{
    let ghost start = out@;
    if n >= 10 {
        push_decimal(out, n / 10);
    }
    push_digit(out, n % 10);
    assert(out@ =~= start + decimal_text(n as nat));
}

fn push_padded(out: &mut String, n: u64, width: usize)
    ensures
        final(out)@ == old(out)@ + padded_text(n as nat, width as nat),
    decreases width,
{
    let ghost start = out@;
    if width > 0 {
        push_padded(out, n / 10, width - 1);
        push_digit(out, n % 10);
    }
    assert(out@ =~= start + padded_text(n as nat, width as nat));
}

fn push_zeros(out: &mut String, count: usize)
    ensures
        final(out)@ == old(out)@ + zeros_text(count as nat),
{
    let ghost start = out@;
    let mut i: usize = 0;
    while i < count
        invariant
            i <= count,
            out@ == start + zeros_text(i as nat),
        decreases count - i,
    {
        proof {
            reveal_strlit("0");
        }
        out.append("0");
        i = i + 1;
        assert(out@ =~= start + zeros_text(i as nat));
    }
}

/// Formatting an integer count with its unit.
pub trait FormatIntegerValue {
    /// The count this value stands for.
    spec fn count(&self) -> nat;

    /// Formats the value followed by its unit, singular below two and plural from two on.
    fn format_unit(&self, unit: Unit) -> (r: String)
        ensures
            r@ == count_text(self.count(), unit),
    ;
}

impl FormatIntegerValue for u64 {
    open spec fn count(&self) -> nat {
        *self as nat
    }

    fn format_unit(&self, unit: Unit) -> (r: String) {
        let mut out = String::new();
        push_decimal(&mut out, *self);
        out.append(" ");
        if *self >= 2 {
            out.append(unit.plural());
        } else {
            out.append(unit.singular());
        }
        out
    }
}

impl FormatIntegerValue for u8 {
    open spec fn count(&self) -> nat {
        *self as nat
    }

    fn format_unit(&self, unit: Unit) -> (r: String) {
        (*self as u64).format_unit(unit)
    }
}

/// Formatting a fractional value with its unit.
pub trait FormatFloatValue {
    /// The value in billionths.
    spec fn billionths(&self) -> int;

    /// Formats the value with exactly `decimal` fractional digits, followed by its unit:
    /// singular below two and plural from two on.
    fn format_float_unit(&self, decimal: usize, unit: Unit) -> (r: String)
        requires
            self.billionths() >= 0,
        ensures
            r@ == value_text(self.billionths() as nat, decimal as nat, unit),
    ;
}

impl FormatFloatValue for Seconds {
    open spec fn billionths(&self) -> int {
        self.nanos as int
    }

    fn format_float_unit(&self, decimal: usize, unit: Unit) -> (r: String) {
        reveal_with_fuel(pow10, 10);
        let shown: i32 = if decimal > 9 {
            9
        } else {
            decimal as i32
        };
        let step = step_for(shown);
        let rounded = round_magnitude(self.nanos as u64, step as u64);
        let mut out = String::new();
        push_decimal(&mut out, rounded / 1_000_000_000);
        if decimal > 0 {
            out.append(".");
            if decimal <= 9 {
                push_padded(&mut out, (rounded % 1_000_000_000) / (step as u64), decimal);
            } else {
                push_padded(&mut out, rounded % 1_000_000_000, 9);
                push_zeros(&mut out, decimal - 9);
            }
        }
        out.append(" ");
        if self.nanos >= 2_000_000_000 {
            out.append(unit.plural());
        } else {
            out.append(unit.singular());
        }
        out
    }
}

} // verus!
