use vstd::prelude::*;

verus! {

/// A signed count of seconds held exactly, in billionths of a second.
#[derive(Clone, Copy, Debug, PartialEq, Eq, Structural)]
pub struct Seconds {
    pub nanos: i64,
}

impl Seconds {
    /// The value `nanos` billionths of a second.
    pub fn from_nanos(nanos: i64) -> (r: Seconds)
        ensures
            r.nanos == nanos,
    {
        Seconds { nanos }
    }
}

impl Default for Seconds {
    fn default() -> (r: Seconds)
        ensures
            r.nanos == 0,
    {
        Seconds { nanos: 0 }
    }
}

/// Ten to the power `n`.
pub open spec fn pow10(n: nat) -> nat
    decreases n,
{
    if n == 0 {
        1
    } else {
        10 * pow10((n - 1) as nat)
    }
}

/// The multiple of billionths that rounding to `decimal` fractional digits keeps:
/// a whole second when `decimal` is zero or less, one billionth from nine digits on.
pub open spec fn rounding_step(decimal: int) -> int {
    if decimal <= 0 {
        pow10(9) as int
    } else if decimal >= 9 {
        1
    } else {
        pow10((9 - decimal) as nat) as int
    }
}

/// `n` rounded to a multiple of `step`, halves away from zero.
pub open spec fn round_half_away(n: int, step: int) -> int {
    if n >= 0 {
        (n + step / 2) / step * step
    } else {
        -((-n + step / 2) / step * step)
    }
}

/// The largest magnitude that can be rounded without leaving the range of `i64`.
pub const ROUNDING_LIMIT: i64 = 9_223_372_036_354_775_807;

/// Rounding to a number of decimal places.
pub trait RoundFloat: Sized {
    /// Whether the rounded value can be represented.
    spec fn can_round(&self) -> bool;

    /// The value rounded to `decimal` fractional digits.
    spec fn rounded(&self, decimal: int) -> Self;

    /// Rounds to the given number of decimal places; zero or fewer rounds to a whole number.
    fn round_float(self, decimal: i32) -> (r: Self)
        requires
            self.can_round(),
        ensures
            r == self.rounded(decimal as int),
    ;
}

proof fn lemma_quotient_bound(n: int, step: int)
    requires
        n >= 0,
        step >= 1,
    ensures
        0 <= (n / step) * step <= n,
{
    assert((n / step) * step <= n) by (nonlinear_arith)
        requires
            n >= 0,
            step >= 1,
    {
        vstd::arithmetic::div_mod::lemma_fundamental_div_mod(n, step);
    }
    assert((n / step) * step >= 0) by (nonlinear_arith)
        requires
            n >= 0,
            step >= 1,
    ;
}

/// `n` rounded to a multiple of `step`, halves up.
pub(crate) fn round_magnitude(n: u64, step: u64) -> (r: u64)
    requires
        step >= 1,
        n + step / 2 <= u64::MAX,
    ensures
        r == round_half_away(n as int, step as int),
        r <= n + step / 2,
{
    let q = (n + step / 2) / step;
    proof {
        lemma_quotient_bound(n + step / 2, step as int);
    }
    q * step
}

/// The rounding step for `decimal` fractional digits, in billionths.
pub(crate) fn step_for(decimal: i32) -> (r: i64)
    ensures
        r == rounding_step(decimal as int),
        1 <= r <= 1_000_000_000,
{
    reveal_with_fuel(pow10, 10);
    let zeros: i32 = if decimal <= 0 {
        9
    } else if decimal >= 9 {
        0
    } else {
        9 - decimal
    };
    assert(zeros == 0 ==> rounding_step(decimal as int) == pow10(0));
    match zeros {
        0 => 1,
        1 => 10,
        2 => 100,
        3 => 1_000,
        4 => 10_000,
        5 => 100_000,
        6 => 1_000_000,
        7 => 10_000_000,
        8 => 100_000_000,
        _ => 1_000_000_000,
    }
}

impl RoundFloat for Seconds {
    open spec fn can_round(&self) -> bool {
        -ROUNDING_LIMIT <= self.nanos <= ROUNDING_LIMIT
    }

    open spec fn rounded(&self, decimal: int) -> Seconds {
        Seconds { nanos: round_half_away(self.nanos as int, rounding_step(decimal)) as i64 }
    }

    fn round_float(self, decimal: i32) -> (r: Seconds) {
        let step = step_for(decimal);
        if self.nanos >= 0 {
            let m = round_magnitude(self.nanos as u64, step as u64);
            Seconds { nanos: m as i64 }
        } else {
            let m = round_magnitude((-self.nanos) as u64, step as u64);
            Seconds { nanos: -(m as i64) }
        }
    }
}

} // verus!
