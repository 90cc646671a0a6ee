use std::time::Duration;
use vstd::prelude::*;

use crate::clock::{duration_secs, duration_subsec};
use crate::format_value::{count_text, value_text, FormatFloatValue, FormatIntegerValue};
use crate::seconds::Seconds;
use crate::unit::Unit;

verus! {

/// Billionths of a second in one second.
pub const NANOS_PER_SECOND: u128 = 1_000_000_000;

/// Billionths of a second in one minute.
pub const NANOS_PER_MINUTE: u128 = 60_000_000_000;

/// Billionths of a second in one hour.
pub const NANOS_PER_HOUR: u128 = 3_600_000_000_000;

/// Billionths of a second in one day.
pub const NANOS_PER_DAY: u128 = 86_400_000_000_000;

/// A time span split into days, hours, minutes and seconds.
#[derive(Clone, Copy, Debug, PartialEq, Eq, Structural)]
pub struct Time {
    pub days: u64,
    pub hours: u8,
    pub minutes: u8,
    pub seconds: Seconds,
}

/// The length in billionths of a second of a span of `secs` whole seconds and
/// `subsec_nanos` billionths.
pub open spec fn span_nanos(secs: u64, subsec_nanos: u32) -> nat {
    secs as nat * NANOS_PER_SECOND as nat + subsec_nanos as nat
}

/// The split of a span of `total` billionths: whole days, then whole hours of what
/// is left of the day, whole minutes of what is left of the hour, and the rest as
/// seconds.
pub open spec fn decomposed(total: nat) -> Time {
    let of_day = total % (NANOS_PER_DAY as nat);
    let of_hour = of_day % (NANOS_PER_HOUR as nat);
    Time {
        days: (total / (NANOS_PER_DAY as nat)) as u64,
        hours: (of_day / (NANOS_PER_HOUR as nat)) as u8,
        minutes: (of_hour / (NANOS_PER_MINUTE as nat)) as u8,
        seconds: Seconds { nanos: (of_hour % (NANOS_PER_MINUTE as nat)) as i64 },
    }
}

/// Whether `t` is the split of some span.
pub open spec fn is_decomposition(t: Time) -> bool {
    exists|secs: u64, subsec_nanos: u32|
        subsec_nanos < NANOS_PER_SECOND && t == decomposed(span_nanos(secs, subsec_nanos))
}

/// The number of fractional digits that seconds are shown with: one for zero (no
/// billionth at all, so below a tenth of a billionth), three from one second on,
/// six from a thousandth on, nine below that.
pub open spec fn decimal_places(nanos: int) -> nat {
    if nanos < 1 {
        1
    } else if nanos >= 1_000_000_000 {
        3
    } else if nanos >= 1_000_000 {
        6
    } else {
        9
    }
}

/// The seconds of `t` as they are shown.
pub open spec fn seconds_text(t: Time) -> Seq<char> {
    value_text(t.seconds.nanos as nat, decimal_places(t.seconds.nanos as int), Unit::Second)
}

/// `t` as text: each larger unit from the first non-zero one on, each followed by a
/// comma and a space, then the seconds.
pub open spec fn time_text(t: Time) -> Seq<char> {
    let day = count_text(t.days as nat, Unit::Day) + ", "@;
    let hour = count_text(t.hours as nat, Unit::Hour) + ", "@;
    let minute = count_text(t.minutes as nat, Unit::Minute) + ", "@;
    if t.days > 0 {
        day + hour + minute + seconds_text(t)
    } else if t.hours > 0 {
        hour + minute + seconds_text(t)
    } else if t.minutes > 0 {
        minute + seconds_text(t)
    } else {
        seconds_text(t)
    }
}

impl Time {
    /// Hours, minutes and seconds each below the next larger unit, seconds not negative.
    pub open spec fn wf(&self) -> bool {
        &&& self.hours < 24
        &&& self.minutes < 60
        &&& 0 <= self.seconds.nanos < NANOS_PER_MINUTE
    }

    /// The span that the fields add up to, in billionths of a second.
    pub open spec fn total_nanos(&self) -> int {
        self.days * NANOS_PER_DAY + self.hours * NANOS_PER_HOUR + self.minutes * NANOS_PER_MINUTE
            + self.seconds.nanos
    }

    /// Splits a span of `secs` whole seconds and `subsec_nanos` billionths.
    pub fn from_parts(secs: u64, subsec_nanos: u32) -> (r: Time)
        ensures
            r == decomposed(span_nanos(secs, subsec_nanos)),
            r.wf(),
    {
        let total: u128 = secs as u128 * NANOS_PER_SECOND + subsec_nanos as u128;
        let of_day = total % NANOS_PER_DAY;
        let of_hour = of_day % NANOS_PER_HOUR;
        assert(total / NANOS_PER_DAY <= u64::MAX) by (nonlinear_arith)
            requires
                total == secs * NANOS_PER_SECOND + subsec_nanos,
                secs <= u64::MAX,
                subsec_nanos <= u32::MAX,
        ;
        Time {
            days: (total / NANOS_PER_DAY) as u64,
            hours: (of_day / NANOS_PER_HOUR) as u8,
            minutes: (of_hour / NANOS_PER_MINUTE) as u8,
            seconds: Seconds { nanos: (of_hour % NANOS_PER_MINUTE) as i64 },
        }
    }

    /// Formats the span as text: the larger units from the first non-zero one on,
    /// then the seconds, joined by a comma and a space.
    pub fn format_time(&self) -> (r: String)
        requires
            self.seconds.nanos >= 0,
        ensures
            r@ == time_text(*self),
    {
        let ghost t = *self;
        let mut out = String::new();
        let mut started = false;
        if self.days > 0 {
            out.append(self.days.format_unit(Unit::Day).as_str());
            out.append(", ");
            started = true;
        }
        if self.hours > 0 || started {
            out.append(self.hours.format_unit(Unit::Hour).as_str());
            out.append(", ");
            started = true;
        }
        if self.minutes > 0 || started {
            out.append(self.minutes.format_unit(Unit::Minute).as_str());
            out.append(", ");
        }
        let decimal = self.calculate_decimal();
        out.append(self.seconds.format_float_unit(decimal, Unit::Second).as_str());
        assert(out@ =~= time_text(t));
        out
    }

    /// The number of fractional digits that the seconds are shown with.
    fn calculate_decimal(&self) -> (r: usize)
        ensures
            r == decimal_places(self.seconds.nanos as int),
    {
        let nanos = self.seconds.nanos;
        if nanos < 1 {
            1
        } else if nanos >= 1_000_000_000 {
            3
        } else if nanos >= 1_000_000 {
            6
        } else {
            9
        }
    }
}

/// Adding the fields of a split span back, each at its weight, gives the span exactly.
pub proof fn lemma_decomposition_recomposes(secs: u64, subsec_nanos: u32)
    ensures
        decomposed(span_nanos(secs, subsec_nanos)).total_nanos() == span_nanos(secs, subsec_nanos),
{
    let total = span_nanos(secs, subsec_nanos);
    let of_day = total % (NANOS_PER_DAY as nat);
    let of_hour = of_day % (NANOS_PER_HOUR as nat);
    lemma_decomposition_in_range(secs, subsec_nanos);
    vstd::arithmetic::div_mod::lemma_fundamental_div_mod(total as int, NANOS_PER_DAY as int);
    vstd::arithmetic::div_mod::lemma_fundamental_div_mod(of_day as int, NANOS_PER_HOUR as int);
    vstd::arithmetic::div_mod::lemma_fundamental_div_mod(of_hour as int, NANOS_PER_MINUTE as int);
}

/// A split span has fewer than 24 hours, fewer than 60 minutes, and seconds from zero
/// up to, not including, 60.
pub proof fn lemma_decomposition_in_range(secs: u64, subsec_nanos: u32)
    ensures
        decomposed(span_nanos(secs, subsec_nanos)).wf(),
        decomposed(span_nanos(secs, subsec_nanos)).days as nat == span_nanos(secs, subsec_nanos) / (
        NANOS_PER_DAY as nat),
{
    let total = span_nanos(secs, subsec_nanos);
    assert(total / (NANOS_PER_DAY as nat) <= u64::MAX) by (nonlinear_arith)
        requires
            total == secs * NANOS_PER_SECOND + subsec_nanos,
            secs <= u64::MAX,
            subsec_nanos <= u32::MAX,
    ;
}

/// Once a larger unit is shown, every smaller one down to minutes is shown too, and
/// the seconds always close the text.
pub proof fn lemma_sticky_composition(t: Time)
    ensures
        exists|p: Seq<char>| time_text(t) == p + seconds_text(t),
        t.days > 0 || t.hours > 0 || t.minutes > 0 ==> exists|p: Seq<char>|
            time_text(t) == p + count_text(t.minutes as nat, Unit::Minute) + ", "@ + seconds_text(t),
        t.days > 0 || t.hours > 0 ==> exists|p: Seq<char>|
            time_text(t) == p + count_text(t.hours as nat, Unit::Hour) + ", "@ + count_text(
                t.minutes as nat,
                Unit::Minute,
            ) + ", "@ + seconds_text(t),
{
    let day = count_text(t.days as nat, Unit::Day) + ", "@;
    let hour = count_text(t.hours as nat, Unit::Hour) + ", "@;
    let minute = count_text(t.minutes as nat, Unit::Minute) + ", "@;
    let secs = seconds_text(t);
    let e = Seq::<char>::empty();
    if t.days > 0 {
        assert(time_text(t) =~= (day + hour) + minute + secs);
        assert(time_text(t) =~= day + count_text(t.hours as nat, Unit::Hour) + ", "@ + count_text(
            t.minutes as nat,
            Unit::Minute,
        ) + ", "@ + secs);
        assert(time_text(t) =~= (day + hour) + count_text(t.minutes as nat, Unit::Minute) + ", "@
            + secs);
    } else if t.hours > 0 {
        assert(time_text(t) =~= hour + minute + secs);
        assert(time_text(t) =~= e + count_text(t.hours as nat, Unit::Hour) + ", "@ + count_text(
            t.minutes as nat,
            Unit::Minute,
        ) + ", "@ + secs);
        assert(time_text(t) =~= hour + count_text(t.minutes as nat, Unit::Minute) + ", "@ + secs);
    } else if t.minutes > 0 {
        assert(time_text(t) =~= minute + secs);
        assert(time_text(t) =~= e + count_text(t.minutes as nat, Unit::Minute) + ", "@ + secs);
    } else {
        assert(time_text(t) =~= e + secs);
    }
}

/// Splitting a duration into days, hours, minutes and seconds.
pub trait DurationExtension {
    /// The length of the duration in billionths of a second.
    spec fn span(&self) -> nat;

    /// Converts the duration into a `Time`.
    fn get_time(&self) -> (r: Time)
        ensures
            r == decomposed(self.span()),
            r.wf(),
            is_decomposition(r),
    ;
}

impl DurationExtension for Duration {
    open spec fn span(&self) -> nat {
        span_nanos(duration_secs(*self), duration_subsec(*self))
    }

    fn get_time(&self) -> (r: Time) {
        let secs = self.as_secs();
        let subsec_nanos = self.subsec_nanos();
        Time::from_parts(secs, subsec_nanos)
    }
}

impl Default for Time {
    fn default() -> (r: Time)
        ensures
            r.days == 0 && r.hours == 0 && r.minutes == 0 && r.seconds.nanos == 0,
    {
        Time { days: 0, hours: 0, minutes: 0, seconds: Seconds { nanos: 0 } }
    }
}

} // verus!
