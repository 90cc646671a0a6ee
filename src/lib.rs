//! Measures elapsed wall-clock time and renders durations as text broken into
//! days, hours, minutes and seconds.
pub mod clock;
pub mod format_value;
pub mod seconds;
pub mod time;
pub mod unit;

pub use format_value::{FormatFloatValue, FormatIntegerValue};
pub use seconds::{RoundFloat, Seconds};
pub use time::{DurationExtension, Time};
pub use unit::{SingularPlural, Unit};

use std::time::{Duration, Instant};
use vstd::prelude::*;

use clock::{debug_text, duration_debug};
use time::{decomposed, is_decomposition, span_nanos, time_text, NANOS_PER_SECOND};

verus! {

/// Measures the execution time of a piece of code.
pub struct ExecutionTime {
    start_time: Instant,
}

/// The report on a span of `secs` seconds and `subsec_nanos` billionths: the span
/// as text, then std's rendering of the duration in parentheses.
pub open spec fn report_text(secs: u64, subsec_nanos: u32) -> Seq<char> {
    time_text(decomposed(span_nanos(secs, subsec_nanos))) + " ("@ + duration_debug(
        secs,
        subsec_nanos,
    ) + ")"@
}

/// Writes the report on a span of `secs` seconds and `subsec_nanos` billionths.
pub fn elapsed_report(secs: u64, subsec_nanos: u32) -> (r: String)
    requires
        subsec_nanos < NANOS_PER_SECOND,
    ensures
        r@ == report_text(secs, subsec_nanos),
{
    let time = Time::from_parts(secs, subsec_nanos);
    let mut out = time.format_time();
    out.append(" (");
    out.append(debug_text(secs, subsec_nanos).as_str());
    out.append(")");
    out
}

impl ExecutionTime {
    /// Starts a new stopwatch at the current instant.
    pub fn start() -> ExecutionTime {
        ExecutionTime { start_time: Instant::now() }
    }

    /// The time elapsed since the stopwatch was started.
    pub fn get_duration(&self) -> Duration {
        self.start_time.elapsed()
    }

    /// The time elapsed since the stopwatch was started, split into days, hours,
    /// minutes and seconds.
    pub fn get_time(&self) -> (r: Time)
        ensures
            r.wf(),
            is_decomposition(r),
    {
        let duration = self.get_duration();
        Time::from_parts(duration.as_secs(), duration.subsec_nanos())
    }

    /// The report on the time elapsed since the stopwatch was started.
    pub fn get_elapsed_time(&self) -> (r: String)
        ensures
            exists|secs: u64, subsec_nanos: u32|
                subsec_nanos < NANOS_PER_SECOND && r@ == report_text(secs, subsec_nanos),
    {
        let duration = self.get_duration();
        elapsed_report(duration.as_secs(), duration.subsec_nanos())
    }
}

} // verus!
