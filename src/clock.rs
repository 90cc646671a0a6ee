//! What the library takes from std's clock and duration types.
use std::time::{Duration, Instant};
use vstd::prelude::*;

verus! {

#[verifier::external_type_specification]
#[verifier::external_body]
pub struct ExInstant(Instant);

/// Relies on `Instant::now`: a reading of the monotonic clock, of which nothing is known.
pub assume_specification[ Instant::now ]() -> Instant;

/// Relies on `Instant::elapsed`: the time since the instant, which depends on the clock.
pub assume_specification[ Instant::elapsed ](instant: &Instant) -> Duration;

/// The whole seconds of a duration.
pub uninterp spec fn duration_secs(d: Duration) -> u64;

/// The fraction of a second of a duration, in billionths.
pub uninterp spec fn duration_subsec(d: Duration) -> u32;

/// Relies on `Duration::as_secs`: the whole seconds of the duration, which depend on
/// the duration alone.
pub assume_specification[ Duration::as_secs ](d: &Duration) -> (r: u64)
    ensures
        r == duration_secs(*d),
;

/// Relies on `Duration::subsec_nanos`: the fraction of a second in billionths, which
/// depends on the duration alone and which std documents as less than one billion.
pub assume_specification[ Duration::subsec_nanos ](d: &Duration) -> (r: u32)
    ensures
        r == duration_subsec(*d),
        r < 1_000_000_000,
;

/// The text that std's `Debug` gives a duration of `secs` seconds and `subsec_nanos`
/// billionths, such as `57ns`, `15.2ms` or `3700.05689173s`.
pub uninterp spec fn duration_debug(secs: u64, subsec_nanos: u32) -> Seq<char>;

/// Relies on `<Duration as Debug>::fmt`: its text depends on the duration alone.
#[verifier::external_body]
pub(crate) fn debug_text(secs: u64, subsec_nanos: u32) -> (r: String)
    requires
        subsec_nanos < 1_000_000_000,
    ensures
        r@ == duration_debug(secs, subsec_nanos),
{
    format!("{:?}", Duration::new(secs, subsec_nanos))
}

} // verus!
