//! Readings of the system clock and of the monotonic clock, as plain numbers.

use vstd::prelude::*;
use std::time::{Duration, Instant, SystemTime, UNIX_EPOCH};

verus! {

/// `std::time::SystemTime`, a reading of the system clock; opaque to proofs.
#[verifier::external_type_specification]
#[verifier::external_body]
pub struct ExSystemTime(SystemTime);

/// `std::time::Instant`, a reading of the monotonic clock; opaque to proofs.
#[verifier::external_type_specification]
#[verifier::external_body]
pub struct ExInstant(Instant);

/// A span of time: whole seconds and the nanoseconds beyond them.
#[derive(Debug, Clone, Copy, PartialEq, Eq, Structural)]
pub struct Elapsed {
    pub secs: u64,
    pub nanos: u32,
}

impl Elapsed {
    /// Whether the nanoseconds are below one second, as for every span a clock gives.
    pub open spec fn valid(self) -> bool {
        self.nanos < 1_000_000_000
    }

    /// The span in whole milliseconds (`Duration::as_millis`).
    pub open spec fn millis_of(self) -> nat {
        (self.secs * 1000 + self.nanos / 1_000_000) as nat
    }

    /// The span in whole milliseconds.
    pub fn millis(&self) -> (r: u128)
        ensures
            r == self.millis_of(),
    {
        self.secs as u128 * 1000 + (self.nanos / 1_000_000) as u128
    }
}

/// `SystemTime::now`: whatever the system clock reads.
#[verifier::external_body]
pub(crate) fn system_now() -> SystemTime {
    SystemTime::now()
}

/// `UNIX_EPOCH`, the start of Unix time.
#[verifier::external_body]
pub(crate) fn unix_epoch() -> SystemTime {
    UNIX_EPOCH
}

/// `SystemTime::duration_since`: how long after `earlier` the time `later` is, or `None`
/// when it is before. The span's nanoseconds are below one second (`subsec_nanos`).
#[verifier::external_body]
pub(crate) fn time_between(later: &SystemTime, earlier: &SystemTime) -> (r: Option<Elapsed>)
    ensures
        r matches Some(e) ==> e.valid(),
{
    match later.duration_since(*earlier) {
        Ok(d) => Some(Elapsed { secs: d.as_secs(), nanos: d.subsec_nanos() }),
        Err(_) => None,
    }
}

/// `Instant::now`: a reading of the monotonic clock.
#[verifier::external_body]
pub(crate) fn instant_now() -> Instant {
    Instant::now()
}

/// `Instant::elapsed`: the time since `start`. The span's nanoseconds are below one
/// second (`subsec_nanos`).
#[verifier::external_body]
pub(crate) fn instant_elapsed(start: &Instant) -> (r: Elapsed)
    ensures
        r.valid(),
{
    let d = start.elapsed();
    Elapsed { secs: d.as_secs(), nanos: d.subsec_nanos() }
}

/// The `Debug` text of a `Duration` of `secs` seconds and `nanos` nanoseconds (such as
/// `1.5s` or `250µs`).
pub uninterp spec fn duration_debug_text(secs: u64, nanos: u32) -> Seq<char>;

/// `format!("{:?}", Duration::new(secs, nanos))`; the text is named `duration_debug_text`.
#[verifier::external_body]
pub(crate) fn duration_debug(span: Elapsed) -> (r: String)
    requires
        span.valid(),
    ensures
        r@ == duration_debug_text(span.secs, span.nanos),
{
    format!("{:?}", Duration::new(span.secs, span.nanos))
}

/// Milliseconds since the start of Unix time by the system clock, 0 when the clock reads
/// an earlier time.
pub(crate) fn unix_millis_now() -> (r: u128)
    ensures
        r == 0 || exists|e: Elapsed| e.valid() && r == e.millis_of(),
{
    match time_between(&system_now(), &unix_epoch()) {
        Some(e) => e.millis(),
        None => 0,
    }
}

} // verus!
