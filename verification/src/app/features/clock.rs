//! Readings of the monotonic clock, used for transient status messages.

use std::time::{Duration, Instant};

use vstd::prelude::*;

verus! {

/// `Instant::now`: the current clock reading; nothing is claimed of it.
#[verifier::external_body]
pub(crate) fn clock_now() -> Instant {
    Instant::now()
}

/// `Instant::elapsed`: the time since a reading; nothing is claimed of it.
#[verifier::external_body]
pub(crate) fn instant_elapsed(since: &Instant) -> Duration {
    since.elapsed()
}

/// `Duration::as_secs`: the whole seconds of a duration; nothing is claimed of them.
#[verifier::external_body]
pub(crate) fn duration_secs(d: &Duration) -> u64 {
    d.as_secs()
}

} // verus!
