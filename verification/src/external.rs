//! Trusted boundary to the outside world: the wall clock. Nothing is
//! promised of the value — every caller is verified for whatever comes back.

use vstd::prelude::*;

verus! {

/// Relies on std's `SystemTime::now` and `SystemTime::duration_since` against
/// `UNIX_EPOCH`: the current wall-clock moment as whole milliseconds away
/// from the Unix epoch, with the flag telling on which side. `now` is total;
/// `duration_since` answers a moment before the epoch in its `Err` arm, whose
/// `SystemTimeError::duration` carries the magnitude, so no host clock
/// setting can make this call panic. The value depends on the machine's
/// clock, so nothing is promised of it.
#[verifier::external_body]
fn clock_since_epoch() -> (bool, u128) {
    match std::time::SystemTime::now().duration_since(std::time::UNIX_EPOCH) {
        Ok(d) => (true, d.as_millis()),
        Err(e) => (false, e.duration().as_millis()),
    }
}

/// The current wall-clock moment as signed milliseconds since the Unix
/// epoch — negative on a host clock set before it — saturating at the
/// bounds of the machine word. Nothing is promised of the value.
pub(crate) fn now_ms() -> i64 {
    let parts: (bool, u128) = clock_since_epoch();
    let after_epoch: bool = parts.0;
    let millis: u128 = parts.1;
    let capped: i64 = if millis > i64::MAX as u128 {
        i64::MAX
    } else {
        millis as i64
    };
    if after_epoch {
        capped
    } else {
        -capped
    }
}

} // verus!
