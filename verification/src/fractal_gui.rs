//! Debouncing of redraws triggered by text input.

use vstd::prelude::*;
use std::time::Instant;

verus! {

/// A point in monotonic time (`std::time::Instant`).
#[verifier::external_type_specification]
#[verifier::external_body]
pub struct ExInstant(Instant);

/// `Instant::now()`: the current instant. Nothing is stated of its value,
/// which depends on the clock.
#[verifier::external_body]
fn instant_now() -> Instant {
    Instant::now()
}

/// Starts (or restarts) the debounce timer at instant `now` and marks a
/// redraw as pending.
pub fn start_debounce_timer(timer: &mut Option<Instant>, pending: &mut bool, now: Instant)
    ensures
        *final(timer) == Some(now),
        *final(pending),
{
    *timer = Some(now);
    *pending = true;
}

/// Starts (or restarts) the debounce timer of a text input at the current
/// instant and marks a redraw as pending, so that rendering waits until the
/// user stops typing.
pub fn trigger_debounced_redraw(timer: &mut Option<Instant>, pending: &mut bool)
    ensures
        *final(timer) is Some,
        *final(pending),
{
    let now = instant_now();
    start_debounce_timer(timer, pending, now);
}

} // verus!
