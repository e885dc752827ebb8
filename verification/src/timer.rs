//! The engine's repeating timer, as far as the walk cycle relies on it.
//!
//! A `Timer` is opaque to the verifier. The contracts below speak of it
//! through [`timer_model`]; they are taken on trust from the engine's source
//! and are not proved here.

use bevy::prelude::Timer;
use vstd::prelude::*;

verus! {

/// Makes the engine's `Timer` known as an opaque type.
#[verifier::external_type_specification]
#[verifier::external_body]
pub struct ExTimer(Timer);

/// What the contracts read of a timer. Times are in nanoseconds, the
/// resolution at which the engine keeps them.
pub struct TimerModel {
    /// Time accumulated since the timer last wrapped.
    pub elapsed: nat,
    /// Length of one cycle.
    pub period: nat,
    /// Whether the timer wraps around when a cycle completes.
    pub repeating: bool,
    /// Whether ticks are ignored.
    pub paused: bool,
    /// Whether the latest tick completed a cycle.
    pub finished: bool,
}

/// The state that a `Timer` holds. It has no definition: all that
/// is known of it is what the four functions below state.
pub uninterp spec fn timer_model(timer: Timer) -> TimerModel;

/// Nanoseconds in `micros` microseconds.
pub open spec fn nanos(micros: int) -> int {
    micros * 1000
}

/// Calls `Timer::new`. Claimed: the new timer has the given period, repeats
/// or not as asked, has accumulated nothing, runs, and has not finished.
#[verifier::external_body]
pub(crate) fn new_timer(period_micros: u64, repeating: bool) -> (timer: Timer)
    ensures
        timer_model(timer) == (TimerModel {
            elapsed: 0,
            period: nanos(period_micros as int) as nat,
            repeating,
            paused: false,
            finished: false,
        }),
{
    Timer::new(std::time::Duration::from_micros(period_micros), repeating)
}

/// Calls `Timer::tick`. Claimed, for a running, repeating timer whose period
/// is not zero: the time accumulates; when it reaches the period the timer
/// reports that it finished and keeps the remainder; nothing else changes.
/// The preconditions leave out the inputs on which the engine's arithmetic
/// would overflow its cycle count or divide by zero; on the others the call
/// is claimed not to panic.
#[verifier::external_body]
pub(crate) fn tick(timer: &mut Timer, micros: u32)
    requires
        timer_model(*old(timer)).repeating,
        !timer_model(*old(timer)).paused,
        0 < timer_model(*old(timer)).period <= u64::MAX,
        timer_model(*old(timer)).elapsed < timer_model(*old(timer)).period,
        (timer_model(*old(timer)).elapsed + nanos(micros as int)) / (timer_model(
            *old(timer),
        ).period as int) <= u32::MAX,
    ensures
        timer_model(*final(timer)) == (TimerModel {
            elapsed: ((timer_model(*old(timer)).elapsed + nanos(micros as int)) % (timer_model(
                *old(timer),
            ).period as int)) as nat,
            finished: timer_model(*old(timer)).elapsed + nanos(micros as int) >= timer_model(
                *old(timer),
            ).period,
            ..timer_model(*old(timer))
        }),
    no_unwind
{
    timer.tick(std::time::Duration::from_micros(u64::from(micros)));
}

/// Calls `Timer::reset`. Claimed: the accumulated time and the finished
/// flag are cleared, nothing else changes, and the call does not panic.
#[verifier::external_body]
pub(crate) fn reset(timer: &mut Timer)
    ensures
        timer_model(*final(timer)) == (TimerModel {
            elapsed: 0,
            finished: false,
            ..timer_model(*old(timer))
        }),
    no_unwind
{
    timer.reset();
}

/// Calls `Timer::finished`. Claimed: it reports whether the latest tick
/// completed a cycle.
#[verifier::external_body]
pub(crate) fn finished(timer: &Timer) -> (done: bool)
    ensures
        done == timer_model(*timer).finished,
{
    timer.finished()
}

} // verus!
