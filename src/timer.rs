use vstd::prelude::*;

verus! {

/// A timer wheel of tokio-timer, run by its own worker thread.
#[verifier::external_type_specification]
#[verifier::external_body]
pub struct ExTimer(tokio_timer::Timer);

/// A future of tokio-timer that completes once its instant is reached.
#[verifier::external_type_specification]
#[verifier::external_body]
pub struct ExSleep(tokio_timer::Sleep);

/// What tokio-timer reports when it cannot honour a delay.
#[verifier::external_type_specification]
#[verifier::external_body]
pub struct ExTimerError(tokio_timer::TimerError);

/// Relies on tokio_timer::Timer::sleep: a delay that starts now and ends
/// `millis` milliseconds later, on `timer`. A `u64` count of milliseconds
/// keeps the end instant far inside what the clock can hold.
#[verifier::external_body]
pub(crate) fn sleep_for(timer: &tokio_timer::Timer, millis: u64) -> (r: tokio_timer::Sleep) {
    timer.sleep(std::time::Duration::from_millis(millis))
}

} // verus!
