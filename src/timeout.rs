use vstd::prelude::*;

use crate::timer::sleep_for;

verus! {

/// What one poll of a future reports.
#[derive(Debug, Clone, PartialEq, Eq)]
pub enum Status<V, E> {
    /// Not resolved yet: poll again later.
    NotReady,
    /// Resolved with a value.
    Ready(V),
    /// Resolved with an error.
    Failed(E),
}

/// Why a future under a deadline did not deliver its value.
#[derive(Debug, PartialEq, Eq)]
pub enum Error<E> {
    /// The future resolved with its own error, carried unchanged.
    FutureError(E),
    /// The deadline passed before the future resolved.
    TimedOut,
    /// The timer could not provide the delay.
    TimerFailed(tokio_timer::TimerError),
}

/// A future paired with a deadline.
///
/// The future sits in a slot that is emptied as soon as the wrapper has an
/// outcome; a wrapper with an empty slot is terminal and is never polled
/// again.
#[derive(Debug)]
pub struct Timeout<T> {
    future: Option<T>,
    sleep: tokio_timer::Sleep,
}

/// What the wrapper reports once its future has been polled and reported
/// `future`: the future's own resolution, or "not yet", in which case the
/// deadline decides.
pub open spec fn after_future<V, E>(future: Status<V, E>) -> Status<V, Error<E>> {
    match future {
        Status::NotReady => Status::NotReady,
        Status::Ready(v) => Status::Ready(v),
        Status::Failed(e) => Status::Failed(Error::FutureError(e)),
    }
}

/// What the wrapper reports once its deadline has been polled and reported
/// `timer`.
pub open spec fn after_timer<V, E>(timer: Status<(), tokio_timer::TimerError>) -> Status<
    V,
    Error<E>,
> {
    match timer {
        Status::NotReady => Status::NotReady,
        Status::Ready(_) => Status::Failed(Error::TimedOut),
        Status::Failed(e) => Status::Failed(Error::TimerFailed(e)),
    }
}

/// The outcome of one poll of the wrapper in which the future reported
/// `future` and, had it been asked, the deadline would have reported `timer`:
/// the deadline is consulted only while the future is not ready.
pub open spec fn round<V, E>(
    future: Status<V, E>,
    timer: Status<(), tokio_timer::TimerError>,
) -> Status<V, Error<E>> {
    match future {
        Status::NotReady => after_timer(timer),
        _ => after_future(future),
    }
}

impl<V, E> Status<V, E> {
    /// Whether this status is a resolution, a value or an error.
    pub open spec fn resolved(self) -> bool {
        !(self is NotReady)
    }
}

impl<T> Timeout<T> {
    /// The future still waiting in the slot, if any.
    pub closed spec fn slot(&self) -> Option<T> {
        self.future
    }

    /// The delay that stands for the deadline.
    pub closed spec fn deadline(&self) -> tokio_timer::Sleep {
        self.sleep
    }

    /// Whether the wrapper has an outcome already and must not be polled again.
    pub open spec fn terminal(&self) -> bool {
        self.slot().is_none()
    }

    /// Pairs `future` with a deadline `duration_ms` milliseconds from now,
    /// kept by `timer`.
    pub fn new(future: T, timer: &tokio_timer::Timer, duration_ms: u64) -> (r: Self)
        ensures
            r.slot() == Some(future),
    {
        Timeout { future: Some(future), sleep: sleep_for(timer, duration_ms) }
    }

    /// Whether the wrapper has reached its outcome.
    pub fn is_terminal(&self) -> (r: bool)
        ensures
            r == self.terminal(),
    {
        self.future.is_none()
    }

    /// The wrapped future, for the next poll of it. Only a wrapper that has
    /// no outcome yet still holds it.
    pub fn future_mut(&mut self) -> (r: &mut T)
        requires
            !old(self).terminal(),
        ensures
            *r == old(self).slot().unwrap(),
            final(self).slot() == Some(*final(r)),
            final(self).deadline() == old(self).deadline(),
    {
        self.future.as_mut().unwrap()
    }

    /// The delay that stands for the deadline, for the next poll of it.
    pub fn deadline_mut(&mut self) -> (r: &mut tokio_timer::Sleep)
        requires
            !old(self).terminal(),
        ensures
            *r == old(self).deadline(),
            final(self).deadline() == *final(r),
            final(self).slot() == old(self).slot(),
    {
        &mut self.sleep
    }

    /// Takes in what the wrapped future reported on this poll. A value or an
    /// error is the wrapper's outcome, and the slot is emptied; while the
    /// future is not ready the result is `NotReady`, meaning that the
    /// deadline is to be polled next, through `on_timer`.
    pub fn on_future<V, E>(&mut self, future: Status<V, E>) -> (r: Status<V, Error<E>>)
        requires
            !old(self).terminal(),
        ensures
            r == after_future(future),
            final(self).terminal() == r.resolved(),
            !r.resolved() ==> final(self).slot() == old(self).slot(),
            final(self).deadline() == old(self).deadline(),
    {
        match future {
            Status::NotReady => Status::NotReady,
            Status::Ready(v) => {
                self.future = None;
                Status::Ready(v)
            },
            Status::Failed(e) => {
                self.future = None;
                Status::Failed(Error::FutureError(e))
            },
        }
    }

    /// Takes in what the deadline reported on a poll in which the future was
    /// not ready. An elapsed deadline is a timeout and a failed timer is a
    /// timer failure; either drops the future unfinished. Otherwise the
    /// wrapper is not ready and keeps its future for the next poll.
    pub fn on_timer<V, E>(&mut self, timer: Status<(), tokio_timer::TimerError>) -> (r: Status<
        V,
        Error<E>,
    >)
        requires
            !old(self).terminal(),
        ensures
            r == after_timer::<V, E>(timer),
            final(self).terminal() == r.resolved(),
            !r.resolved() ==> final(self).slot() == old(self).slot(),
            final(self).deadline() == old(self).deadline(),
    {
        match timer {
            Status::NotReady => Status::NotReady,
            Status::Ready(_) => {
                self.future = None;
                Status::Failed(Error::TimedOut)
            },
            Status::Failed(e) => {
                self.future = None;
                Status::Failed(Error::TimerFailed(e))
            },
        }
    }
}

/// A future that resolves with a value before the deadline makes the
/// wrapper resolve with that same value, whatever the deadline would say.
pub proof fn value_before_deadline<V, E>(v: V, timer: Status<(), tokio_timer::TimerError>)
    ensures
        round::<V, E>(Status::Ready(v), timer) == Status::<V, Error<E>>::Ready(v),
{
}

/// A future that resolves with an error before the deadline makes the
/// wrapper fail with that error as the future's own, never as a timeout.
pub proof fn error_before_deadline<V, E>(e: E, timer: Status<(), tokio_timer::TimerError>)
    ensures
        round::<V, E>(Status::Failed(e), timer) == Status::<V, Error<E>>::Failed(
            Error::FutureError(e),
        ),
        round::<V, E>(Status::Failed(e), timer) != Status::<V, Error<E>>::Failed(Error::TimedOut),
{
}

/// A future that is still not ready when the deadline elapses makes the
/// wrapper time out.
pub proof fn deadline_elapses<V, E>()
    ensures
        round::<V, E>(Status::NotReady, Status::Ready(())) == Status::<V, Error<E>>::Failed(
            Error::TimedOut,
        ),
{
}

/// When the future resolves on the same poll on which the deadline has
/// elapsed or failed, the future's resolution is the outcome.
pub proof fn future_wins_tie<V, E>(
    future: Status<V, E>,
    timer: Status<(), tokio_timer::TimerError>,
)
    requires
        future.resolved(),
        timer.resolved(),
    ensures
        round(future, timer) == after_future(future),
        round(future, timer).resolved(),
{
}

} // verus!
