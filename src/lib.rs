//! A deadline for futures: a wrapper that races a computation against a
//! timer and reports the computation's value, its error, a timeout or a
//! failure of the timer, each at most once.

mod timeout;
mod timer;

pub use timeout::{Error, Status, Timeout};
