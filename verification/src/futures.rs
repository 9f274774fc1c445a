//! Cancelling one operation by a signal from outside.

use vstd::prelude::*;

verus! {

/// How the race between an operation and an outside signal ended.
pub enum Raced<T> {
    /// The operation finished first, with this value.
    Finished(T),
    /// The signal came first; the operation was dropped.
    Signalled,
    /// Waiting for the signal failed.
    WaitFailed,
}

/// What the caller of a raced operation gets: its value, or `None` where
/// the signal came first. A wait that failed is an error of the caller,
/// who passed something that cannot be waited for.
pub fn cancel_by_event<T>(raced: Raced<T>) -> (r: Option<T>)
    requires
        !(raced is WaitFailed),
    ensures
        match raced {
            Raced::Finished(value) => r == Some(value),
            _ => r is None,
        },
{
    match raced {
        Raced::Finished(value) => Some(value),
        _ => None,
    }
}

} // verus!
