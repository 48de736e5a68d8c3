//! The vocabulary shared by every state machine of the stack.

use vstd::prelude::*;

verus! {

/// What one poll of a future or of a listener reported.
#[derive(Debug, Clone, Copy, PartialEq, Eq)]
pub enum Poll<T> {
    /// The value is there.
    Ready(T),
    /// Nothing yet; the driver polls again once it is woken.
    Pending,
}

/// What a machine with more than one stage reports after one step.
#[derive(Debug, Clone, Copy, PartialEq, Eq)]
pub enum Progress<T> {
    /// The machine has finished with this value.
    Ready(T),
    /// The stage that was polled is still pending.
    Pending,
    /// The machine moved on to its next stage, which the driver polls at once.
    Advanced,
}

/// A handle on a computation that resolves once, to `Ok` or to `Error`.
///
/// The library never polls such a handle itself: it carries it, and its
/// machines take what a poll of it reported.
pub trait TryFuture {
    type Ok;

    type Error;
}

/// A handle on a lazy sequence of `Item`s.
pub trait Stream {
    type Item;
}

} // verus!
