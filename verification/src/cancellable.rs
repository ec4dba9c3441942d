//! The cancellation token: armed until it is cancelled, then cancelled for
//! good.

use crate::error::{IOErrorEnum, NpioError};
use vstd::prelude::*;

verus! {

/// A cancellation token. It starts armed; `cancel` trips it, and nothing
/// arms it again.
///
/// The token is a plain value: a copy of it is a snapshot of its state, and
/// cancelling one copy cancels no other. Tasks that are to see one another's
/// cancellation share one token behind a lock.
#[derive(Debug, Clone, Copy, PartialEq, Eq, Structural)]
pub struct Cancellable {
    cancelled: bool,
}

impl View for Cancellable {
    type V = bool;

    /// Whether the token is cancelled.
    closed spec fn view(&self) -> bool {
        self.cancelled
    }
}

impl Cancellable {
    /// An armed token.
    pub fn new() -> (r: Self)
        ensures
            !r@,
    {
        Cancellable { cancelled: false }
    }

    /// Trips the token. Returns whether this call was the one that tripped
    /// it, which is when those who wait are to be woken.
    pub fn cancel(&mut self) -> (first: bool)
        ensures
            final(self)@,
            first == !old(self)@,
    {
        let first = !self.cancelled;
        self.cancelled = true;
        first
    }

    /// Whether the token is cancelled.
    pub fn is_cancelled(&self) -> (r: bool)
        ensures
            r == self@,
    {
        self.cancelled
    }

    /// Fails with `Cancelled` exactly when the token is cancelled.
    pub fn check(&self) -> (r: Result<(), NpioError>)
        ensures
            r is Err <==> self@,
            r matches Err(e) ==> e.spec_kind() == IOErrorEnum::Cancelled && e.spec_message()
                == "Operation cancelled"@,
    {
        if self.is_cancelled() {
            Err(NpioError::new(IOErrorEnum::Cancelled, "Operation cancelled"))
        } else {
            Ok(())
        }
    }
}

impl Default for Cancellable {
    fn default() -> (r: Self)
        ensures
            !r@,
    {
        Cancellable::new()
    }
}

/// An operation runs under a tripped token: there is a token, and it is
/// cancelled.
pub open spec fn tripped(cancellable: Option<&Cancellable>) -> bool {
    cancellable matches Some(c) && c@
}

/// What an operation does at a checkpoint: it goes on under no token or an
/// armed one, and fails with `Cancelled` under a cancelled one.
pub fn checkpoint(cancellable: Option<&Cancellable>) -> (r: Result<(), NpioError>)
    ensures
        r is Err <==> tripped(cancellable),
        r matches Err(e) ==> e.spec_kind() == IOErrorEnum::Cancelled,
{
    match cancellable {
        Some(c) => c.check(),
        None => Ok(()),
    }
}

} // verus!
