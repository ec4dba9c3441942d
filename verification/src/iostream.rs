//! The stream contracts: byte sources and byte sinks that are closed once
//! and for good.

use crate::cancellable::Cancellable;
use crate::error::{IOErrorEnum, NpioError, NpioResult};
use vstd::prelude::*;

verus! {

/// A source of bytes.
pub trait InputStream {
    /// Closes the stream.
    fn close(&mut self, cancellable: Option<&Cancellable>) -> NpioResult<()>;
}

/// A sink for bytes.
pub trait OutputStream {
    /// Closes the stream.
    fn close(&mut self, cancellable: Option<&Cancellable>) -> NpioResult<()>;

    /// Hands on what the stream holds back.
    fn flush(&mut self, cancellable: Option<&Cancellable>) -> NpioResult<()>;
}

/// Whether a stream is still open. A stream starts open; closing it is
/// final, and closing it twice changes nothing.
#[derive(Debug, Clone, Copy, PartialEq, Eq, Structural)]
pub struct StreamState {
    closed: bool,
}

impl View for StreamState {
    type V = bool;

    /// Whether the stream is closed.
    closed spec fn view(&self) -> bool {
        self.closed
    }
}

impl StreamState {
    /// The state of a stream that was just opened.
    pub fn new() -> (r: Self)
        ensures
            !r@,
    {
        StreamState { closed: false }
    }

    /// Whether the stream is closed.
    pub fn is_closed(&self) -> (r: bool)
        ensures
            r == self@,
    {
        self.closed
    }

    /// Whether a read, a write or a flush may go on: it fails with `Closed`
    /// exactly on a closed stream.
    pub fn check_open(&self) -> (r: NpioResult<()>)
        ensures
            r is Err <==> self@,
            r matches Err(e) ==> e.spec_kind() == IOErrorEnum::Closed,
    {
        if self.closed {
            Err(NpioError::new(IOErrorEnum::Closed, "Stream is closed"))
        } else {
            Ok(())
        }
    }

    /// Closes the stream. Returns whether this call closed it, which is
    /// when the resource under it is to be released.
    pub fn close(&mut self) -> (first: bool)
        ensures
            final(self)@,
            first == !old(self)@,
    {
        let first = !self.closed;
        self.closed = true;
        first
    }
}

} // verus!
