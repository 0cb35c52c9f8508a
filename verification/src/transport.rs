//! Errors, readiness values and receiving helpers shared by every transport.
use vstd::prelude::*;

use crate::logging::displays;

verus! {

/// Transport error.
#[derive(Debug, PartialEq, Eq)]
pub enum Error<Other> {
    /// Occurs when transport is closed.
    Closed,
    /// Other non-predefined transport-specific error.
    Other(Other),
}

impl<Other> Error<Other> {
    /// Was error caused by transport being closed.
    pub fn closed(&self) -> (r: bool)
        ensures
            r <==> (*self is Closed),
    {
        match self {
            Error::Closed => true,
            Error::Other(_) => false,
        }
    }
}

impl<Other: core::fmt::Display> Error<Other> {
    /// Human readable description of the error: `transport closed`, or the text of the
    /// transport-specific error.
    pub fn text(&self) -> (r: String)
        ensures
            *self is Closed ==> r@ == "transport closed"@,
            *self matches Error::Other(other) ==> displays(&other, r@),
    {
        match self {
            Error::Closed => "transport closed".to_owned(),
            Error::Other(other) => {
                let s = other.to_string();
                proof {
                    assert(displays(other, s@));
                }
                s
            },
        }
    }
}

/// Result of receiving one message from a stream of message results: the end of the
/// stream becomes [`Error::Closed`], a transport error becomes [`Error::Other`].
pub fn receive_outcome<M, E>(item: Option<Result<M, E>>) -> (r: Result<M, Error<E>>)
    ensures
        match item {
            None => r == Err::<M, Error<E>>(Error::Closed),
            Some(Ok(m)) => r == Ok::<M, Error<E>>(m),
            Some(Err(e)) => r == Err::<M, Error<E>>(Error::Other(e)),
        },
{
    match item {
        None => Err(Error::Closed),
        Some(Ok(m)) => Ok(m),
        Some(Err(e)) => Err(Error::Other(e)),
    }
}

/// What a [`MessageStream`] does with one item of the stream it wraps.
#[derive(Debug, PartialEq, Eq)]
pub enum MessageStep<M, E> {
    /// Yield this message.
    Yield(M),
    /// Hand this error to the error callback, then poll the wrapped stream again.
    Skip(E),
    /// The wrapped stream ended: so does the message stream.
    End,
}

/// Stream of messages with the errors of the wrapped stream filtered out and handed to
/// an error callback.
#[derive(Debug)]
pub struct MessageStream<T, F> {
    stream: T,
    error_callback: F,
    terminated: bool,
}

impl<T, F> MessageStream<T, F> {
    /// Has the message stream ended.
    pub closed spec fn terminated_spec(&self) -> bool {
        self.terminated
    }

    /// The wrapped stream of message results.
    pub closed spec fn stream_spec(&self) -> T {
        self.stream
    }

    /// Callback called with every error of the wrapped stream.
    pub closed spec fn callback_spec(&self) -> F {
        self.error_callback
    }

    /// The wrapped stream, to be polled.
    pub fn stream_mut(&mut self) -> (r: &mut T)
        ensures
            *r == old(self).stream_spec(),
            final(self).stream_spec() == *final(r),
            final(self).callback_spec() == old(self).callback_spec(),
            final(self).terminated_spec() == old(self).terminated_spec(),
    {
        &mut self.stream
    }

    /// The error callback, to be called.
    pub fn error_callback_mut(&mut self) -> (r: &mut F)
        ensures
            *r == old(self).callback_spec(),
            final(self).callback_spec() == *final(r),
            final(self).stream_spec() == old(self).stream_spec(),
            final(self).terminated_spec() == old(self).terminated_spec(),
    {
        &mut self.error_callback
    }

    /// Wrap `stream`, handing its errors to `error_callback`.
    pub fn new(stream: T, error_callback: F) -> (r: Self)
        ensures
            r.stream_spec() == stream,
            r.callback_spec() == error_callback,
            !r.terminated_spec(),
    {
        MessageStream { stream, error_callback, terminated: false }
    }

    /// Has the message stream ended.
    pub fn is_terminated(&self) -> (r: bool)
        ensures
            r == self.terminated_spec(),
    {
        self.terminated
    }

    /// Handle one item of the wrapped stream: a message is yielded, an error skipped, and
    /// the end of the wrapped stream ends the message stream.
    pub fn on_next<M, E>(&mut self, item: Option<Result<M, E>>) -> (r: MessageStep<M, E>)
        ensures
            match item {
                None => r == MessageStep::<M, E>::End && final(self).terminated_spec(),
                Some(Ok(m)) => r == MessageStep::<M, E>::Yield(m) && final(self).terminated_spec() == old(self).terminated_spec(),
                Some(Err(e)) => r == MessageStep::<M, E>::Skip(e) && final(self).terminated_spec() == old(self).terminated_spec(),
            },
            final(self).stream_spec() == old(self).stream_spec(),
            final(self).callback_spec() == old(self).callback_spec(),
    {
        match item {
            None => {
                self.terminated = true;
                MessageStep::End
            },
            Some(Ok(m)) => MessageStep::Yield(m),
            Some(Err(e)) => MessageStep::Skip(e),
        }
    }
}

/// Readiness of an asynchronous operation: either ready with a value or still pending.
#[derive(Debug, PartialEq, Eq)]
pub enum Poll<T> {
    /// The operation completed with the given value.
    Ready(T),
    /// The operation has not completed yet.
    Pending,
}

} // verus!
