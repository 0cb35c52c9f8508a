//! Transport that rejects every operation.
use vstd::prelude::*;

use core::marker::PhantomData;

use crate::logging::{LogRecord, Level, Logger, LoggerView, Logging, emits, lemma_emits_failure_str};
use crate::transport::Poll;

verus! {

/// Transport-specific errors of [`Wall`].
#[derive(Debug, PartialEq, Eq, Clone, Copy, Structural)]
pub enum Error {
    /// Attempted to send message into the wall.
    Send,
    /// Attempted to receive message from the wall.
    Receive,
    /// Attempted to flush the wall.
    Flush,
    /// Attempted to close the wall.
    Close,
}

impl Error {
    /// Human readable description of the error.
    pub open spec fn text_spec(self) -> Seq<char> {
        match self {
            Error::Send => "attempted to send message into the wall"@,
            Error::Receive => "attempted to receive message from the wall"@,
            Error::Flush => "attempted to flush the wall"@,
            Error::Close => "attempted to close the wall"@,
        }
    }

    /// Human readable description of the error.
    pub fn text(&self) -> (r: &'static str)
        ensures
            r@ == self.text_spec(),
    {
        match self {
            Error::Send => "attempted to send message into the wall",
            Error::Receive => "attempted to receive message from the wall",
            Error::Flush => "attempted to flush the wall",
            Error::Close => "attempted to close the wall",
        }
    }
}

/// Transport rejecting every operation.
///
/// Attempting to send, receive from, flush or close this transport results in an error.
pub struct Wall<Incoming, Outgoing> {
    logger: Logger,
    incoming: PhantomData<Incoming>,
    outgoing: PhantomData<Outgoing>,
}

impl<Incoming, Outgoing> Logging for Wall<Incoming, Outgoing> {
    const KIND: &'static str = "Wall";

    closed spec fn logger_view(&self) -> LoggerView {
        self.logger@
    }

    fn logger(&self) -> (l: &Logger) {
        &self.logger
    }

    fn set_logger(&mut self, logger: Logger) {
        self.logger = logger;
    }
}

impl<Incoming, Outgoing> Default for Wall<Incoming, Outgoing> {
    fn default() -> (r: Self)
        ensures
            r.logger_view() == (LoggerView { kind: "Wall"@, name: None, enabled: false }),
    {
        Wall { logger: Logger::new::<Self>(), incoming: PhantomData, outgoing: PhantomData }
    }
}

impl<Incoming, Outgoing> Wall<Incoming, Outgoing> {
    /// Readiness for sending: always ready (the send itself fails).
    pub fn poll_ready(&self) -> (r: (Poll<Result<(), crate::transport::Error<Error>>>, Option<LogRecord>))
        ensures
            r.0 == Poll::Ready(Ok::<(), crate::transport::Error<Error>>(())),
            r.1 is None,
    {
        (Poll::Ready(Ok(())), self.logger.log_ready_success())
    }

    /// Send `item`: always fails with [`Error::Send`].
    pub fn start_send(&self, item: Outgoing) -> (r: (Result<(), crate::transport::Error<Error>>, Option<LogRecord>))
        ensures
            r.0 == Err::<(), crate::transport::Error<Error>>(crate::transport::Error::Other(Error::Send)),
            emits(self.logger_view(), r.1, Level::Error, "failed to send message: "@ + Error::Send.text_spec(), None, None),
    {
        let text = Error::Send.text();
        let log = self.logger.log_sending_failure(text);
        proof {
            lemma_emits_failure_str(self.logger@, log, "failed to send message: "@, text);
        }
        (Err(crate::transport::Error::Other(Error::Send)), log)
    }

    /// Flush: always fails with [`Error::Flush`].
    pub fn poll_flush(&self) -> (r: (Poll<Result<(), crate::transport::Error<Error>>>, Option<LogRecord>))
        ensures
            r.0 == Poll::Ready(Err::<(), crate::transport::Error<Error>>(crate::transport::Error::Other(Error::Flush))),
            emits(self.logger_view(), r.1, Level::Error, "failed to flush outgoing messages: "@ + Error::Flush.text_spec(), None, None),
    {
        let text = Error::Flush.text();
        let log = self.logger.log_flush_failure(text);
        proof {
            lemma_emits_failure_str(self.logger@, log, "failed to flush outgoing messages: "@, text);
        }
        (Poll::Ready(Err(crate::transport::Error::Other(Error::Flush))), log)
    }

    /// Close: always fails with [`Error::Close`].
    pub fn poll_close(&self) -> (r: (Poll<Result<(), crate::transport::Error<Error>>>, Option<LogRecord>))
        ensures
            r.0 == Poll::Ready(Err::<(), crate::transport::Error<Error>>(crate::transport::Error::Other(Error::Close))),
            emits(self.logger_view(), r.1, Level::Error, "failed to close transport: "@ + Error::Close.text_spec(), None, None),
    {
        let text = Error::Close.text();
        let log = self.logger.log_closed_failure(text);
        proof {
            lemma_emits_failure_str(self.logger@, log, "failed to close transport: "@, text);
        }
        (Poll::Ready(Err(crate::transport::Error::Other(Error::Close))), log)
    }

    /// Receive: always fails with [`Error::Receive`].
    pub fn poll_next(&self) -> (r: (Poll<Option<Result<Incoming, Error>>>, Option<LogRecord>))
        ensures
            r.0 == Poll::Ready(Some(Err::<Incoming, Error>(Error::Receive))),
            emits(self.logger_view(), r.1, Level::Error, "failed to receive message: "@ + Error::Receive.text_spec(), None, None),
    {
        let text = Error::Receive.text();
        let log = self.logger.log_receiving_failure(text);
        proof {
            lemma_emits_failure_str(self.logger@, log, "failed to receive message: "@, text);
        }
        (Poll::Ready(Some(Err(Error::Receive))), log)
    }

    /// The stream of incoming errors never ends.
    pub fn is_terminated(&self) -> (r: bool)
        ensures
            !r,
    {
        false
    }
}

} // verus!
