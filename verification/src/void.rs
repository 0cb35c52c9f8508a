//! Transport sending messages into the void, never receiving any messages.
use vstd::prelude::*;

use core::convert::Infallible;
use core::marker::PhantomData;

use crate::logging::{LogRecord, Level, Logger, LoggerView, Logging, emits};
use crate::transport::{Error, Poll};

verus! {

/// Transport sending messages into the void, never receiving any messages.
///
/// Sending messages into this transport always succeeds; an attempt to receive a
/// message never completes.
pub struct Void<Incoming, Outgoing> {
    logger: Logger,
    incoming: PhantomData<Incoming>,
    outgoing: PhantomData<Outgoing>,
}

impl<Incoming, Outgoing> Logging for Void<Incoming, Outgoing> {
    const KIND: &'static str = "Void";

    closed spec fn logger_view(&self) -> LoggerView {
        self.logger@
    }

    fn logger(&self) -> (l: &Logger) {
        &self.logger
    }

    fn set_logger(&mut self, logger: Logger) {
        self.logger = logger;
    }
}

impl<Incoming, Outgoing> Default for Void<Incoming, Outgoing> {
    fn default() -> (r: Self)
        ensures
            r.logger_view() == (LoggerView { kind: "Void"@, name: None, enabled: false }),
    {
        Void { logger: Logger::new::<Self>(), incoming: PhantomData, outgoing: PhantomData }
    }
}

impl<Incoming, Outgoing> Void<Incoming, Outgoing> {
    /// Readiness for sending: always ready.
    pub fn poll_ready(&self) -> (r: (Poll<Result<(), Error<Infallible>>>, Option<LogRecord>))
        ensures
            r.0 == Poll::Ready(Ok::<(), Error<Infallible>>(())),
            r.1 is None,
    {
        (Poll::Ready(Ok(())), self.logger.log_ready_success())
    }

    /// Send `item` (of type `message_type`) into the void: always succeeds.
    pub fn start_send(&self, item: Outgoing, message_type: &str) -> (r: (Result<(), Error<Infallible>>, Option<LogRecord>))
        ensures
            r.0 == Ok::<(), Error<Infallible>>(()),
            emits(self.logger_view(), r.1, Level::Debug, "message sent"@, Some(message_type@), None),
    {
        (Ok(()), self.logger.log_sending_success(message_type, None))
    }

    /// Flush: always succeeds.
    pub fn poll_flush(&self) -> (r: (Poll<Result<(), Error<Infallible>>>, Option<LogRecord>))
        ensures
            r.0 == Poll::Ready(Ok::<(), Error<Infallible>>(())),
            emits(self.logger_view(), r.1, Level::Debug, "outgoing messages flushed"@, None, None),
    {
        (Poll::Ready(Ok(())), self.logger.log_flush_success())
    }

    /// Close: always succeeds.
    pub fn poll_close(&self) -> (r: (Poll<Result<(), Error<Infallible>>>, Option<LogRecord>))
        ensures
            r.0 == Poll::Ready(Ok::<(), Error<Infallible>>(())),
            emits(self.logger_view(), r.1, Level::Info, "transport closed"@, None, None),
    {
        (Poll::Ready(Ok(())), self.logger.log_closed_success())
    }

    /// Receive: never completes, and warns that the void was asked for a message.
    pub fn poll_next(&self) -> (r: (Poll<Option<Result<Incoming, Infallible>>>, Option<LogRecord>))
        ensures
            r.0 is Pending,
            emits(self.logger_view(), r.1, Level::Warn, "attempted to receive from void"@, None, None),
    {
        (Poll::Pending, self.logger.log_receive_from_void())
    }

    /// The stream of incoming messages never ends.
    pub fn is_terminated(&self) -> (r: bool)
        ensures
            !r,
    {
        false
    }
}

} // verus!
