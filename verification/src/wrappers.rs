//! Transports wrapping other transports: filtering, mapping, merging a sender with a
//! receiver, and channels.
use vstd::prelude::*;

use futures::channel::mpsc::SendError;

use crate::logging::{LogRecord, Level, Logger, LoggerView, Logging, emits};
use crate::transport::{Error, Poll};

verus! {

/// Logging state of a transport filtering the messages of another transport.
#[derive(Debug)]
pub struct Filtering {
    logger: Logger,
}

impl Logging for Filtering {
    const KIND: &'static str = "Filtering";

    closed spec fn logger_view(&self) -> LoggerView {
        self.logger@
    }

    fn logger(&self) -> (l: &Logger) {
        &self.logger
    }

    fn set_logger(&mut self, logger: Logger) {
        self.logger = logger;
    }
}

/// What a filtering transport does with one item its inner transport yielded.
pub open spec fn filtered<M, E>(polled: Poll<Option<Result<M, E>>>, keep: bool) -> Option<Poll<Option<Result<M, E>>>> {
    match polled {
        Poll::Ready(Some(Ok(m))) => if keep { Some(Poll::Ready(Some(Ok(m)))) } else { None },
        _ => Some(polled),
    }
}

/// Filtering law: the filter decides only about messages. The end of the inner stream,
/// its errors and pending are passed on unchanged whatever the filter says; a message is
/// passed on unchanged when kept and dropped otherwise.
pub proof fn lemma_filter_decides_only_messages<M, E>(polled: Poll<Option<Result<M, E>>>, keep: bool)
    ensures
        !(polled matches Poll::Ready(Some(Ok(_)))) ==> filtered(polled, keep) == Some(polled),
        polled matches Poll::Ready(Some(Ok(_))) ==> (filtered(polled, keep) == if keep { Some(polled) } else { None }),
        filtered(Poll::<Option<Result<M, E>>>::Ready(None), keep) == Some(Poll::<Option<Result<M, E>>>::Ready(None)),
{
}

impl Filtering {
    /// A filtering transport's logging state.
    pub fn new() -> (r: Self)
        ensures
            r.logger_view() == (LoggerView { kind: "Filtering"@, name: None, enabled: false }),
    {
        Filtering { logger: Logger::new::<Self>() }
    }

    /// Decide about an outgoing message (of type `message_type`) that the outgoing filter
    /// kept (`keep`) or not: a kept message is sent through the inner transport (`true`), any
    /// other is dropped as if sent, and logged as filtered out.
    pub fn outgoing(&self, keep: bool, message_type: &str) -> (r: (bool, Option<LogRecord>))
        ensures
            r.0 == keep,
            keep ==> r.1 is None,
            !keep ==> emits(self.logger_view(), r.1, Level::Trace, "outgoing message filtered out"@, Some(message_type@), None),
    {
        if keep {
            (true, None)
        } else {
            (false, self.logger.log_outgoing_filtered_out(message_type))
        }
    }

    /// Decide about one item the inner transport yielded, given whether the incoming filter
    /// keeps it (`keep`, read for messages only): a kept message, an error, the end and
    /// pending are passed on; a message that is not kept is dropped (`None`: the inner
    /// transport is polled again) and logged as filtered out.
    pub fn incoming<M, E>(&self, polled: Poll<Option<Result<M, E>>>, keep: bool, message_type: &str)
        -> (r: (Option<Poll<Option<Result<M, E>>>>, Option<LogRecord>))
        ensures
            r.0 == filtered(polled, keep),
            r.0 is None ==> emits(self.logger_view(), r.1, Level::Trace, "incoming message filtered out"@, Some(message_type@), None),
            r.0 is Some ==> r.1 is None,
    {
        match polled {
            Poll::Ready(Some(Ok(m))) => if keep {
                (Some(Poll::Ready(Some(Ok(m)))), None)
            } else {
                (None, self.logger.log_incoming_filtered_out(message_type))
            },
            other => (Some(other), None),
        }
    }
}

/// What a filtering transport passes on when its inner transport yields `polls` in order,
/// each with whether the incoming filter keeps it.
pub open spec fn delivered<M, E>(polls: Seq<(Poll<Option<Result<M, E>>>, bool)>) -> Seq<Poll<Option<Result<M, E>>>>
    decreases polls.len(),
{
    if polls.len() == 0 {
        Seq::empty()
    } else {
        let before = delivered(polls.drop_last());
        match filtered(polls.last().0, polls.last().1) {
            Some(p) => before.push(p),
            None => before,
        }
    }
}

/// The messages the filter keeps, in order.
pub open spec fn kept<M>(messages: Seq<(M, bool)>) -> Seq<M>
    decreases messages.len(),
{
    if messages.len() == 0 {
        Seq::empty()
    } else {
        let before = kept(messages.drop_last());
        if messages.last().1 { before.push(messages.last().0) } else { before }
    }
}

/// Filtering law: of the messages an inner transport yields, a filtering transport passes on
/// exactly those its filter keeps, in the order they came, and drops the others.
pub proof fn lemma_filter_keeps_order<M, E>(messages: Seq<(M, bool)>)
    ensures
        delivered(messages.map_values(|p: (M, bool)| (Poll::Ready(Some(Ok::<M, E>(p.0))), p.1)))
            == kept(messages).map_values(|m: M| Poll::Ready(Some(Ok::<M, E>(m)))),
    decreases messages.len(),
{
    let polls = messages.map_values(|p: (M, bool)| (Poll::Ready(Some(Ok::<M, E>(p.0))), p.1));
    if messages.len() > 0 {
        lemma_filter_keeps_order::<M, E>(messages.drop_last());
        assert(polls.drop_last() =~= messages.drop_last().map_values(|p: (M, bool)| (Poll::Ready(Some(Ok::<M, E>(p.0))), p.1)));
        let before = kept(messages.drop_last());
        if messages.last().1 {
            assert(before.push(messages.last().0).map_values(|m: M| Poll::Ready(Some(Ok::<M, E>(m))))
                =~= before.map_values(|m: M| Poll::Ready(Some(Ok::<M, E>(m)))).push(Poll::Ready(Some(Ok::<M, E>(messages.last().0)))));
        }
    } else {
        assert(delivered(polls) =~= kept(messages).map_values(|m: M| Poll::Ready(Some(Ok::<M, E>(m)))));
    }
}

/// Logging state of a transport mapping the messages of another transport.
#[derive(Debug)]
pub struct Mapping {
    logger: Logger,
}

impl Logging for Mapping {
    const KIND: &'static str = "Map";

    closed spec fn logger_view(&self) -> LoggerView {
        self.logger@
    }

    fn logger(&self) -> (l: &Logger) {
        &self.logger
    }

    fn set_logger(&mut self, logger: Logger) {
        self.logger = logger;
    }
}

impl Mapping {
    /// A mapping transport's logging state.
    pub fn new() -> (r: Self)
        ensures
            r.logger_view() == (LoggerView { kind: "Map"@, name: None, enabled: false }),
    {
        Mapping { logger: Logger::new::<Self>() }
    }

    /// Logging state of a transport unwrapping incoming messages: a mapping that logs as
    /// `Unwrapping`.
    pub fn unwrapping() -> (r: Self)
        ensures
            r.logger_view() == (LoggerView { kind: "Unwrapping"@, name: None, enabled: false }),
    {
        let mut mapping = Mapping::new();
        mapping.logger.override_kind_with_str("Unwrapping");
        mapping
    }
}

/// Logging state of a transport merged from a sender and a receiver.
#[derive(Debug)]
pub struct Merged {
    logger: Logger,
}

impl Logging for Merged {
    const KIND: &'static str = "Merged";

    closed spec fn logger_view(&self) -> LoggerView {
        self.logger@
    }

    fn logger(&self) -> (l: &Logger) {
        &self.logger
    }

    fn set_logger(&mut self, logger: Logger) {
        self.logger = logger;
    }
}

impl Merged {
    /// A merged transport's logging state.
    pub fn new() -> (r: Self)
        ensures
            r.logger_view() == (LoggerView { kind: "Merged"@, name: None, enabled: false }),
    {
        Merged { logger: Logger::new::<Self>() }
    }

    /// Logging state of a channel transport: a merged transport that logs as `Channel`.
    pub fn channel() -> (r: Self)
        ensures
            r.logger_view() == (LoggerView { kind: "Channel"@, name: None, enabled: false }),
    {
        let mut merged = Merged::new();
        merged.logger.override_kind_with_str("Channel");
        merged
    }
}

/// Channel transport error.
#[derive(Debug, PartialEq, Eq, Clone, Copy, Structural)]
pub enum ChannelError {
    /// Channel is full.
    ChannelIsFull,
}

impl ChannelError {
    /// Human readable description of the error.
    pub fn text(&self) -> (r: &'static str)
        ensures
            r@ == "channel is full"@,
    {
        "channel is full"
    }
}

/// Human readable description of a channel transport error.
pub fn channel_error_text(error: &Error<ChannelError>) -> (r: &'static str)
    ensures
        *error is Closed ==> r@ == "transport closed"@,
        *error is Other ==> r@ == "channel is full"@,
{
    match error {
        Error::Closed => "transport closed",
        Error::Other(e) => e.text(),
    }
}

/// Transport error of a channel whose send failed because it was full (`full`) or because
/// its receiver is gone.
pub fn send_error(full: bool) -> (r: Error<ChannelError>)
    ensures
        full ==> r == Error::Other(ChannelError::ChannelIsFull),
        !full ==> r is Closed,
{
    if full {
        Error::Other(ChannelError::ChannelIsFull)
    } else {
        Error::Closed
    }
}

#[verifier::external_type_specification]
#[verifier::external_body]
pub struct ExSendError(SendError);

/// Result of `SendError::is_full` on `error`: did the send fail because the channel was full
/// (rather than because its receiver is gone).
pub uninterp spec fn send_error_full(error: SendError) -> bool;

/// Calls `futures::channel::mpsc::SendError::is_full`, which reads the kind the error was made
/// with; its answer is a function of the error alone, named [`send_error_full`].
#[verifier::external_body]
fn is_full(error: &SendError) -> (r: bool)
    ensures
        r == send_error_full(*error),
{
    error.is_full()
}

/// Transport error of a failed channel send: [`ChannelError::ChannelIsFull`] when the
/// channel was full, [`Error::Closed`] when its receiver is gone.
pub fn map_send_error(error: SendError) -> (r: Error<ChannelError>)
    ensures
        send_error_full(error) ==> r == Error::Other(ChannelError::ChannelIsFull),
        !send_error_full(error) ==> r is Closed,
{
    send_error(is_full(&error))
}

} // verus!
