//! Piping messages from one transport into another and vice versa.
//!
//! A pipe runs a loop that waits for whichever comes first: a message (or error, or the end)
//! from either transport, or a request to stop. [`PipeLoop`] holds the decisions of that
//! loop; the runtime performs the actions it returns and hands back what happened.
use vstd::prelude::*;

use crate::transport::Error;

verus! {

/// Strategy of handling message passing errors.
#[derive(Debug, PartialEq, Eq, Clone, Copy, Structural)]
pub enum ErrorHandlingStrategy {
    /// Ignore the error.
    Ignore,
    /// Try again to send/receive message.
    Retry,
    /// Close pipe.
    Close,
}

impl Default for ErrorHandlingStrategy {
    fn default() -> (r: Self)
        ensures
            r == ErrorHandlingStrategy::Ignore,
    {
        ErrorHandlingStrategy::Ignore
    }
}

/// Callback called when an error is encountered while trying to send a message
/// through the transport.
///
/// It also receives [`Error::Closed`] errors, which need to be handled properly
/// (most likely by returning [`ErrorHandlingStrategy::Close`]).
pub trait SendErrorCallback<Message, E> {
    /// Handle sending error.
    fn on_send_error(&mut self, message: &Message, error: Error<E>) -> ErrorHandlingStrategy;
}

/// Callback called when an error is encountered while trying to receive a message
/// from the transport.
pub trait ReceiveErrorCallback<E> {
    /// Handle receiving error.
    fn on_receive_error(&mut self, error: E) -> ErrorHandlingStrategy;
}

/// Default [`SendErrorCallback`]: it ignores errors, except [`Error::Closed`], which
/// closes the pipe.
#[derive(Debug)]
pub struct DefaultSendErrorCallback;

impl<Message, E> SendErrorCallback<Message, E> for DefaultSendErrorCallback {
    fn on_send_error(&mut self, message: &Message, error: Error<E>) -> (r: ErrorHandlingStrategy)
        ensures
            error is Closed ==> r == ErrorHandlingStrategy::Close,
            error is Other ==> r == ErrorHandlingStrategy::Ignore,
    {
        match error {
            Error::Closed => ErrorHandlingStrategy::Close,
            Error::Other(_) => ErrorHandlingStrategy::Ignore,
        }
    }
}

/// Default [`ReceiveErrorCallback`]: it ignores errors.
#[derive(Debug)]
pub struct DefaultReceiveErrorCallback;

impl<E> ReceiveErrorCallback<E> for DefaultReceiveErrorCallback {
    fn on_receive_error(&mut self, error: E) -> (r: ErrorHandlingStrategy)
        ensures
            r == ErrorHandlingStrategy::Ignore,
    {
        ErrorHandlingStrategy::Ignore
    }
}

/// What happened, as seen by one pipe loop iteration.
pub enum PipeEvent<M, E, F> {
    /// One of the transports yielded a message, an error, or ended (`None`).
    Received(Option<Result<M, E>>),
    /// The receive error callback chose a strategy for the last receive error.
    ReceiveErrorHandled(ErrorHandlingStrategy),
    /// Sending the message being forwarded completed with this result.
    Sent(Result<(), Error<F>>),
    /// The send error callback chose a strategy for the last send error.
    SendErrorHandled(ErrorHandlingStrategy),
    /// The stop signal completed; `true` when a stop was requested, `false` when the
    /// pipe's handle went away without requesting it.
    StopSignal(bool),
}

/// What the runtime should do next.
pub enum PipeAction<E, F> {
    /// Send (a copy of) the message being forwarded into the other transport.
    Send,
    /// Ask the receive error callback what to do with this error.
    HandleReceiveError(E),
    /// Ask the send error callback what to do with this error (and the message being
    /// forwarded).
    HandleSendError(Error<F>),
    /// Wait for the next event.
    Wait,
    /// Leave the loop: the pipe is closed.
    Finish,
}

/// Mathematical content of a [`PipeLoop`].
pub struct PipeLoopView<M> {
    /// Message currently being forwarded, if any.
    pub forwarding: Option<M>,
    /// The `should_close` flag of the loop.
    pub should_close: bool,
}

/// Decisions of a pipe's forwarding loop.
pub struct PipeLoop<M> {
    forwarding: Option<M>,
    should_close: bool,
}

impl<M> View for PipeLoop<M> {
    type V = PipeLoopView<M>;

    closed spec fn view(&self) -> PipeLoopView<M> {
        PipeLoopView { forwarding: self.forwarding, should_close: self.should_close }
    }
}

/// Can `event` happen next in a loop in state `s`: send results and send error strategies
/// come only while a message is being forwarded, everything else only while none is.
pub open spec fn expects<M, E, F>(s: PipeLoopView<M>, event: PipeEvent<M, E, F>) -> bool {
    match event {
        PipeEvent::Sent(_) => s.forwarding is Some,
        PipeEvent::SendErrorHandled(_) => s.forwarding is Some,
        _ => s.forwarding is None,
    }
}

/// State after `event` in state `s`.
pub open spec fn next_state<M, E, F>(s: PipeLoopView<M>, event: PipeEvent<M, E, F>) -> PipeLoopView<M> {
    match event {
        PipeEvent::Received(None) => PipeLoopView { should_close: true, ..s },
        PipeEvent::Received(Some(Ok(m))) => PipeLoopView { forwarding: Some(m), ..s },
        PipeEvent::Received(Some(Err(_))) => s,
        PipeEvent::ReceiveErrorHandled(strategy) =>
            if strategy == ErrorHandlingStrategy::Close { PipeLoopView { should_close: true, ..s } } else { s },
        PipeEvent::Sent(Ok(())) => PipeLoopView { forwarding: None, should_close: false },
        PipeEvent::Sent(Err(_)) => s,
        PipeEvent::SendErrorHandled(strategy) =>
            if strategy == ErrorHandlingStrategy::Retry {
                s
            } else {
                PipeLoopView { forwarding: None, should_close: strategy == ErrorHandlingStrategy::Close }
            },
        PipeEvent::StopSignal(requested) =>
            if requested { PipeLoopView { should_close: true, ..s } } else { s },
    }
}

/// Is `action` what the loop does after `event`, ending in state `t`.
pub open spec fn next_action<M, E, F>(event: PipeEvent<M, E, F>, t: PipeLoopView<M>, action: PipeAction<E, F>) -> bool {
    match event {
        PipeEvent::Received(Some(Ok(_))) => action is Send,
        PipeEvent::Received(Some(Err(e))) => action == PipeAction::<E, F>::HandleReceiveError(e),
        PipeEvent::Sent(Err(e)) => action == PipeAction::<E, F>::HandleSendError(e),
        PipeEvent::SendErrorHandled(strategy) =>
            if strategy == ErrorHandlingStrategy::Retry {
                action is Send
            } else if t.should_close {
                action is Finish
            } else {
                action is Wait
            },
        _ => if t.should_close { action is Finish } else { action is Wait },
    }
}

impl<M> PipeLoop<M> {
    /// A loop that forwards nothing and is not closing.
    pub fn new() -> (r: Self)
        ensures
            r@ == (PipeLoopView::<M> { forwarding: None, should_close: false }),
    {
        PipeLoop { forwarding: None, should_close: false }
    }

    /// The message being forwarded, if any.
    pub fn forwarding(&self) -> (r: Option<&M>)
        ensures
            match r {
                Some(m) => self@.forwarding == Some(*m),
                None => self@.forwarding is None,
            },
    {
        match &self.forwarding {
            Some(m) => Some(m),
            None => None,
        }
    }

    /// Is a message being forwarded (so that the next event must be about sending it).
    pub fn is_forwarding(&self) -> (r: bool)
        ensures
            r == self@.forwarding is Some,
    {
        self.forwarding.is_some()
    }

    /// Take one step of the loop on `event`.
    ///
    /// A received message is forwarded to the other transport; sending is retried, given up
    /// or turned into closing as the send error callback decides, and a successful send
    /// keeps the pipe open. A transport that ends, a receive error the callback answers with
    /// [`ErrorHandlingStrategy::Close`], and a requested stop all close the pipe.
    pub fn step<E, F>(&mut self, event: PipeEvent<M, E, F>) -> (action: PipeAction<E, F>)
        requires
            expects(old(self)@, event),
        ensures
            final(self)@ == next_state(old(self)@, event),
            next_action(event, final(self)@, action),
    {
        match event {
            PipeEvent::Received(None) => {
                self.should_close = true;
                PipeAction::Finish
            },
            PipeEvent::Received(Some(Ok(m))) => {
                self.forwarding = Some(m);
                PipeAction::Send
            },
            PipeEvent::Received(Some(Err(e))) => PipeAction::HandleReceiveError(e),
            PipeEvent::ReceiveErrorHandled(strategy) => {
                if strategy == ErrorHandlingStrategy::Close {
                    self.should_close = true;
                }
                self.finish_or_wait()
            },
            PipeEvent::Sent(Ok(())) => {
                self.forwarding = None;
                self.should_close = false;
                PipeAction::Wait
            },
            PipeEvent::Sent(Err(e)) => PipeAction::HandleSendError(e),
            PipeEvent::SendErrorHandled(strategy) => {
                match strategy {
                    ErrorHandlingStrategy::Retry => PipeAction::Send,
                    ErrorHandlingStrategy::Ignore => {
                        self.forwarding = None;
                        self.should_close = false;
                        PipeAction::Wait
                    },
                    ErrorHandlingStrategy::Close => {
                        self.forwarding = None;
                        self.should_close = true;
                        PipeAction::Finish
                    },
                }
            },
            PipeEvent::StopSignal(requested) => {
                if requested {
                    self.should_close = true;
                }
                self.finish_or_wait()
            },
        }
    }

    fn finish_or_wait<E, F>(&self) -> (action: PipeAction<E, F>)
        ensures
            self@.should_close ==> action is Finish,
            !self@.should_close ==> action is Wait,
    {
        if self.should_close {
            PipeAction::Finish
        } else {
            PipeAction::Wait
        }
    }
}

/// Whether a pipe stops its loop when its handle goes away.
pub struct PipeHandle {
    keep_open: bool,
}

impl PipeHandle {
    /// A handle that stops the pipe when it goes away.
    pub fn new() -> (r: Self)
        ensures
            r.stops_on_drop_spec(),
    {
        PipeHandle { keep_open: false }
    }

    /// Does the pipe stop when its handle goes away.
    pub closed spec fn stops_on_drop_spec(&self) -> bool {
        !self.keep_open
    }

    /// Keep pipe open after its handle goes away.
    pub fn keep_open(&mut self)
        ensures
            !final(self).stops_on_drop_spec(),
    {
        self.keep_open = true;
    }

    /// Stop message interchange when the handle goes away, even if it was kept open.
    pub fn break_pipe(&mut self)
        ensures
            final(self).stops_on_drop_spec(),
    {
        self.keep_open = false;
    }

    /// Does the pipe stop when its handle goes away.
    pub fn stops_on_drop(&self) -> (r: bool)
        ensures
            r == self.stops_on_drop_spec(),
    {
        !self.keep_open
    }
}

/// Closing law: in every state the loop leaves, a message is being forwarded only while a
/// send is pending, and the loop finishes exactly when it decided to close.
pub proof fn lemma_finish_iff_closing<M, E, F>(s: PipeLoopView<M>, event: PipeEvent<M, E, F>, action: PipeAction<E, F>)
    requires
        expects(s, event),
        next_action(event, next_state(s, event), action),
    ensures
        action is Finish <==> (next_state(s, event).should_close && !(action is Send) && !(action is HandleReceiveError) && !(action is HandleSendError)),
        action is Finish ==> next_state(s, event).forwarding is None,
{
}

/// Receive error law: after the receive error callback answers, the pipe closes exactly when
/// the answer is [`ErrorHandlingStrategy::Close`] (or it was closing already); `Ignore` and
/// `Retry` leave it as it was, waiting for the next message.
pub proof fn lemma_receive_error_closes_only_on_close<M, E, F>(s: PipeLoopView<M>, strategy: ErrorHandlingStrategy, action: PipeAction<E, F>)
    requires
        s.forwarding is None,
        next_action(PipeEvent::<M, E, F>::ReceiveErrorHandled(strategy), next_state(s, PipeEvent::<M, E, F>::ReceiveErrorHandled(strategy)), action),
    ensures
        next_state(s, PipeEvent::<M, E, F>::ReceiveErrorHandled(strategy)).forwarding is None,
        next_state(s, PipeEvent::<M, E, F>::ReceiveErrorHandled(strategy)).should_close
            == (s.should_close || strategy == ErrorHandlingStrategy::Close),
        !s.should_close ==> (action is Finish <==> strategy == ErrorHandlingStrategy::Close),
        !s.should_close && strategy != ErrorHandlingStrategy::Close ==> action is Wait,
{
}

/// Forwarding law: the loop forwards one message at a time. After every step a message is
/// being forwarded exactly when the runtime is told to send it or to handle its send error,
/// so the loop waits for (and accepts) a new message only once the previous one was sent or
/// given up.
pub proof fn lemma_one_message_at_a_time<M, E, F>(s: PipeLoopView<M>, event: PipeEvent<M, E, F>, action: PipeAction<E, F>)
    requires
        expects(s, event),
        next_action(event, next_state(s, event), action),
    ensures
        next_state(s, event).forwarding is Some <==> (action is Send || action is HandleSendError),
        action is Wait ==> forall|m: Option<Result<M, E>>| #[trigger] expects(next_state(s, event), PipeEvent::<M, E, F>::Received(m)),
{
}

} // verus!
