//! Life of a consumer request future, and of the stream a stream request opens.
//!
//! A request future sends its request the first time it is polled, then waits for the
//! reply; aborting it, or failing to hand the request to the consumer, ends it early.
//! [`RequestState`] holds those decisions for value requests (the reply is the value)
//! and stream requests (the reply says the stream was opened); the runtime performs the
//! actions it returns and reports the outcomes.
use vstd::prelude::*;

use super::Error;
use super::consumer::RequestId;
use crate::transport::Poll;

verus! {

/// Where a request future is in its life.
pub enum Phase<Request> {
    /// The request has not been handed to the consumer yet.
    Unsent(Request),
    /// The request is being handed to the consumer.
    Sending,
    /// The request was handed over; the future waits for the reply.
    Waiting,
    /// The future completed (or was aborted).
    Done,
}

/// What the runtime reports to a request future.
pub enum RequestEvent<T> {
    /// The future is polled (after its abort signal, if any, was found not to fire).
    Poll,
    /// The abort signal of the future fired.
    Abort,
    /// Handing the request to the consumer succeeded (`true`) or failed because the
    /// consumer is gone (`false`).
    Sent(bool),
    /// The reply channel completed: `Some` with the reply, `None` when the consumer dropped
    /// the reply sender.
    Reply(Option<Result<T, Error>>),
    /// The reply channel has nothing yet.
    NoReply,
}

/// What the runtime should do for a request future.
pub enum RequestAction<Request, T> {
    /// Hand this request to the consumer.
    Send(Request),
    /// Poll the reply channel.
    PollReply,
    /// Complete the future with this output.
    Ready(Result<T, Error>),
    /// The future is not ready.
    Pending,
}

/// Decisions of a request future.
pub struct RequestState<Request> {
    id: RequestId,
    phase: Phase<Request>,
    abortable: bool,
}

/// Phase after `event` in phase `p`.
pub open spec fn next_phase<Request, T>(p: Phase<Request>, event: RequestEvent<T>) -> Phase<Request> {
    match event {
        RequestEvent::Poll => match p {
            Phase::Unsent(_) => Phase::Sending,
            _ => p,
        },
        RequestEvent::Abort => Phase::Done,
        RequestEvent::Sent(ok) => if ok { Phase::Waiting } else { Phase::Done },
        RequestEvent::Reply(_) => Phase::Done,
        RequestEvent::NoReply => p,
    }
}

/// Output of a future whose reply channel completed with `reply`.
pub open spec fn reply_output<T>(reply: Option<Result<T, Error>>) -> Result<T, Error> {
    match reply {
        Some(r) => r,
        None => Err(Error::Dropped),
    }
}

/// Action after `event` in phase `p`.
pub open spec fn next_action<Request, T>(p: Phase<Request>, event: RequestEvent<T>) -> RequestAction<Request, T> {
    match event {
        RequestEvent::Poll => match p {
            Phase::Unsent(request) => RequestAction::Send(request),
            Phase::Waiting => RequestAction::PollReply,
            _ => RequestAction::Pending,
        },
        RequestEvent::Abort => RequestAction::Ready(Err(Error::Aborted)),
        RequestEvent::Sent(ok) => if ok { RequestAction::PollReply } else { RequestAction::Ready(Err(Error::Shutdown)) },
        RequestEvent::Reply(reply) => RequestAction::Ready(reply_output(reply)),
        RequestEvent::NoReply => RequestAction::Pending,
    }
}

/// Can `event` happen in phase `p`: send outcomes only while sending, reply outcomes only
/// while waiting, polls and abort signals whenever the future is not in the middle of
/// sending.
pub open spec fn expects<Request, T>(p: Phase<Request>, event: RequestEvent<T>) -> bool {
    match event {
        RequestEvent::Sent(_) => p is Sending,
        RequestEvent::Reply(_) => p is Waiting,
        RequestEvent::NoReply => p is Waiting,
        _ => !(p is Sending),
    }
}

impl<Request> RequestState<Request> {
    /// Id of the request.
    pub closed spec fn id_spec(&self) -> RequestId {
        self.id
    }

    /// Phase of the future.
    pub closed spec fn phase(&self) -> Phase<Request> {
        self.phase
    }

    /// Was an aborter created for the future (so that its abort signal is to be watched).
    pub closed spec fn abortable_spec(&self) -> bool {
        self.abortable
    }

    /// A future for `request` with id `id`, not sent yet.
    pub fn new(id: RequestId, request: Request) -> (r: Self)
        ensures
            r.id_spec() == id,
            r.phase() == Phase::Unsent(request),
            !r.abortable_spec(),
    {
        RequestState { id, phase: Phase::Unsent(request), abortable: false }
    }

    /// Request id.
    pub fn id(&self) -> (r: RequestId)
        ensures
            r == self.id_spec(),
    {
        self.id
    }

    /// Note that an aborter was created: from now on the abort signal is watched.
    /// Returns whether this is the first aborter (so that the signal is to be created).
    pub fn make_abortable(&mut self) -> (first: bool)
        ensures
            first == !old(self).abortable_spec(),
            final(self).abortable_spec(),
            final(self).phase() == old(self).phase(),
            final(self).id_spec() == old(self).id_spec(),
    {
        let first = !self.abortable;
        self.abortable = true;
        first
    }

    /// Is the abort signal to be watched.
    pub fn is_abortable(&self) -> (r: bool)
        ensures
            r == self.abortable_spec(),
    {
        self.abortable
    }

    /// Has the future completed.
    pub fn is_terminated(&self) -> (r: bool)
        ensures
            r == self.phase() is Done,
    {
        match self.phase {
            Phase::Done => true,
            _ => false,
        }
    }

    /// Is the request to be aborted at the consumer when the future goes away: when it has
    /// not completed.
    pub fn aborts_on_drop(&self) -> (r: bool)
        ensures
            r == !(self.phase() is Done),
    {
        !self.is_terminated()
    }

    /// Take one step on `event`.
    ///
    /// Polling sends the request the first time and then waits for the reply; a reply ends
    /// the future with the reply (or [`Error::Dropped`] when the reply sender was dropped);
    /// a failed send ends it with [`Error::Shutdown`] and an abort with [`Error::Aborted`].
    pub fn step<T>(&mut self, event: RequestEvent<T>) -> (action: RequestAction<Request, T>)
        requires
            expects(old(self).phase(), event),
        ensures
            final(self).phase() == next_phase(old(self).phase(), event),
            action == next_action(old(self).phase(), event),
            final(self).id_spec() == old(self).id_spec(),
            final(self).abortable_spec() == old(self).abortable_spec(),
    {
        match event {
            RequestEvent::Poll => {
                let mut phase = Phase::Sending;
                std::mem::swap(&mut phase, &mut self.phase);
                match phase {
                    Phase::Unsent(request) => RequestAction::Send(request),
                    Phase::Waiting => {
                        self.phase = Phase::Waiting;
                        RequestAction::PollReply
                    },
                    Phase::Sending => RequestAction::Pending,
                    Phase::Done => {
                        self.phase = Phase::Done;
                        RequestAction::Pending
                    },
                }
            },
            RequestEvent::Abort => {
                self.phase = Phase::Done;
                RequestAction::Ready(Err(Error::Aborted))
            },
            RequestEvent::Sent(ok) => {
                if ok {
                    self.phase = Phase::Waiting;
                    RequestAction::PollReply
                } else {
                    self.phase = Phase::Done;
                    RequestAction::Ready(Err(Error::Shutdown))
                }
            },
            RequestEvent::Reply(reply) => {
                self.phase = Phase::Done;
                match reply {
                    Some(r) => RequestAction::Ready(r),
                    None => RequestAction::Ready(Err(Error::Dropped)),
                }
            },
            RequestEvent::NoReply => RequestAction::Pending,
        }
    }
}

/// Sending-once law: after any event, a future that had left the unsent phase never
/// returns to it, so a request is handed to the consumer at most once; and a completed
/// future stays completed.
pub proof fn lemma_sent_at_most_once<Request, T>(p: Phase<Request>, event: RequestEvent<T>)
    requires
        expects(p, event),
    ensures
        !(p is Unsent) ==> !(next_phase(p, event) is Unsent),
        !(p is Unsent) ==> !(next_action(p, event) is Send),
        (p is Done && !(event is Abort)) ==> next_phase(p, event) is Done && next_action(p, event) is Pending,
{
}

/// State of the stream of values of an opened stream request.
pub struct ResultStreamState {
    receiving: bool,
}

impl ResultStreamState {
    /// Is the stream still receiving values.
    pub closed spec fn receiving_spec(&self) -> bool {
        self.receiving
    }

    /// A stream that receives values.
    pub fn new() -> (r: Self)
        ensures
            r.receiving_spec(),
    {
        ResultStreamState { receiving: true }
    }

    /// Has the stream ended.
    pub fn is_terminated(&self) -> (r: bool)
        ensures
            r == !self.receiving_spec(),
    {
        !self.receiving
    }

    /// Is the stream to be aborted at the consumer when it goes away: when it has not ended.
    pub fn aborts_on_drop(&self) -> (r: bool)
        ensures
            r == self.receiving_spec(),
    {
        self.receiving
    }

    /// Handle what the values channel returned: a value is yielded, the end of the channel
    /// ends the stream, and while nothing is there an abort signal that fired (`aborted`)
    /// ends it too. An ended stream yields nothing more.
    pub fn on_values<T>(&mut self, polled: Poll<Option<T>>, aborted: bool) -> (r: Poll<Option<T>>)
        ensures
            !old(self).receiving_spec() ==> r == Poll::Ready(None::<T>) && !final(self).receiving_spec(),
            old(self).receiving_spec() ==> match polled {
                Poll::Ready(Some(v)) => r == Poll::Ready(Some(v)) && final(self).receiving_spec(),
                Poll::Ready(None) => r == Poll::Ready(None::<T>) && !final(self).receiving_spec(),
                Poll::Pending => if aborted {
                    r == Poll::Ready(None::<T>) && !final(self).receiving_spec()
                } else {
                    r == Poll::<Option<T>>::Pending && final(self).receiving_spec()
                },
            },
    {
        if !self.receiving {
            return Poll::Ready(None);
        }
        match polled {
            Poll::Ready(Some(v)) => Poll::Ready(Some(v)),
            Poll::Ready(None) => {
                self.receiving = false;
                Poll::Ready(None)
            },
            Poll::Pending => {
                if aborted {
                    self.receiving = false;
                    Poll::Ready(None)
                } else {
                    Poll::Pending
                }
            },
        }
    }
}

} // verus!
