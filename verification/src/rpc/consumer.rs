//! Consumer side of RPC: messages a consumer sends and the bookkeeping of its pending
//! requests.
//!
//! A consumer keeps, per API method, a table from request ids to the senders through which
//! results reach the waiting request futures, and one counter of pending requests shared by
//! all tables. A value request is pending until its response arrives; a stream request is
//! pending until the producer reports the stream open. The counter never falls below the
//! number of requests that wait in the tables, so a consumer that reports itself idle has
//! none waiting.
use vstd::prelude::*;

use std::collections::HashMap;

use atomic_counter::{AtomicCounter, ConsistentCounter};

use super::producer::{self, StreamResponse};
use super::{Error, ShutdownType};

verus! {

broadcast use vstd::std_specs::hash::group_hash_axioms;

/// Request id.
pub type RequestId = u64;

/// Consumer message.
#[derive(Debug)]
pub struct Message<Request> {
    /// Request id.
    pub id: RequestId,
    /// Message payload.
    pub payload: Payload<Request>,
}

/// Consumer message payload.
#[derive(Debug)]
pub enum Payload<Request> {
    /// Request arguments.
    Request(Request),
    /// Abort request.
    Abort,
}

/// Where the result of a request goes, as handed to the consumer with the request.
#[derive(Debug)]
pub enum ResultSender<Value, Opened, Values> {
    /// Result sender for single values.
    Value(Value),
    /// Result senders for streams.
    Stream {
        /// Sender for the stream open result.
        result_sender: Opened,
        /// Sender for stream values.
        values_sender: Values,
    },
    /// Request was aborted.
    Abort,
}

/// Value requests of a table that wait for their response.
pub open spec fn value_waiting<S>(requests: Map<RequestId, S>) -> nat {
    requests.dom().len()
}

/// Ids of the stream requests of a table that wait for the producer to open the stream.
pub open spec fn opening<R, W>(requests: Map<RequestId, (Option<R>, W)>) -> Set<RequestId> {
    requests.dom().filter(|id: RequestId| requests[id].0 is Some)
}

/// Stream requests of a table that wait for the producer to open the stream.
pub open spec fn stream_waiting<R, W>(requests: Map<RequestId, (Option<R>, W)>) -> nat {
    opening(requests).len()
}

proof fn lemma_opening_insert<R, W>(requests: Map<RequestId, (Option<R>, W)>, id: RequestId, entry: (Option<R>, W))
    requires
        requests.dom().finite(),
    ensures
        opening(requests.insert(id, entry)) == if entry.0 is Some {
            opening(requests).insert(id)
        } else {
            opening(requests).remove(id)
        },
        opening(requests).finite(),
        stream_waiting(requests.insert(id, entry)) == stream_waiting(requests)
            + (if entry.0 is Some { 1int } else { 0int })
            - (if requests.dom().contains(id) && requests[id].0 is Some { 1int } else { 0int }),
{
    let new = requests.insert(id, entry);
    if entry.0 is Some {
        assert(opening(new) =~= opening(requests).insert(id));
    } else {
        assert(opening(new) =~= opening(requests).remove(id));
    }
    requests.dom().lemma_len_filter(|k: RequestId| requests[k].0 is Some);
}

proof fn lemma_opening_remove<R, W>(requests: Map<RequestId, (Option<R>, W)>, id: RequestId)
    requires
        requests.dom().finite(),
    ensures
        opening(requests.remove(id)) == opening(requests).remove(id),
        stream_waiting(requests.remove(id)) == stream_waiting(requests)
            - (if requests.dom().contains(id) && requests[id].0 is Some { 1int } else { 0int }),
{
    assert(opening(requests.remove(id)) =~= opening(requests).remove(id));
    requests.dom().lemma_len_filter(|k: RequestId| requests[k].0 is Some);
}

/// Handle the response to a value request: the request stops being pending and the sender
/// waiting for it is returned, to be given the response. A response to an unknown request
/// (answered already, aborted, or never made) is ignored.
pub fn handle_response<S>(request_id: RequestId, requests: &mut HashMap<RequestId, S>, pending: &mut usize) -> (r: Option<S>)
    requires
        old(requests)@.dom().contains(request_id) ==> *old(pending) > 0,
    ensures
        old(requests)@.dom().contains(request_id) ==> {
            &&& r == Some(old(requests)@[request_id])
            &&& final(requests)@ == old(requests)@.remove(request_id)
            &&& *final(pending) == *old(pending) - 1
        },
        !old(requests)@.dom().contains(request_id) ==> {
            &&& r is None
            &&& final(requests)@ == old(requests)@
            &&& *final(pending) == *old(pending)
        },
        *final(pending) - value_waiting(final(requests)@) == *old(pending) - value_waiting(old(requests)@),
{
    match requests.remove(&request_id) {
        Some(sender) => {
            *pending = *pending - 1;
            Some(sender)
        },
        None => None,
    }
}

/// What the consumer does with a stream response.
#[derive(Debug)]
pub enum StreamDelivery<R, T> {
    /// The stream was opened: the sender waiting for the open result is returned.
    Opened(R),
    /// An item arrived for a known stream: it goes to that stream's values sender.
    Item(T),
    /// Nothing is delivered.
    Nothing,
}

/// Handle a stream response. `Open` ends the pending state of a stream that waits for it;
/// `Item` is forwarded to a known stream; `Closed` forgets the stream (its senders are dropped,
/// which ends the stream for the consumer).
pub fn handle_stream_response<T, R, W>(
    result: StreamResponse<T>,
    request_id: RequestId,
    requests: &mut HashMap<RequestId, (Option<R>, W)>,
    pending: &mut usize,
) -> (r: StreamDelivery<R, T>)
    requires
        result is Open && old(requests)@.dom().contains(request_id) && old(requests)@[request_id].0 is Some
            ==> *old(pending) > 0,
    ensures
        match result {
            StreamResponse::Open => if old(requests)@.dom().contains(request_id) && old(requests)@[request_id].0 is Some {
                &&& r == StreamDelivery::<R, T>::Opened(old(requests)@[request_id].0->0)
                &&& final(requests)@ == old(requests)@.insert(request_id, (None, old(requests)@[request_id].1))
                &&& *final(pending) == *old(pending) - 1
            } else {
                &&& r is Nothing
                &&& final(requests)@ == old(requests)@
                &&& *final(pending) == *old(pending)
            },
            StreamResponse::Item(item) => {
                &&& (old(requests)@.dom().contains(request_id) ==> r == StreamDelivery::<R, T>::Item(item))
                &&& (!old(requests)@.dom().contains(request_id) ==> r is Nothing)
                &&& final(requests)@ == old(requests)@
                &&& *final(pending) == *old(pending)
            },
            StreamResponse::Closed => {
                &&& r is Nothing
                &&& final(requests)@ == old(requests)@.remove(request_id)
                &&& *final(pending) == *old(pending)
            },
        },
        *final(pending) - stream_waiting(final(requests)@) >= *old(pending) - stream_waiting(old(requests)@),
        !(result is Closed && old(requests)@.dom().contains(request_id) && old(requests)@[request_id].0 is Some)
            ==> *final(pending) - stream_waiting(final(requests)@) == *old(pending) - stream_waiting(old(requests)@),
{
    let ghost old_requests = requests@;
    match result {
        StreamResponse::Open => {
            match requests.remove(&request_id) {
                Some((sender, values)) => {
                    match sender {
                        Some(sender) => {
                            requests.insert(request_id, (None, values));
                            proof {
                                lemma_opening_remove(old_requests, request_id);
                                lemma_opening_insert(old_requests.remove(request_id), request_id, (None::<R>, values));
                                assert(old_requests.remove(request_id).insert(request_id, (None::<R>, values))
                                    =~= old_requests.insert(request_id, (None::<R>, values)));
                            }
                            *pending = *pending - 1;
                            StreamDelivery::Opened(sender)
                        },
                        None => {
                            requests.insert(request_id, (None, values));
                            proof {
                                assert(old_requests.remove(request_id).insert(request_id, (None::<R>, values))
                                    =~= old_requests);
                            }
                            StreamDelivery::Nothing
                        },
                    }
                },
                None => StreamDelivery::Nothing,
            }
        },
        StreamResponse::Item(item) => {
            if requests.contains_key(&request_id) {
                StreamDelivery::Item(item)
            } else {
                StreamDelivery::Nothing
            }
        },
        StreamResponse::Closed => {
            requests.remove(&request_id);
            proof {
                lemma_opening_remove(old_requests, request_id);
            }
            StreamDelivery::Nothing
        },
    }
}

/// Handle a new value request that the consumer has tried to send to the producer
/// (`sent` tells whether that succeeded). A value request that was sent becomes pending;
/// one that could not be sent gets its sender back, to be answered with [`Error::Closed`].
/// An abort forgets the request if it is still pending.
pub fn handle_new_request<Value, Opened, Values>(
    id: RequestId,
    sent: bool,
    result_sender: ResultSender<Value, Opened, Values>,
    requests: &mut HashMap<RequestId, Value>,
    pending: &mut usize,
) -> (r: Option<(Value, Error)>)
    requires
        !(result_sender is Stream),
        result_sender is Value && sent ==> *old(pending) < usize::MAX,
        result_sender is Abort && old(requests)@.dom().contains(id) ==> *old(pending) > 0,
    ensures
        match result_sender {
            ResultSender::Value(sender) => if sent {
                &&& r is None
                &&& final(requests)@ == old(requests)@.insert(id, sender)
                &&& *final(pending) == *old(pending) + 1
            } else {
                &&& r == Some((sender, Error::Closed))
                &&& final(requests)@ == old(requests)@
                &&& *final(pending) == *old(pending)
            },
            ResultSender::Abort => {
                &&& r is None
                &&& final(requests)@ == old(requests)@.remove(id)
                &&& *final(pending) == *old(pending) - (if old(requests)@.dom().contains(id) { 1int } else { 0int })
            },
            ResultSender::Stream { .. } => false,
        },
        *final(pending) - value_waiting(final(requests)@) >= *old(pending) - value_waiting(old(requests)@),
        !old(requests)@.dom().contains(id)
            ==> *final(pending) - value_waiting(final(requests)@) == *old(pending) - value_waiting(old(requests)@),
{
    match result_sender {
        ResultSender::Value(sender) => {
            if !sent {
                Some((sender, Error::Closed))
            } else {
                requests.insert(id, sender);
                *pending = *pending + 1;
                None
            }
        },
        ResultSender::Abort => {
            if requests.remove(&id).is_some() {
                *pending = *pending - 1;
            }
            None
        },
        ResultSender::Stream { .. } => {
            proof {
                assert(false);
            }
            None
        },
    }
}

/// Handle a new no-ack request that the consumer has tried to send to the producer: the
/// request's sender is answered at once, with success when the request was sent and with
/// [`Error::Closed`] otherwise. Aborts of no-ack requests need no action.
pub fn handle_new_no_ack_request<Value, Opened, Values>(sent: bool, result_sender: ResultSender<Value, Opened, Values>) -> (r: Option<(Value, Result<(), Error>)>)
    requires
        !(result_sender is Stream),
    ensures
        match result_sender {
            ResultSender::Value(sender) => r == Some((sender, if sent { Ok::<(), Error>(()) } else { Err(Error::Closed) })),
            _ => r is None,
        },
{
    match result_sender {
        ResultSender::Value(sender) => {
            if sent {
                Some((sender, Ok(())))
            } else {
                Some((sender, Err(Error::Closed)))
            }
        },
        ResultSender::Abort => None,
        ResultSender::Stream { .. } => {
            proof {
                assert(false);
            }
            None
        },
    }
}

/// Handle a new stream request that the consumer has tried to send to the producer. A
/// stream request that was sent becomes pending until the stream opens; one that could not
/// be sent gets its open-result sender back, to be answered with [`Error::Closed`]. An abort
/// forgets the stream, and ends its pending state if it had not opened yet.
pub fn handle_new_stream_request<Value, Opened, Values>(
    id: RequestId,
    sent: bool,
    result_sender: ResultSender<Value, Opened, Values>,
    requests: &mut HashMap<RequestId, (Option<Opened>, Values)>,
    pending: &mut usize,
) -> (r: Option<(Opened, Error)>)
    requires
        !(result_sender is Value),
        result_sender is Stream && sent ==> *old(pending) < usize::MAX,
        result_sender is Abort && old(requests)@.dom().contains(id) && old(requests)@[id].0 is Some
            ==> *old(pending) > 0,
    ensures
        match result_sender {
            ResultSender::Stream { result_sender, values_sender } => if sent {
                &&& r is None
                &&& final(requests)@ == old(requests)@.insert(id, (Some(result_sender), values_sender))
                &&& *final(pending) == *old(pending) + 1
            } else {
                &&& r == Some((result_sender, Error::Closed))
                &&& final(requests)@ == old(requests)@
                &&& *final(pending) == *old(pending)
            },
            ResultSender::Abort => {
                &&& r is None
                &&& final(requests)@ == old(requests)@.remove(id)
                &&& *final(pending) == *old(pending)
                    - (if old(requests)@.dom().contains(id) && old(requests)@[id].0 is Some { 1int } else { 0int })
            },
            ResultSender::Value(_) => false,
        },
        *final(pending) - stream_waiting(final(requests)@) >= *old(pending) - stream_waiting(old(requests)@),
        !old(requests)@.dom().contains(id)
            ==> *final(pending) - stream_waiting(final(requests)@) == *old(pending) - stream_waiting(old(requests)@),
{
    let ghost old_requests = requests@;
    match result_sender {
        ResultSender::Stream { result_sender, values_sender } => {
            if !sent {
                Some((result_sender, Error::Closed))
            } else {
                proof {
                    lemma_opening_insert(old_requests, id, (Some(result_sender), values_sender));
                }
                requests.insert(id, (Some(result_sender), values_sender));
                *pending = *pending + 1;
                None
            }
        },
        ResultSender::Abort => {
            proof {
                lemma_opening_remove(old_requests, id);
            }
            if let Some((sender, _)) = requests.remove(&id) {
                if sender.is_some() {
                    *pending = *pending - 1;
                }
            }
            None
        },
        ResultSender::Value(_) => {
            proof {
                assert(false);
            }
            None
        },
    }
}

/// What the consumer loop does with what it read from the producer.
#[derive(Debug)]
pub enum ProducerMessageAction<Response> {
    /// Handle the message.
    Handle(producer::Message<Response>),
    /// Stop the loop.
    Break,
    /// Shut down with the given type and stop the loop.
    Shutdown(ShutdownType),
}

/// Decide what the consumer loop does with what it read from the producer: the end of the
/// transport shuts the consumer down as closed, a transport error stops the loop, and a
/// message is handled.
pub fn handle_producer_message<Response, E>(message_option: Option<Result<producer::Message<Response>, E>>) -> (r: ProducerMessageAction<Response>)
    ensures
        match message_option {
            None => r == ProducerMessageAction::<Response>::Shutdown(ShutdownType::Closed),
            Some(Err(_)) => r is Break,
            Some(Ok(message)) => r == ProducerMessageAction::Handle(message),
        },
{
    match message_option {
        None => ProducerMessageAction::Shutdown(ShutdownType::Closed),
        Some(Err(_)) => ProducerMessageAction::Break,
        Some(Ok(message)) => ProducerMessageAction::Handle(message),
    }
}

/// Shutdown that a producer message orders: [`producer::Message::Aborted`] and
/// [`producer::Message::Shutdown`] shut the consumer down, responses do not.
pub fn shutdown_ordered_by<Response>(message: &producer::Message<Response>) -> (r: Option<ShutdownType>)
    ensures
        match *message {
            producer::Message::Response { .. } => r is None,
            producer::Message::Aborted => r == Some(ShutdownType::Aborted),
            producer::Message::Shutdown => r == Some(ShutdownType::Shutdown),
        },
{
    match message {
        producer::Message::Response { .. } => None,
        producer::Message::Aborted => Some(ShutdownType::Aborted),
        producer::Message::Shutdown => Some(ShutdownType::Shutdown),
    }
}

/// Is a consumer with `pending` requests pending idle.
pub open spec fn idle(pending: usize) -> bool {
    pending == 0
}

/// Decide what the consumer loop does when its inactivity timer elapses: a consumer with a
/// timeout configured that is idle (has no pending requests) shuts down with
/// [`ShutdownType::Timeout`], which closes its transport; otherwise nothing happens.
pub fn on_timeout_elapsed(timeout: bool, pending: usize) -> (r: Option<ShutdownType>)
    ensures
        r == (if timeout && idle(pending) { Some(ShutdownType::Timeout) } else { None::<ShutdownType> }),
{
    if timeout && pending == 0 {
        Some(ShutdownType::Timeout)
    } else {
        None
    }
}

/// What the consumer does with a message of the producer: a response goes, with its request
/// id, to the table of its method; [`producer::Message::Aborted`] and
/// [`producer::Message::Shutdown`] shut the consumer down with that type.
pub fn handle_message<Response>(message: producer::Message<Response>) -> (r: Result<(RequestId, Response), ShutdownType>)
    ensures
        match message {
            producer::Message::Response { id, response } => r == Ok::<(RequestId, Response), ShutdownType>((id, response)),
            producer::Message::Aborted => r == Err::<(RequestId, Response), ShutdownType>(ShutdownType::Aborted),
            producer::Message::Shutdown => r == Err::<(RequestId, Response), ShutdownType>(ShutdownType::Shutdown),
        },
{
    match message {
        producer::Message::Response { id, response } => Ok((id, response)),
        producer::Message::Aborted => Err(ShutdownType::Aborted),
        producer::Message::Shutdown => Err(ShutdownType::Shutdown),
    }
}

/// Count of a consumer's pending requests, shared by the tables of all its methods.
#[derive(Debug)]
pub struct ConsumerState {
    pending: usize,
}

impl ConsumerState {
    /// Number of pending requests.
    pub closed spec fn pending_spec(&self) -> usize {
        self.pending
    }

    /// A consumer with no pending request.
    pub fn new() -> (r: Self)
        ensures
            r.pending_spec() == 0,
    {
        ConsumerState { pending: 0 }
    }

    /// Number of pending requests.
    pub fn pending(&self) -> (r: usize)
        ensures
            r == self.pending_spec(),
    {
        self.pending
    }

    /// Has the consumer no pending request.
    pub fn idle(&self) -> (r: bool)
        ensures
            r == (self.pending_spec() == 0),
    {
        self.pending == 0
    }

    /// The count, for the handlers of this module to update.
    pub fn pending_mut(&mut self) -> (r: &mut usize)
        ensures
            *r == old(self).pending_spec(),
            final(self).pending_spec() == *final(r),
    {
        &mut self.pending
    }
}

/// Hand over every request of a table, leaving it empty: done when the consumer shuts down,
/// so that each waiting request gets the shutdown's error.
pub fn take_requests<S>(requests: &mut HashMap<RequestId, S>) -> (r: HashMap<RequestId, S>)
    ensures
        r@ == old(requests)@,
        final(requests)@ == Map::<RequestId, S>::empty(),
{
    let mut taken = HashMap::new();
    std::mem::swap(&mut taken, requests);
    taken
}

#[verifier::external_type_specification]
#[verifier::external_body]
pub struct ExConsistentCounter(ConsistentCounter);

/// Calls `atomic_counter::ConsistentCounter::new`, which makes a counter starting at
/// `initial`. The counter is opaque here, so nothing is stated of it.
#[verifier::external_body]
fn new_counter(initial: usize) -> (r: ConsistentCounter) {
    ConsistentCounter::new(initial)
}

/// Calls `AtomicCounter::inc` on a `ConsistentCounter`, which atomically adds one and
/// returns the previous count. The count lives behind a shared reference and changes with
/// every call, so nothing is stated of the result.
#[verifier::external_body]
fn increment(counter: &ConsistentCounter) -> (r: usize) {
    counter.inc()
}

/// Generates request ids.
#[derive(Debug)]
pub struct RequestIdGenerator {
    counter: ConsistentCounter,
}

impl RequestIdGenerator {
    /// Create new request id generator, counting from zero. The count lives in an atomic
    /// counter shared by every request of the consumer, which is opaque here, so the
    /// contract states nothing of it.
    pub fn new() -> (r: Self) {
        RequestIdGenerator { counter: new_counter(0) }
    }

    /// Generate new request id: the count before this call. The counter changes behind a
    /// shared reference (every request of the consumer draws from it), so the contract states
    /// nothing of the value returned.
    pub fn id(&self) -> (r: RequestId) {
        let count = increment(&self.counter);
        count as RequestId
    }
}

} // verus!
