//! Transports between web workers: the queue of incoming messages, and which posted
//! messages belong to a transport.
//!
//! A transport posts envelopes `{ type: "transport-message", name, payload }`; the payload is
//! `"open"` when a side starts, `"close"` when it stops, and an object for a message.
use vstd::prelude::*;

use std::collections::VecDeque;

use core::marker::PhantomData;

use crate::logging::displays;
use crate::number::Unwrap;
use crate::transport::Poll;

verus! {

/// Mathematical content of a [`State`].
pub struct StateView<T, E> {
    /// Incoming messages and errors, oldest first.
    pub incoming: Seq<Result<T, E>>,
    /// Is the transport closed.
    pub closed: bool,
}

/// Incoming messages and errors of a transport, and whether it was closed.
///
/// Each operation that adds something, or closes the transport, says whether the task
/// waiting for the transport is to be woken.
#[derive(Debug)]
pub struct State<T, E> {
    incoming: VecDeque<Result<T, E>>,
    closed: bool,
}

impl<T, E> View for State<T, E> {
    type V = StateView<T, E>;

    closed spec fn view(&self) -> StateView<T, E> {
        StateView { incoming: self.incoming@, closed: self.closed }
    }
}

impl<T, E> State<T, E> {
    /// An open transport with nothing received.
    pub fn new() -> (r: Self)
        ensures
            r@ == (StateView::<T, E> { incoming: Seq::empty(), closed: false }),
    {
        State { incoming: VecDeque::new(), closed: false }
    }

    /// Enqueue a message; the waiting task is to be woken.
    pub fn message(&mut self, message: T) -> (wake: bool)
        ensures
            final(self)@ == (StateView { incoming: old(self)@.incoming.push(Ok(message)), ..old(self)@ }),
            wake,
    {
        self.incoming.push_back(Ok(message));
        true
    }

    /// Enqueue an error; the waiting task is to be woken.
    pub fn error(&mut self, error: E) -> (wake: bool)
        ensures
            final(self)@ == (StateView { incoming: old(self)@.incoming.push(Err(error)), ..old(self)@ }),
            wake,
    {
        self.incoming.push_back(Err(error));
        true
    }

    /// Close the transport; the waiting task is to be woken if it was open.
    pub fn close(&mut self) -> (wake: bool)
        ensures
            final(self)@ == (StateView { closed: true, ..old(self)@ }),
            wake == !old(self)@.closed,
    {
        if !self.closed {
            self.closed = true;
            true
        } else {
            false
        }
    }

    /// Has the stream of incoming messages ended: closed, with nothing left to take.
    pub fn is_terminated(&self) -> (r: bool)
        ensures
            r == (self@.closed && self@.incoming.len() == 0),
    {
        self.closed && self.incoming.len() == 0
    }

    /// Next item of the stream of incoming messages: the oldest message or error, else the
    /// end once closed, else pending (the waiting task is then to be remembered).
    pub fn poll_next(&mut self) -> (r: Poll<Option<Result<T, E>>>)
        ensures
            (r, final(self)@) == polled(old(self)@),
    {
        if self.is_terminated() {
            Poll::Ready(None)
        } else {
            match self.incoming.pop_front() {
                Some(item) => Poll::Ready(Some(item)),
                None => Poll::Pending,
            }
        }
    }
}

/// What polling a transport in state `s` yields, and the state after.
pub open spec fn polled<T, E>(s: StateView<T, E>) -> (Poll<Option<Result<T, E>>>, StateView<T, E>) {
    if s.incoming.len() > 0 {
        (Poll::Ready(Some(s.incoming[0])), StateView { incoming: s.incoming.drop_first(), ..s })
    } else if s.closed {
        (Poll::Ready(None), s)
    } else {
        (Poll::Pending, s)
    }
}

/// State after polling `n` times from state `s`.
pub open spec fn polled_times<T, E>(s: StateView<T, E>, n: nat) -> StateView<T, E>
    decreases n,
{
    if n == 0 {
        s
    } else {
        polled(polled_times(s, (n - 1) as nat)).1
    }
}

/// Queue law: polling yields exactly what was enqueued, oldest first; once everything was
/// taken, polling yields the end if the transport was closed and pending otherwise. Closing
/// therefore never loses what was enqueued before.
pub proof fn lemma_queue_order<T, E>(s: StateView<T, E>, k: nat)
    requires
        k <= s.incoming.len(),
    ensures
        polled_times(s, k).incoming == s.incoming.skip(k as int),
        polled_times(s, k).closed == s.closed,
        k < s.incoming.len() ==> polled(polled_times(s, k)).0 == Poll::Ready(Some(s.incoming[k as int])),
        k == s.incoming.len() ==> polled(polled_times(s, k)).0 == if s.closed {
            Poll::Ready(None::<Result<T, E>>)
        } else {
            Poll::<Option<Result<T, E>>>::Pending
        },
    decreases k,
{
    if k > 0 {
        lemma_queue_order(s, (k - 1) as nat);
        assert(s.incoming.skip(k - 1).drop_first() =~= s.incoming.skip(k as int));
    } else {
        assert(s.incoming.skip(0) =~= s.incoming);
    }
}

/// A property read from a posted message.
#[derive(Debug)]
pub enum FieldValue {
    /// The message could not be read as an object.
    Unreadable,
    /// A string.
    Text(String),
    /// An object.
    Object,
    /// Anything else (including a missing property).
    Other,
}

/// A message posted to a worker or by a worker, by the properties a transport reads.
#[derive(Debug)]
pub struct Envelope {
    /// The `type` property.
    pub kind: FieldValue,
    /// The `name` property, when it is a string.
    pub name: Option<String>,
    /// The `payload` property.
    pub payload: FieldValue,
}

/// What a posted message means to a transport.
#[derive(Debug, PartialEq, Eq)]
pub enum Incoming {
    /// It is not for this transport.
    Ignore,
    /// The other side opened.
    Open,
    /// The other side closed.
    Close,
    /// It is for this transport but malformed.
    Malformed,
    /// It carries a message (the payload object).
    Message,
}

/// Does a posted message belong to the transport named `name`: of type `transport-message`
/// and with the same name (both absent for an unnamed transport).
pub open spec fn belongs(envelope: Envelope, name: Option<String>) -> bool {
    &&& envelope.kind matches FieldValue::Text(kind) && kind@ == "transport-message"@
    &&& match (envelope.name, name) {
        (Some(a), Some(b)) => a@ == b@,
        (None, None) => true,
        _ => false,
    }
}

/// Meaning of a posted message to the transport named `name`.
pub open spec fn meaning(envelope: Envelope, name: Option<String>) -> Incoming {
    if !belongs(envelope, name) {
        Incoming::Ignore
    } else {
        match envelope.payload {
            FieldValue::Text(text) => if text@ == "open"@ {
                Incoming::Open
            } else if text@ == "close"@ {
                Incoming::Close
            } else {
                Incoming::Malformed
            },
            FieldValue::Object => Incoming::Message,
            _ => Incoming::Malformed,
        }
    }
}

fn same(a: &String, b: &str) -> (r: bool)
    ensures
        r == (a@ == b@),
{
    let owned = b.to_owned();
    a.eq(&owned)
}

/// What a message posted to the transport named `name` means: `open` and `close` payloads
/// report the other side's state, an object payload is a message, any other payload is
/// malformed, and messages of other transports (or not of transports) are ignored.
pub fn classify(envelope: &Envelope, name: &Option<String>) -> (r: Incoming)
    ensures
        r == meaning(*envelope, *name),
{
    let kind_ok = match &envelope.kind {
        FieldValue::Text(kind) => same(kind, "transport-message"),
        _ => false,
    };
    let name_ok = match (&envelope.name, name) {
        (Some(a), Some(b)) => a.eq(b),
        (None, None) => true,
        _ => false,
    };
    if !(kind_ok && name_ok) {
        return Incoming::Ignore;
    }
    match &envelope.payload {
        FieldValue::Text(text) => if same(text, "open") {
            Incoming::Open
        } else if same(text, "close") {
            Incoming::Close
        } else {
            Incoming::Malformed
        },
        FieldValue::Object => Incoming::Message,
        _ => Incoming::Malformed,
    }
}

fn copy_name(name: &Option<String>) -> (r: Option<String>)
    ensures
        match (r, *name) {
            (Some(a), Some(b)) => a@ == b@,
            (None, None) => true,
            _ => false,
        },
{
    match name {
        Some(n) => Some(n.clone()),
        None => None,
    }
}

/// Envelope a transport named `name` posts with the given text payload.
pub open spec fn is_signal(envelope: Envelope, name: Option<String>, payload: Seq<char>) -> bool {
    &&& envelope.kind matches FieldValue::Text(kind) && kind@ == "transport-message"@
    &&& match (envelope.name, name) {
        (Some(a), Some(b)) => a@ == b@,
        (None, None) => true,
        _ => false,
    }
    &&& envelope.payload matches FieldValue::Text(text) && text@ == payload
}

fn signal(name: &Option<String>, payload: &str) -> (e: Envelope)
    ensures
        is_signal(e, *name, payload@),
{
    Envelope {
        kind: FieldValue::Text("transport-message".to_owned()),
        name: copy_name(name),
        payload: FieldValue::Text(payload.to_owned()),
    }
}

/// Envelope that a transport named `name` posts when it closes: a transport of the same name
/// reads it as [`Incoming::Close`].
pub fn close_envelope(name: &Option<String>) -> (e: Envelope)
    ensures
        is_signal(e, *name, "close"@),
        meaning(e, *name) == Incoming::Close,
{
    let e = signal(name, "close");
    proof {
        reveal_strlit("open");
        reveal_strlit("close");
        assert("close"@[0] != "open"@[0]);
        assert("close"@ != "open"@);
    }
    e
}

/// Whether the other side of a transport has opened.
#[derive(Debug)]
pub struct Handshake {
    opened: bool,
}

/// What a transport did with a posted message.
#[derive(Debug, PartialEq, Eq)]
pub enum Received {
    /// Not for this transport: nothing happened.
    Ignored,
    /// The other side opened: whoever waits for the opening is to be notified.
    Opened,
    /// The other side reported opening a second time: refused, the transport cannot go on.
    OpenedTwice,
    /// The other side closed: the incoming stream was closed.
    Closed,
    /// A message was queued.
    Queued,
    /// A malformed message was queued as an error.
    Malformed,
}

impl Handshake {
    /// Has the other side opened.
    pub closed spec fn opened_spec(&self) -> bool {
        self.opened
    }

    /// Start a transport named `name`: the other side has not opened yet, and the returned
    /// envelope is the `open` message to post to it before the transport is used. A transport
    /// of the same name reads that envelope as [`Incoming::Open`].
    pub fn start(name: &Option<String>) -> (r: (Handshake, Envelope))
        ensures
            !r.0.opened_spec(),
            is_signal(r.1, *name, "open"@),
            meaning(r.1, *name) == Incoming::Open,
    {
        let e = signal(name, "open");
        proof {
            reveal_strlit("open");
        }
        (Handshake { opened: false }, e)
    }

    /// Has the other side opened.
    pub fn is_open(&self) -> (r: bool)
        ensures
            r == self.opened_spec(),
    {
        self.opened
    }

    /// Act on a posted message that [`classify`] read as `incoming`, with `payload` its
    /// payload and `malformed` the error queued for a malformed one. The first `open` opens the
    /// transport (the waiting side is notified), a second one is refused; `close` closes the
    /// incoming stream, a message is queued, a malformed message queues the error, and
    /// messages of others are ignored. The second result says whether the task waiting for the
    /// stream is to be woken.
    pub fn receive<T, E>(&mut self, state: &mut State<T, E>, incoming: Incoming, payload: T, malformed: E) -> (r: (Received, bool))
        ensures
            final(self).opened_spec() == opened_after(old(self).opened_spec(), seq![incoming]),
            match incoming {
                Incoming::Ignore => {
                    &&& r == (Received::Ignored, false)
                    &&& final(state)@ == old(state)@
                    &&& final(self).opened_spec() == old(self).opened_spec()
                },
                Incoming::Open => {
                    &&& r == (if old(self).opened_spec() { Received::OpenedTwice } else { Received::Opened }, false)
                    &&& final(state)@ == old(state)@
                    &&& final(self).opened_spec()
                },
                Incoming::Close => {
                    &&& r == (Received::Closed, !old(state)@.closed)
                    &&& final(state)@ == (StateView { closed: true, ..old(state)@ })
                    &&& final(self).opened_spec() == old(self).opened_spec()
                },
                Incoming::Message => {
                    &&& r == (Received::Queued, true)
                    &&& final(state)@ == (StateView { incoming: old(state)@.incoming.push(Ok(payload)), ..old(state)@ })
                    &&& final(self).opened_spec() == old(self).opened_spec()
                },
                Incoming::Malformed => {
                    &&& r == (Received::Malformed, true)
                    &&& final(state)@ == (StateView { incoming: old(state)@.incoming.push(Err(malformed)), ..old(state)@ })
                    &&& final(self).opened_spec() == old(self).opened_spec()
                },
            },
    {
        proof {
            if incoming == Incoming::Open {
                assert(seq![incoming][0] == incoming);
            }
        }
        match incoming {
            Incoming::Ignore => (Received::Ignored, false),
            Incoming::Open => {
                if self.opened {
                    (Received::OpenedTwice, false)
                } else {
                    self.opened = true;
                    (Received::Opened, false)
                }
            },
            Incoming::Close => {
                let wake = state.close();
                (Received::Closed, wake)
            },
            Incoming::Message => {
                let wake = state.message(payload);
                (Received::Queued, wake)
            },
            Incoming::Malformed => {
                let wake = state.error(malformed);
                (Received::Malformed, wake)
            },
        }
    }
}

/// Has the other side opened, after a transport in state `opened` read the messages
/// `incomings` (as [`classify`] read them) in order.
pub open spec fn opened_after(opened: bool, incomings: Seq<Incoming>) -> bool {
    opened || exists|i: int| 0 <= i < incomings.len() && incomings[i] == Incoming::Open
}

/// Opening law: [`Handshake::receive`] keeps [`opened_after`] message by message, and once an
/// `open` was read every later state is opened, so a later `open` is refused: the other
/// side's opening is reported at most once.
pub proof fn lemma_opened_once(opened: bool, incomings: Seq<Incoming>, next: Incoming, k: int, j: int)
    requires
        0 <= k < j <= incomings.len(),
        incomings[k] == Incoming::Open,
    ensures
        opened_after(opened, incomings.push(next)) == (opened_after(opened, incomings) || next == Incoming::Open),
        opened_after(opened, incomings.take(j)),
{
    assert(incomings.take(j)[k] == incomings[k]);
    if opened_after(opened, incomings) && !opened {
        let i = choose|i: int| 0 <= i < incomings.len() && incomings[i] == Incoming::Open;
        assert(incomings.push(next)[i] == incomings[i]);
    }
    if next == Incoming::Open {
        assert(incomings.push(next)[incomings.len() as int] == next);
    }
    if opened_after(opened, incomings.push(next)) && !opened && next != Incoming::Open {
        let i = choose|i: int| 0 <= i < incomings.push(next).len() && incomings.push(next)[i] == Incoming::Open;
        assert(incomings[i] == incomings.push(next)[i]);
    }
}

/// Error of preparing a wrapped message for transfer, or of reconstructing it.
#[derive(Debug, PartialEq, Eq)]
pub enum WrapperError<SerializationError, DeserializationError> {
    /// The transferred value was not of the expected type.
    WrongType,
    /// Serializing the message failed.
    SerializationError(SerializationError),
    /// Deserializing the message failed.
    DeserializationError(DeserializationError),
}

impl<S: core::fmt::Display, D: core::fmt::Display> WrapperError<S, D> {
    /// Human readable description of the error.
    pub fn text(&self) -> (r: String)
        ensures
            *self is WrongType ==> r@ == "unexpected JS value type"@,
            *self matches WrapperError::SerializationError(e)
                ==> exists|t: Seq<char>| displays(&e, t) && r@ == "failed to serialize message: "@ + t,
            *self matches WrapperError::DeserializationError(e)
                ==> exists|t: Seq<char>| displays(&e, t) && r@ == "failed to deserialize message: "@ + t,
    {
        match self {
            WrapperError::WrongType => "unexpected JS value type".to_owned(),
            WrapperError::SerializationError(e) => {
                let t = e.to_string();
                let mut r = "failed to serialize message: ".to_owned();
                r.append(t.as_str());
                assert(displays(e, t@));
                r
            },
            WrapperError::DeserializationError(e) => {
                let t = e.to_string();
                let mut r = "failed to deserialize message: ".to_owned();
                r.append(t.as_str());
                assert(displays(e, t@));
                r
            },
        }
    }
}

/// What a wrapped message needs to be prepared for transfer or reconstructed: the codec,
/// and a work buffer.
#[derive(Debug)]
pub struct Context<C> {
    /// Codec that serializes and deserializes messages.
    pub codec: C,
    /// Work buffer.
    pub buffer: Vec<u8>,
}

impl<C> Context<C> {
    /// A context using `codec`, with an empty buffer.
    pub fn new(codec: C) -> (r: Self)
        ensures
            r.codec == codec,
            r.buffer@ == Seq::<u8>::empty(),
    {
        Context { codec, buffer: Vec::new() }
    }
}

/// A message transferred serialized with a codec.
#[derive(Debug)]
pub struct Wrapper<C, T> {
    /// Message to transfer.
    pub message: T,
    /// The codec the message is serialized with.
    pub codec: PhantomData<C>,
}

impl<C, T> Wrapper<C, T> {
    /// Wrap `message`.
    pub fn new(message: T) -> (r: Self)
        ensures
            r.message == message,
    {
        Wrapper { message, codec: PhantomData }
    }
}

impl<C, T> Unwrap for Wrapper<C, T> {
    type Output = T;

    open spec fn unwrapped(self) -> T {
        self.message
    }

    fn unwrap(self) -> (r: T) {
        self.message
    }
}

} // verus!
