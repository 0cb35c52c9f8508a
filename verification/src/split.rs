//! Splitting one transport into several transports of different message types.
//!
//! Messages of every part travel over one shared transport wrapped in [`Message`];
//! a part that receives a message meant for another part stores it in that part's
//! buffer, and every part reads its own buffer before the shared transport.
use vstd::prelude::*;

use std::collections::VecDeque;

use crate::transport;
use crate::transport::Poll;

verus! {

/// Wrapping message of a split transport.
#[derive(Debug, PartialEq, Eq)]
pub enum Message<T1, T2, T3, T4, T5> {
    /// Message of the first transport.
    Variant1(T1),
    /// Message of the second transport.
    Variant2(T2),
    /// Message of the third transport.
    Variant3(T3),
    /// Message of the fourth transport.
    Variant4(T4),
    /// Message of the fifth transport.
    Variant5(T5),
}

impl<T1, T2, T3, T4, T5> Message<T1, T2, T3, T4, T5> {
    /// Index (from zero) of the part this message belongs to.
    pub open spec fn index(self) -> nat {
        match self {
            Message::Variant1(_) => 0,
            Message::Variant2(_) => 1,
            Message::Variant3(_) => 2,
            Message::Variant4(_) => 3,
            Message::Variant5(_) => 4,
        }
    }

    /// Index (from zero) of the part this message belongs to.
    pub fn variant(&self) -> (r: usize)
        ensures
            r == self.index(),
    {
        match self {
            Message::Variant1(_) => 0,
            Message::Variant2(_) => 1,
            Message::Variant3(_) => 2,
            Message::Variant4(_) => 3,
            Message::Variant5(_) => 4,
        }
    }

    /// Message of the first part, or the message itself.
    pub fn unwrap1(self) -> (r: Result<T1, Self>)
        ensures
            match self {
                Message::Variant1(m) => r == Ok::<T1, Self>(m),
                _ => r == Err::<T1, Self>(self),
            },
    {
        if let Message::Variant1(message) = self {
            Ok(message)
        } else {
            Err(self)
        }
    }

    /// Message of the second part, or the message itself.
    pub fn unwrap2(self) -> (r: Result<T2, Self>)
        ensures
            match self {
                Message::Variant2(m) => r == Ok::<T2, Self>(m),
                _ => r == Err::<T2, Self>(self),
            },
    {
        if let Message::Variant2(message) = self {
            Ok(message)
        } else {
            Err(self)
        }
    }

    /// Message of the third part, or the message itself.
    pub fn unwrap3(self) -> (r: Result<T3, Self>)
        ensures
            match self {
                Message::Variant3(m) => r == Ok::<T3, Self>(m),
                _ => r == Err::<T3, Self>(self),
            },
    {
        if let Message::Variant3(message) = self {
            Ok(message)
        } else {
            Err(self)
        }
    }

    /// Message of the fourth part, or the message itself.
    pub fn unwrap4(self) -> (r: Result<T4, Self>)
        ensures
            match self {
                Message::Variant4(m) => r == Ok::<T4, Self>(m),
                _ => r == Err::<T4, Self>(self),
            },
    {
        if let Message::Variant4(message) = self {
            Ok(message)
        } else {
            Err(self)
        }
    }

    /// Message of the fifth part, or the message itself.
    pub fn unwrap5(self) -> (r: Result<T5, Self>)
        ensures
            match self {
                Message::Variant5(m) => r == Ok::<T5, Self>(m),
                _ => r == Err::<T5, Self>(self),
            },
    {
        if let Message::Variant5(message) = self {
            Ok(message)
        } else {
            Err(self)
        }
    }
}

/// Numbering law: the `k`-th variant belongs to the part at index `k - 1`, so the five
/// variants go to five different parts, in order.
pub proof fn lemma_variant_parts<T1, T2, T3, T4, T5>(a: T1, b: T2, c: T3, d: T4, e: T5)
    ensures
        Message::<T1, T2, T3, T4, T5>::Variant1(a).index() == 0,
        Message::<T1, T2, T3, T4, T5>::Variant2(b).index() == 1,
        Message::<T1, T2, T3, T4, T5>::Variant3(c).index() == 2,
        Message::<T1, T2, T3, T4, T5>::Variant4(d).index() == 3,
        Message::<T1, T2, T3, T4, T5>::Variant5(e).index() == 4,
{
}

/// Two messages go to the same part exactly when they are of the same variant.
pub proof fn lemma_index_identifies_variant<T1, T2, T3, T4, T5>(m: Message<T1, T2, T3, T4, T5>, n: Message<T1, T2, T3, T4, T5>)
    ensures
        m.index() < 5,
        (m.index() == n.index()) <==> (
            (m is Variant1 && n is Variant1) || (m is Variant2 && n is Variant2) || (m is Variant3 && n is Variant3)
                || (m is Variant4 && n is Variant4) || (m is Variant5 && n is Variant5)
        ),
{
}

/// Error of a part of a split transport.
#[derive(Debug, PartialEq, Eq)]
pub enum Error<T> {
    /// Unexpected variant received.
    UnexpectedVariantReceived(usize),
    /// Wrapped transport error.
    Transport(T),
}

/// Error of the shared transport as an error of a part.
pub fn map_error<T>(error: transport::Error<T>) -> (r: transport::Error<Error<T>>)
    ensures
        match error {
            transport::Error::Closed => r is Closed,
            transport::Error::Other(e) => r == transport::Error::Other(Error::Transport(e)),
        },
{
    match error {
        transport::Error::Closed => transport::Error::Closed,
        transport::Error::Other(error) => transport::Error::Other(Error::Transport(error)),
    }
}

/// What happened to a message read from the shared transport by a part.
#[derive(Debug)]
pub enum Routed<M> {
    /// The message belongs to the part that read it.
    Deliver(M),
    /// The message belongs to another part and was stored in that part's buffer.
    Buffered,
    /// The message belongs to a part that does not exist.
    Unexpected(usize),
}

/// Buffers of messages waiting for the parts of a split transport.
pub struct SplitState<I1, I2, I3, I4, I5> {
    buffers: Vec<VecDeque<Message<I1, I2, I3, I4, I5>>>,
}

/// Effect of a part reading `message` from the shared transport on buffers `buffers`.
pub open spec fn route_spec<M>(buffers: Seq<Seq<M>>, index: nat, part: nat, message: M) -> Seq<Seq<M>> {
    if index == part || index >= buffers.len() {
        buffers
    } else {
        buffers.update(index as int, buffers[index as int].push(message))
    }
}

/// Buffers after parts read the given messages, in order; each entry is the reading part and
/// the message read.
pub open spec fn route_all<T1, T2, T3, T4, T5>(
    buffers: Seq<Seq<Message<T1, T2, T3, T4, T5>>>,
    reads: Seq<(nat, Message<T1, T2, T3, T4, T5>)>,
) -> Seq<Seq<Message<T1, T2, T3, T4, T5>>>
    decreases reads.len(),
{
    if reads.len() == 0 {
        buffers
    } else {
        let last = reads.last();
        route_spec(route_all(buffers, reads.drop_last()), last.1.index(), last.0, last.1)
    }
}

/// Messages among `reads` that a reading part stores for part `part`, in order.
pub open spec fn stored_for<T1, T2, T3, T4, T5>(
    reads: Seq<(nat, Message<T1, T2, T3, T4, T5>)>,
    part: nat,
) -> Seq<Message<T1, T2, T3, T4, T5>>
    decreases reads.len(),
{
    if reads.len() == 0 {
        Seq::empty()
    } else {
        let last = reads.last();
        let before = stored_for(reads.drop_last(), part);
        if last.1.index() == part && last.0 != part {
            before.push(last.1)
        } else {
            before
        }
    }
}

impl<I1, I2, I3, I4, I5> SplitState<I1, I2, I3, I4, I5> {
    /// Buffered messages of every part, in arrival order.
    pub closed spec fn buffers(&self) -> Seq<Seq<Message<I1, I2, I3, I4, I5>>> {
        self.buffers@.map_values(|b: VecDeque<Message<I1, I2, I3, I4, I5>>| b@)
    }

    /// Every buffered message is in the buffer of the part it belongs to.
    pub open spec fn wf(&self) -> bool {
        forall|i: int, j: int|
            0 <= i < self.buffers().len() && 0 <= j < self.buffers()[i].len()
                ==> (#[trigger] self.buffers()[i][j]).index() == i
    }

    /// Create state for `size` parts, with every buffer empty.
    pub fn new(size: usize) -> (s: Self)
        ensures
            s.wf(),
            s.buffers() == Seq::new(size as nat, |i: int| Seq::<Message<I1, I2, I3, I4, I5>>::empty()),
    {
        let mut buffers: Vec<VecDeque<Message<I1, I2, I3, I4, I5>>> = Vec::new();
        let mut i: usize = 0;
        while i < size
            invariant
                i <= size,
                buffers@.len() == i,
                forall|k: int| 0 <= k < i ==> (#[trigger] buffers@[k])@ == Seq::<Message<I1, I2, I3, I4, I5>>::empty(),
            decreases size - i,
        {
            buffers.push(VecDeque::new());
            i = i + 1;
        }
        let s = SplitState { buffers };
        assert(s.buffers() =~= Seq::new(size as nat, |i: int| Seq::<Message<I1, I2, I3, I4, I5>>::empty()));
        s
    }

    /// Number of parts.
    pub fn parts(&self) -> (r: usize)
        ensures
            r == self.buffers().len(),
    {
        self.buffers.len()
    }

    /// Take the oldest message buffered for part `part`, if any.
    pub fn pop_buffered(&mut self, part: usize) -> (r: Option<Message<I1, I2, I3, I4, I5>>)
        requires
            old(self).wf(),
            part < old(self).buffers().len(),
        ensures
            final(self).wf(),
            old(self).buffers()[part as int].len() == 0 ==> r is None && final(self).buffers() == old(self).buffers(),
            old(self).buffers()[part as int].len() > 0 ==> {
                &&& r == Some(old(self).buffers()[part as int][0])
                &&& final(self).buffers() == old(self).buffers().update(
                    part as int,
                    old(self).buffers()[part as int].drop_first(),
                )
            },
            r matches Some(m) ==> m.index() == part,
    {
        let ghost old_buffers = self.buffers();
        let mut buffer = VecDeque::new();
        std::mem::swap(&mut buffer, &mut self.buffers[part]);
        let r = buffer.pop_front();
        self.buffers.set(part, buffer);
        assert(self.buffers() =~= old_buffers.update(
            part as int,
            if old_buffers[part as int].len() == 0 { old_buffers[part as int] } else { old_buffers[part as int].drop_first() },
        ));
        proof {
            if old_buffers[part as int].len() > 0 {
                assert(old_buffers[part as int][0] == old_buffers[part as int][0]);
            }
        }
        r
    }

    /// Decide what happens to `message`, read from the shared transport by part `part`:
    /// delivered when it belongs to `part`, buffered for the part it belongs to when that
    /// part exists, reported as unexpected otherwise.
    pub fn route(&mut self, part: usize, message: Message<I1, I2, I3, I4, I5>) -> (r: Routed<Message<I1, I2, I3, I4, I5>>)
        requires
            old(self).wf(),
        ensures
            final(self).wf(),
            final(self).buffers() == route_spec(old(self).buffers(), message.index(), part as nat, message),
            message.index() == part ==> r == Routed::Deliver(message),
            message.index() != part && message.index() < old(self).buffers().len() ==> r is Buffered,
            message.index() != part && message.index() >= old(self).buffers().len()
                ==> r == Routed::<Message<I1, I2, I3, I4, I5>>::Unexpected(message.index() as usize),
    {
        let variant = message.variant();
        if variant == part {
            Routed::Deliver(message)
        } else if variant < self.buffers.len() {
            let ghost old_buffers = self.buffers();
            let ghost m = message;
            let mut buffer = VecDeque::new();
            std::mem::swap(&mut buffer, &mut self.buffers[variant]);
            buffer.push_back(message);
            self.buffers.set(variant, buffer);
            assert(self.buffers() =~= old_buffers.update(variant as int, old_buffers[variant as int].push(m)));
            assert forall|i: int, j: int|
                0 <= i < self.buffers().len() && 0 <= j < self.buffers()[i].len()
                    implies (#[trigger] self.buffers()[i][j]).index() == i by {
                if i == variant {
                    if j < old_buffers[i].len() {
                        assert(self.buffers()[i][j] == old_buffers[i][j]);
                    }
                } else {
                    assert(self.buffers()[i][j] == old_buffers[i][j]);
                }
            }
            Routed::Buffered
        } else {
            Routed::Unexpected(variant)
        }
    }
}

impl<I1, I2, I3, I4, I5> SplitState<I1, I2, I3, I4, I5> {
    /// Handle what part `part` polled from the shared transport while its own buffer was
    /// empty: `None` means the message went to another part's buffer and the shared
    /// transport is to be polled again; otherwise the part's poll result. A message of a part
    /// that does not exist is reported as [`Error::UnexpectedVariantReceived`], an error of the
    /// shared transport as [`Error::Transport`].
    pub fn on_shared<E>(&mut self, part: usize, polled: Poll<Option<Result<Message<I1, I2, I3, I4, I5>, E>>>)
        -> (r: Option<Poll<Option<Result<Message<I1, I2, I3, I4, I5>, Error<E>>>>>)
        requires
            old(self).wf(),
        ensures
            final(self).wf(),
            match polled {
                Poll::Pending => r == Some(Poll::<Option<Result<Message<I1, I2, I3, I4, I5>, Error<E>>>>::Pending)
                    && final(self).buffers() == old(self).buffers(),
                Poll::Ready(None) => r == Some(Poll::Ready(None::<Result<Message<I1, I2, I3, I4, I5>, Error<E>>>))
                    && final(self).buffers() == old(self).buffers(),
                Poll::Ready(Some(Err(e))) => r == Some(Poll::Ready(Some(Err::<Message<I1, I2, I3, I4, I5>, Error<E>>(Error::Transport(e)))))
                    && final(self).buffers() == old(self).buffers(),
                Poll::Ready(Some(Ok(message))) => {
                    &&& final(self).buffers() == route_spec(old(self).buffers(), message.index(), part as nat, message)
                    &&& message.index() == part ==> r == Some(Poll::Ready(Some(Ok::<Message<I1, I2, I3, I4, I5>, Error<E>>(message))))
                    &&& (message.index() != part && message.index() < old(self).buffers().len()) ==> r is None
                    &&& (message.index() != part && message.index() >= old(self).buffers().len())
                        ==> r == Some(Poll::Ready(Some(Err::<Message<I1, I2, I3, I4, I5>, Error<E>>(
                            Error::UnexpectedVariantReceived(message.index() as usize)))))
                },
            },
    {
        match polled {
            Poll::Pending => Some(Poll::Pending),
            Poll::Ready(None) => Some(Poll::Ready(None)),
            Poll::Ready(Some(Err(e))) => Some(Poll::Ready(Some(Err(Error::Transport(e))))),
            Poll::Ready(Some(Ok(message))) => match self.route(part, message) {
                Routed::Deliver(m) => Some(Poll::Ready(Some(Ok(m)))),
                Routed::Buffered => None,
                Routed::Unexpected(variant) => Some(Poll::Ready(Some(Err(Error::UnexpectedVariantReceived(variant))))),
            },
        }
    }
}

/// Reading messages from the shared transport appends to each part's buffer exactly the
/// messages that belong to that part and were read by another part, in the order they
/// were read; nothing else is ever added.
pub proof fn lemma_route_all_buffers<T1, T2, T3, T4, T5>(
    buffers: Seq<Seq<Message<T1, T2, T3, T4, T5>>>,
    reads: Seq<(nat, Message<T1, T2, T3, T4, T5>)>,
    part: nat,
)
    requires
        part < buffers.len(),
        forall|k: int| 0 <= k < reads.len() ==> (#[trigger] reads[k]).1.index() < buffers.len(),
    ensures
        route_all(buffers, reads).len() == buffers.len(),
        route_all(buffers, reads)[part as int] == buffers[part as int] + stored_for(reads, part),
    decreases reads.len(),
{
    if reads.len() == 0 {
        assert(buffers[part as int] + Seq::empty() =~= buffers[part as int]);
    } else {
        let prefix = reads.drop_last();
        assert forall|k: int| 0 <= k < prefix.len() implies (#[trigger] prefix[k]).1.index() < buffers.len() by {
            assert(prefix[k] == reads[k]);
        }
        lemma_route_all_buffers(buffers, prefix, part);
        let last = reads.last();
        assert(reads[reads.len() - 1] == last);
        let before = route_all(buffers, prefix);
        if last.1.index() == part && last.0 != part {
            assert(buffers[part as int] + stored_for(prefix, part).push(last.1)
                =~= (buffers[part as int] + stored_for(prefix, part)).push(last.1));
        }
    }
}

} // verus!
