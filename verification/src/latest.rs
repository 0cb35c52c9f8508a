//! Keeping only the latest messages of a numbered transport.
//!
//! Polling for the next message returns the most recent message received, ignoring
//! messages received before it and messages numbered no higher than one already returned.
use vstd::prelude::*;

use crate::logging::{LogRecord, Logger, LoggerView, Logging, emits};
use crate::logging::Level;
use crate::number::{MessageNumber, Number};
use crate::transport::Poll;

verus! {

/// Selection state of a transport returning only the latest messages.
#[derive(Debug)]
pub struct Latest<N> {
    last_number: Option<N>,
    logger: Logger,
}

impl<N: MessageNumber> Logging for Latest<N> {
    const KIND: &'static str = "Latest";

    closed spec fn logger_view(&self) -> LoggerView {
        self.logger@
    }

    fn logger(&self) -> (l: &Logger) {
        &self.logger
    }

    fn set_logger(&mut self, logger: Logger) {
        self.logger = logger;
    }
}

/// Does a message numbered `number` replace the selection when the highest number accepted
/// so far is `last`.
pub open spec fn accepts(last: Option<int>, number: int) -> bool {
    match last {
        None => true,
        Some(l) => number > l,
    }
}

/// Acceptance law: with nothing accepted yet every number is accepted; afterwards a number is
/// accepted exactly when it is higher than the last accepted one (the next consecutive number
/// included), so an older or repeated number is never accepted.
pub proof fn lemma_accepts_higher(last: Option<int>, number: int)
    ensures
        last is None ==> accepts(last, number),
        last matches Some(l) ==> (accepts(last, number) <==> l < number),
        last matches Some(l) ==> accepts(last, l + 1) && !accepts(last, l),
{
}

/// Highest accepted number after offering `numbers` in order.
pub open spec fn last_after(last: Option<int>, numbers: Seq<int>) -> Option<int>
    decreases numbers.len(),
{
    if numbers.len() == 0 {
        last
    } else {
        let before = last_after(last, numbers.drop_last());
        if accepts(before, numbers.last()) { Some(numbers.last()) } else { before }
    }
}

/// Numbers accepted, in order, when offering `numbers` in order.
pub open spec fn accepted(last: Option<int>, numbers: Seq<int>) -> Seq<int>
    decreases numbers.len(),
{
    if numbers.len() == 0 {
        Seq::empty()
    } else {
        let before = accepted(last, numbers.drop_last());
        if accepts(last_after(last, numbers.drop_last()), numbers.last()) {
            before.push(numbers.last())
        } else {
            before
        }
    }
}

impl<N: MessageNumber> Latest<N> {
    /// Highest number accepted so far.
    pub closed spec fn last(&self) -> Option<int> {
        match self.last_number {
            Some(n) => Some(n.value()),
            None => None,
        }
    }

    /// Create a selection state that has accepted nothing yet.
    pub fn new() -> (s: Self)
        ensures
            s.last() is None,
            s.logger_view() == (LoggerView { kind: "Latest"@, name: None, enabled: false }),
    {
        Latest { last_number: None, logger: Logger::new::<Self>() }
    }

    /// Offer a received message numbered `number` (of type `message_type`): it is accepted
    /// when it is numbered higher than every message accepted before. Once something has
    /// been accepted, every offer is also logged as filtered out.
    pub fn offer(&mut self, number: N, message_type: &str) -> (r: (bool, Option<LogRecord>))
        ensures
            r.0 == accepts(old(self).last(), number.value()),
            final(self).last() == (if r.0 { Some(number.value()) } else { old(self).last() }),
            old(self).last() is Some ==> emits(old(self).logger_view(), r.1, Level::Trace, "incoming message filtered out"@, Some(message_type@), None),
            old(self).last() is None ==> r.1 is None,
            final(self).logger_view() == old(self).logger_view(),
    {
        match &self.last_number {
            Some(last) => {
                let accepted = number.greater_than(last);
                if accepted {
                    self.last_number = Some(number);
                }
                let log = self.logger.log_incoming_filtered_out(message_type);
                (accepted, log)
            },
            None => {
                self.last_number = Some(number);
                (true, None)
            },
        }
    }

    /// Offer a received message; an accepted message replaces the current selection
    /// `latest`. Returns the new selection and the log record of the offer.
    pub fn on_item<I: Number<Output = N>>(&mut self, latest: Option<I>, item: I, message_type: &str) -> (r: (Option<I>, Option<LogRecord>))
        ensures
            accepts(old(self).last(), item.number_of().value()) ==> r.0 == Some(item),
            !accepts(old(self).last(), item.number_of().value()) ==> r.0 == latest,
            final(self).last() == last_after(old(self).last(), seq![item.number_of().value()]),
            old(self).last() is Some ==> emits(old(self).logger_view(), r.1, Level::Trace, "incoming message filtered out"@, Some(message_type@), None),
            final(self).logger_view() == old(self).logger_view(),
    {
        let number = item.number();
        let (accepted, log) = self.offer(number, message_type);
        proof {
            let one = seq![item.number_of().value()];
            assert(one.drop_last() =~= Seq::<int>::empty());
            assert(one.last() == item.number_of().value());
            assert(last_after(old(self).last(), one.drop_last()) == old(self).last());
        }
        if accepted {
            (Some(item), log)
        } else {
            (latest, log)
        }
    }
}

/// What polling returns when the wrapped transport has nothing more ready: the current
/// selection, or pending when nothing was selected.
pub fn on_pending<I, E>(latest: Option<I>) -> (r: Poll<Option<Result<I, E>>>)
    ensures
        match latest {
            Some(item) => r == Poll::Ready(Some(Ok::<I, E>(item))),
            None => r is Pending,
        },
{
    match latest {
        Some(item) => Poll::Ready(Some(Ok(item))),
        None => Poll::Pending,
    }
}

/// Ordering law: offering messages in any order, the numbers accepted are strictly
/// increasing and all higher than the highest number accepted before, and the highest
/// accepted number afterwards is the last one accepted.
pub proof fn lemma_accepted_increasing(last: Option<int>, numbers: Seq<int>)
    ensures
        forall|i: int, j: int|
            0 <= i < j < accepted(last, numbers).len() ==> accepted(last, numbers)[i] < accepted(last, numbers)[j],
        forall|i: int| 0 <= i < accepted(last, numbers).len() ==> accepts(last, #[trigger] accepted(last, numbers)[i]),
        accepted(last, numbers).len() > 0 ==> last_after(last, numbers) == Some(accepted(last, numbers).last()),
        accepted(last, numbers).len() == 0 ==> last_after(last, numbers) == last,
    decreases numbers.len(),
{
    if numbers.len() > 0 {
        let prefix = numbers.drop_last();
        lemma_accepted_increasing(last, prefix);
        let before = accepted(last, prefix);
        let n = numbers.last();
        if accepts(last_after(last, prefix), n) {
            let after = before.push(n);
            assert forall|i: int, j: int| 0 <= i < j < after.len() implies after[i] < after[j] by {
                if j < before.len() {
                    assert(after[i] == before[i] && after[j] == before[j]);
                } else {
                    assert(after[i] == before[i]);
                    if before.len() > 0 {
                        assert(before[i] <= before.last());
                    }
                }
            }
            assert forall|i: int| 0 <= i < after.len() implies accepts(last, #[trigger] after[i]) by {
                if i < before.len() {
                    assert(after[i] == before[i]);
                } else if before.len() > 0 {
                    assert(accepts(last, before[0]));
                    assert(before[0] <= before.last());
                }
            }
        }
    }
}

} // verus!
