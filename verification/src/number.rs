//! Numbering messages: a wrapper transport attaches consecutive numbers, starting from
//! zero, to the messages it sends.
use vstd::prelude::*;

use crate::logging::{Logger, LoggerView, Logging};
use crate::transport;

verus! {

/// Integer types usable as message numbers.
pub trait MessageNumber: Sized + Copy {
    /// The number as a mathematical integer.
    spec fn value(&self) -> int;

    /// Largest value of the type.
    spec fn max() -> int;

    /// Zero.
    fn zero() -> (r: Self)
        ensures
            r.value() == 0,
    ;

    /// Is this the largest value of the type.
    fn is_max(&self) -> (r: bool)
        ensures
            r == (self.value() == Self::max()),
    ;

    /// The next number.
    fn successor(&self) -> (r: Self)
        requires
            self.value() < Self::max(),
        ensures
            r.value() == self.value() + 1,
    ;

    /// Is this number greater than `other`.
    fn greater_than(&self, other: &Self) -> (r: bool)
        ensures
            r == (self.value() > other.value()),
    ;

    /// Numbers are identified by their values, which range from zero to the maximum.
    proof fn lemma_value(a: Self, b: Self)
        ensures
            0 <= a.value() <= Self::max(),
            a.value() == b.value() ==> a == b,
    ;
}

impl MessageNumber for usize {
    open spec fn value(&self) -> int {
        *self as int
    }

    open spec fn max() -> int {
        usize::MAX as int
    }

    fn zero() -> (r: Self) {
        0
    }

    fn is_max(&self) -> (r: bool) {
        *self == usize::MAX
    }

    fn successor(&self) -> (r: Self) {
        *self + 1
    }

    fn greater_than(&self, other: &Self) -> (r: bool) {
        *self > *other
    }

    proof fn lemma_value(a: Self, b: Self) {
    }
}

impl MessageNumber for u32 {
    open spec fn value(&self) -> int {
        *self as int
    }

    open spec fn max() -> int {
        u32::MAX as int
    }

    fn zero() -> (r: Self) {
        0
    }

    fn is_max(&self) -> (r: bool) {
        *self == u32::MAX
    }

    fn successor(&self) -> (r: Self) {
        *self + 1
    }

    fn greater_than(&self, other: &Self) -> (r: bool) {
        *self > *other
    }

    proof fn lemma_value(a: Self, b: Self) {
    }
}

impl MessageNumber for u64 {
    open spec fn value(&self) -> int {
        *self as int
    }

    open spec fn max() -> int {
        u64::MAX as int
    }

    fn zero() -> (r: Self) {
        0
    }

    fn is_max(&self) -> (r: bool) {
        *self == u64::MAX
    }

    fn successor(&self) -> (r: Self) {
        *self + 1
    }

    fn greater_than(&self, other: &Self) -> (r: bool) {
        *self > *other
    }

    proof fn lemma_value(a: Self, b: Self) {
    }
}

impl MessageNumber for u128 {
    open spec fn value(&self) -> int {
        *self as int
    }

    open spec fn max() -> int {
        u128::MAX as int
    }

    fn zero() -> (r: Self) {
        0
    }

    fn is_max(&self) -> (r: bool) {
        *self == u128::MAX
    }

    fn successor(&self) -> (r: Self) {
        *self + 1
    }

    fn greater_than(&self, other: &Self) -> (r: bool) {
        *self > *other
    }

    proof fn lemma_value(a: Self, b: Self) {
    }
}

/// Trait implemented by messages that can be unwrapped.
pub trait Unwrap: Sized {
    /// Unwrapped message type.
    type Output;

    /// The unwrapped message.
    spec fn unwrapped(self) -> Self::Output;

    /// Unwrap message.
    fn unwrap(self) -> (r: Self::Output)
        ensures
            r == self.unwrapped(),
    ;
}

/// Trait implemented by messages with attached number.
pub trait Number {
    /// Message number type.
    type Output;

    /// The message's number.
    spec fn number_of(&self) -> Self::Output;

    /// Message number.
    fn number(&self) -> (r: Self::Output)
        ensures
            r == self.number_of(),
    ;
}

/// Message wrapper used by [`Numbered`] transport.
#[derive(Debug, PartialEq, Eq)]
pub struct Wrapper<N, T> {
    /// Message number.
    pub number: N,
    /// Wrapped message.
    pub wrapped: T,
}

impl<N, T> Unwrap for Wrapper<N, T> {
    type Output = T;

    open spec fn unwrapped(self) -> T {
        self.wrapped
    }

    fn unwrap(self) -> (r: T) {
        self.wrapped
    }
}

impl<N: MessageNumber, T> Number for Wrapper<N, T> {
    type Output = N;

    open spec fn number_of(&self) -> N {
        self.number
    }

    fn number(&self) -> (r: N) {
        self.number
    }
}

/// [`Numbered`] transport error.
#[derive(Debug)]
pub enum Error<T> {
    /// Maximum message number reached.
    MaximumNumberReached,
    /// Wrapped transport error.
    Transport(T),
}

/// Error of the wrapped transport as an error of the numbered transport.
pub fn map_error<T>(error: transport::Error<T>) -> (r: transport::Error<Error<T>>)
    ensures
        match error {
            transport::Error::Closed => r is Closed,
            transport::Error::Other(e) => r == transport::Error::Other(Error::Transport(e)),
        },
{
    match error {
        transport::Error::Closed => transport::Error::Closed,
        transport::Error::Other(error) => transport::Error::Other(Error::Transport(error)),
    }
}

/// Numbering state of a transport attaching numbers to sent messages.
///
/// The first message number is zero; the next message number is the previous one plus one.
/// Sending fails with [`Error::MaximumNumberReached`] once the number reaches the maximum
/// value of its type.
#[derive(Debug)]
pub struct Numbered<N> {
    current_number: N,
    logger: Logger,
}

impl<N: MessageNumber> Logging for Numbered<N> {
    const KIND: &'static str = "Numbered";

    closed spec fn logger_view(&self) -> LoggerView {
        self.logger@
    }

    fn logger(&self) -> (l: &Logger) {
        &self.logger
    }

    fn set_logger(&mut self, logger: Logger) {
        self.logger = logger;
    }
}

impl<N: MessageNumber> Numbered<N> {
    /// Number that will be attached to the next sent message.
    pub closed spec fn next_number(&self) -> int {
        self.current_number.value()
    }

    /// Create a new numbering state: the first message gets number zero.
    pub fn new() -> (s: Self)
        ensures
            s.next_number() == 0,
            s.logger_view() == (LoggerView { kind: "Numbered"@, name: None, enabled: false }),
    {
        Numbered { current_number: N::zero(), logger: Logger::new::<Self>() }
    }

    /// Number that will be attached to the next sent message.
    pub fn current_number(&self) -> (r: N)
        ensures
            r.value() == self.next_number(),
    {
        self.current_number
    }

    /// Wrap an outgoing message with the next number, or fail when the maximum number has
    /// been reached. The number is used up only by [`Numbered::sent`].
    pub fn wrap<T>(&self, item: T) -> (r: Result<Wrapper<N, T>, T>)
        ensures
            self.next_number() == N::max() ==> r == Err::<Wrapper<N, T>, T>(item),
            self.next_number() < N::max() ==> (r matches Ok(w) && w.number.value() == self.next_number() && w.wrapped == item),
    {
        proof {
            N::lemma_value(self.current_number, self.current_number);
        }
        if self.current_number.is_max() {
            Err(item)
        } else {
            Ok(Wrapper { number: self.current_number, wrapped: item })
        }
    }

    /// Record the outcome of sending a wrapped message through the wrapped transport: on
    /// success the next message gets the next number. Returns the outcome as seen by the
    /// user of the numbered transport.
    pub fn sent<E>(&mut self, result: Result<(), transport::Error<E>>) -> (r: Result<(), transport::Error<Error<E>>>)
        requires
            old(self).next_number() < N::max(),
        ensures
            result is Ok ==> final(self).next_number() == old(self).next_number() + 1 && r is Ok,
            result is Err ==> final(self).next_number() == old(self).next_number(),
            result matches Err(transport::Error::Closed) ==> r matches Err(transport::Error::Closed),
            result matches Err(transport::Error::Other(e)) ==> r == Err::<(), transport::Error<Error<E>>>(
                transport::Error::Other(Error::Transport(e)),
            ),
            final(self).logger_view() == old(self).logger_view(),
    {
        match result {
            Ok(()) => {
                self.current_number = self.current_number.successor();
                Ok(())
            },
            Err(error) => Err(map_error(error)),
        }
    }

    /// Outcome of sending when the maximum number has been reached.
    pub fn maximum_reached<E>() -> (r: Result<(), transport::Error<Error<E>>>)
        ensures
            r == Err::<(), transport::Error<Error<E>>>(transport::Error::Other(Error::MaximumNumberReached)),
    {
        Err(transport::Error::Other(Error::MaximumNumberReached))
    }
}

impl Numbered<usize> {
    /// Create new numbering state using [`usize`] message numbers.
    pub fn new_usize() -> (s: Self)
        ensures
            s.next_number() == 0,
    {
        Numbered::new()
    }
}

impl Numbered<u32> {
    /// Create new numbering state using [`u32`] message numbers.
    pub fn new_u32() -> (s: Self)
        ensures
            s.next_number() == 0,
    {
        Numbered::new()
    }
}

impl Numbered<u64> {
    /// Create new numbering state using [`u64`] message numbers.
    pub fn new_u64() -> (s: Self)
        ensures
            s.next_number() == 0,
    {
        Numbered::new()
    }
}

impl Numbered<u128> {
    /// Create new numbering state using [`u128`] message numbers.
    pub fn new_u128() -> (s: Self)
        ensures
            s.next_number() == 0,
    {
        Numbered::new()
    }
}

/// Numbering law: if a numbering state starts at zero (as [`Numbered::new`] makes it) and
/// each following state results from one successful send (as [`Numbered::sent`] makes it),
/// then the `k`-th message sent gets number `k`.
pub proof fn lemma_numbers_consecutive<N: MessageNumber>(states: Seq<Numbered<N>>, k: int)
    requires
        states.len() > 0,
        states[0].next_number() == 0,
        forall|i: int| 0 <= i < states.len() - 1 ==> #[trigger] states[i + 1].next_number() == states[i].next_number() + 1,
        0 <= k < states.len(),
    ensures
        states[k].next_number() == k,
    decreases k,
{
    if k > 0 {
        lemma_numbers_consecutive(states, k - 1);
        assert(states[(k - 1) + 1].next_number() == states[k - 1].next_number() + 1);
    }
}

} // verus!
