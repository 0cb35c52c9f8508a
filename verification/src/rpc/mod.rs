//! Remote procedure calls over `dnet` transports: messages and the bookkeeping of
//! consumers and producers.
use vstd::prelude::*;

pub mod consumer;
pub mod producer;
pub mod request;

verus! {

/// Reason why a consumer or producer shut down.
#[derive(Debug, Clone, Copy, PartialEq, Eq, Structural)]
pub enum ShutdownType {
    /// The transport was closed.
    Closed,
    /// The other side aborted.
    Aborted,
    /// The other side shut down.
    Shutdown,
    /// Nothing happened for longer than the configured timeout.
    Timeout,
}

/// Error of an RPC request.
#[derive(Debug, Clone, Copy, PartialEq, Eq, Structural)]
pub enum Error {
    /// The transport was closed.
    Closed,
    /// The request was aborted.
    Aborted,
    /// The consumer was shut down.
    Shutdown,
    /// The consumer timed out.
    Timeout,
    /// The consumer dropped the request before answering it.
    Dropped,
}

/// Error that a request still pending receives when the consumer shuts down.
pub open spec fn shutdown_error(shutdown_type: ShutdownType) -> Error {
    match shutdown_type {
        ShutdownType::Closed => Error::Closed,
        ShutdownType::Aborted => Error::Aborted,
        ShutdownType::Shutdown => Error::Shutdown,
        ShutdownType::Timeout => Error::Timeout,
    }
}

impl From<ShutdownType> for Error {
    fn from(shutdown_type: ShutdownType) -> (r: Error) {
        match shutdown_type {
            ShutdownType::Closed => Error::Closed,
            ShutdownType::Aborted => Error::Aborted,
            ShutdownType::Shutdown => Error::Shutdown,
            ShutdownType::Timeout => Error::Timeout,
        }
    }
}

impl vstd::std_specs::convert::FromSpecImpl<ShutdownType> for Error {
    open spec fn obeys_from_spec() -> bool {
        true
    }

    open spec fn from_spec(shutdown_type: ShutdownType) -> Error {
        shutdown_error(shutdown_type)
    }
}

} // verus!
