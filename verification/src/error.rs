//! Errors and identifiers shared by the whole library.

use vstd::prelude::*;

verus! {

/// Identifier of a node in the network.
pub type NID = u64;

/// Errors reported by the network layer.
#[derive(Debug, Clone)]
pub enum NetError {
    /// The requested element (an endpoint of a node) does not exist.
    NoSuchElement,
    /// An element with the same key (an event channel name) is already present.
    ExistingSuchElement,
    /// Sending on an internal channel failed.
    SenderError(String),
    /// Sending on a runtime channel or a network sink failed.
    TokioSenderError(String),
    /// Waiting for a reply failed.
    RecvError(String),
    /// The peer or the channel reached its end.
    EOF,
    /// A value that was expected to be present is missing.
    NoneOption,
    /// An I/O operation failed.
    IOError(String),
    /// A message could not be (de)serialised.
    SerdeError(String),
    /// An unrecoverable failure.
    FatalError(String),
}

/// Result type of the network layer.
pub type Res<T> = Result<T, NetError>;

impl NetError {
    /// Whether this error marks the end of a stream.
    pub fn is_eof(&self) -> (r: bool)
        ensures
            r == (*self is EOF),
    {
        match self {
            NetError::EOF => true,
            _ => false,
        }
    }
}

} // verus!
