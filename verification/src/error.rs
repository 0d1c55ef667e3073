//! Error values surfaced by the queue's operations.

use vstd::prelude::*;

verus! {

/// Result of a bounded enqueue that could not take the payload; either way
/// the payload travels back to the caller inside the error.
#[derive(Debug, Clone, PartialEq, Eq)]
pub enum TryEnqueueError {
    /// The active buffer had no remaining slot.
    Full(Vec<u8>),
    /// The queue's closed flag was set.
    Closed(Vec<u8>),
}

impl TryEnqueueError {
    /// The payload that the failed enqueue carried.
    pub open spec fn payload(self) -> Vec<u8> {
        match self {
            TryEnqueueError::Full(v) => v,
            TryEnqueueError::Closed(v) => v,
        }
    }

    /// Takes the payload back out of the error.
    pub fn inner(self) -> (bytes: Vec<u8>)
        ensures
            bytes == self.payload(),
    {
        match self {
            TryEnqueueError::Full(v) => v,
            TryEnqueueError::Closed(v) => v,
        }
    }
}

/// Error of an unbounded enqueue: the queue was closed, and the payload
/// comes back to the caller.
#[derive(Debug, Clone, PartialEq, Eq)]
pub struct EnqueueError(pub Vec<u8>);

impl EnqueueError {
    /// Takes the payload back out of the error.
    pub fn inner(self) -> (bytes: Vec<u8>)
        ensures
            bytes == self.0,
    {
        self.0
    }
}

/// Error of a dequeue attempt.
#[derive(Debug, Clone, Copy, PartialEq, Eq, Structural)]
pub enum DequeueError {
    /// The queue's closed flag is set and no payload is queued.
    Closed,
    /// Another consumer currently holds the dequeue ticket.
    Conflict,
}

} // verus!
