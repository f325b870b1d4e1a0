//! What comes of fetching a payload, and which error stands for each failure.

use vstd::prelude::*;
use crate::clipboardimage::ClipboardError;

verus! {

/// What came of fetching the payload of one format.
#[derive(Debug)]
pub enum Fetched {
    /// The clipboard had no data for the format, though it had it on offer.
    NoData,
    /// The memory behind the format could not be locked; carries the system's code.
    LockRefused(i32),
    /// The payload, byte for byte.
    Payload(Vec<u8>),
}

impl Fetched {
    /// What a copy came to that was to bring `size` bytes: the payload where
    /// it brought exactly as many, and no data where it did not.
    pub fn copied(size: usize, bytes: Vec<u8>) -> (fetched: Fetched)
        ensures
            bytes@.len() == size ==> fetched == Fetched::Payload(bytes),
            bytes@.len() != size ==> fetched == Fetched::NoData,
    {
        if bytes.len() == size {
            Fetched::Payload(bytes)
        } else {
            Fetched::NoData
        }
    }

    /// The payload of a fetch that met with success, and the error that
    /// stands for one that did not.
    pub open spec fn outcome(self) -> Result<Seq<u8>, ClipboardError> {
        match self {
            Fetched::NoData => Err(ClipboardError::FetchFailed),
            Fetched::LockRefused(code) => Err(ClipboardError::LockFailed(code)),
            Fetched::Payload(bytes) => Ok(bytes@),
        }
    }

    /// Hands out the payload, or the error that stands for the failure.
    pub fn payload(self) -> (result: Result<Vec<u8>, ClipboardError>)
        ensures
            match self.outcome() {
                Ok(bytes) => result matches Ok(handed) && handed@ == bytes,
                Err(error) => result matches Err(raised) && raised == error,
            },
    {
        match self {
            Fetched::NoData => Err(ClipboardError::FetchFailed),
            Fetched::LockRefused(code) => Err(ClipboardError::LockFailed(code)),
            Fetched::Payload(bytes) => Ok(bytes),
        }
    }
}

} // verus!
