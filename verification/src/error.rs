//! The error values shared by all buffer variants.

use vstd::prelude::*;

verus! {

/// Why a buffer operation was refused.
///
/// Errors are always returned as values; an operation that returns one has
/// left the buffer exactly as it found it.
#[derive(Clone, Copy, Debug, PartialEq, Eq, Structural)]
pub enum BufferError {
    /// A buffer that needs a positive capacity was asked for with capacity zero.
    InvalidCapacity,
    /// `requested` bytes were to be held where only `available` bytes of
    /// capacity were left for them.
    CapacityExceeded { requested: usize, available: usize },
    /// The storage for the buffer could not be acquired.
    AllocationFailed,
    /// A data operation was attempted on a buffer whose storage was released.
    UseAfterRelease,
    /// A release was attempted on a buffer whose storage was already released.
    DoubleRelease,
}

/// What a fallible operation gave, as mathematics: the view of the value it
/// returned, or the error it returned.
pub open spec fn outcome<T: View>(result: Result<T, BufferError>) -> Result<T::V, BufferError> {
    match result {
        Ok(value) => Ok(value@),
        Err(error) => Err(error),
    }
}

} // verus!
