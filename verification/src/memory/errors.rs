//! Memory related errors.

use vstd::prelude::*;
use crate::memory::interface::Address;

verus! {

/// An error type for memory operations.
#[derive(Debug, Clone, Copy, PartialEq, Eq, Structural)]
pub enum MemoryError {
    /// The page at the given index could not be found.
    PageNotFound(Address),
    /// Unaligned memory access.
    UnalignedAccess(Address),
}

/// Type alias for a [Result] with [Result::Err] = [MemoryError].
pub type MemoryResult<T> = Result<T, MemoryError>;

} // verus!
