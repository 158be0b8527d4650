use vstd::prelude::*;

verus! {

/// Failures surfaced by resource creation and mapped-memory writes.
#[derive(Clone, Copy, Debug, PartialEq, Eq, Structural)]
pub enum Error {
    /// The memory allocator could not satisfy the request.
    AllocationFailed,
    /// A mapped write was attempted on memory that is not host-visible.
    NotMapped,
    /// A shader binary's length is not a whole number of words.
    InvalidSpirvLength,
    /// A shader binary does not begin with the SPIR-V magic number.
    InvalidSpirvMagic,
}

} // verus!
