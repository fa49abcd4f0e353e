use vstd::prelude::*;

verus! {

/// Why a tag or a chunk could not be built.
#[derive(Debug, Clone, Copy, PartialEq, Eq, Structural, Hash)]
pub enum ChunkError {
    /// A tag was not given as exactly four bytes, or its text held a byte
    /// that is not an ASCII letter.
    MalformedInput,
    /// A payload is longer than a 32-bit length field can say.
    PayloadTooLarge,
}

} // verus!
