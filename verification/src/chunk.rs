use vstd::prelude::*;
use core::cmp::Ordering;
use vstd::std_specs::cmp::{PartialEqSpec, PartialOrdSpec};
use crate::bytes::{bytes_equal, bytes_less, lex_less};
use crate::checksum::{checksum, chunk_crc};
use crate::chunk_type::ChunkType;
use crate::error::ChunkError;

verus! {

/// What a chunk holds, as plain values.
pub struct ChunkView {
    /// The payload's length in bytes.
    pub length: u32,
    /// The tag.
    pub chunk_type: ChunkType,
    /// The payload.
    pub data: Seq<u8>,
    /// The checksum over tag and payload.
    pub crc: u32,
}

impl ChunkView {
    /// Length and checksum are derived: they are what the tag and the
    /// payload make them.
    pub open spec fn wf(self) -> bool {
        &&& self.length == self.data.len()
        &&& self.crc == chunk_crc(self.chunk_type@, self.data)
    }

    /// Whether this chunk comes before `other`: chunks are ordered by
    /// length, then tag, then payload, then checksum, tag and payload as
    /// their bytes are.
    pub open spec fn less(self, other: ChunkView) -> bool {
        if self.length != other.length {
            self.length < other.length
        } else if self.chunk_type != other.chunk_type {
            lex_less(self.chunk_type@, other.chunk_type@)
        } else if self.data != other.data {
            lex_less(self.data, other.data)
        } else {
            self.crc < other.crc
        }
    }
}

/// The chunk that a tag and a payload make, for a payload whose length a
/// 32-bit field can say.
pub open spec fn chunk_of(chunk_type: ChunkType, data: Seq<u8>) -> ChunkView
    recommends
        data.len() <= u32::MAX,
{
    ChunkView {
        length: data.len() as u32,
        chunk_type,
        data,
        crc: chunk_crc(chunk_type@, data),
    }
}

/// Building a chunk again from the tag and payload read back from a
/// well-formed chunk gives that chunk.
pub proof fn lemma_rebuild_is_identity(c: ChunkView)
    requires
        c.wf(),
    ensures
        chunk_of(c.chunk_type, c.data) == c,
{
}

/// One chunk: a tag, a borrowed payload, and the length and checksum derived
/// from them. It cannot be changed once built.
#[derive(Debug, Clone, Copy, Eq, Ord, Hash)]
pub struct Chunk<'a> {
    length: u32,
    chunk_type: ChunkType,
    data: &'a [u8],
    crc: u32,
}

impl<'a> View for Chunk<'a> {
    type V = ChunkView;

    closed spec fn view(&self) -> ChunkView {
        ChunkView {
            length: self.length,
            chunk_type: self.chunk_type,
            data: self.data@,
            crc: self.crc,
        }
    }
}

impl<'a> Chunk<'a> {
    #[verifier::type_invariant]
    spec fn derived_fields_agree(self) -> bool {
        self@.wf()
    }

    /// Builds the chunk with the given tag and payload. The tag need not be
    /// valid.
    pub fn new(chunk_type: ChunkType, data: &'a [u8]) -> (chunk: Chunk<'a>)
        requires
            data@.len() <= u32::MAX,
        ensures
            chunk@ == chunk_of(chunk_type, data@),
            chunk@.wf(),
    {
        let length = data.len() as u32;
        let crc = checksum(chunk_type, data);
        Chunk { length, chunk_type, data, crc }
    }

    /// Builds the chunk with the given tag and payload, unless the payload
    /// is too long for the length field.
    pub fn try_new(chunk_type: ChunkType, data: &'a [u8]) -> (built: Result<Chunk<'a>, ChunkError>)
        ensures
            data@.len() <= u32::MAX ==> built is Ok && built->Ok_0@ == chunk_of(chunk_type, data@),
            data@.len() > u32::MAX ==> built == Err::<Chunk<'a>, ChunkError>(ChunkError::PayloadTooLarge),
    {
        if data.len() > u32::MAX as usize {
            Err(ChunkError::PayloadTooLarge)
        } else {
            Ok(Chunk::new(chunk_type, data))
        }
    }

    /// The payload's length in bytes.
    pub fn length(&self) -> (length: u32)
        ensures
            length == self@.length,
            length == self@.data.len(),
    {
        proof {
            use_type_invariant(self);
        }
        self.length
    }

    /// The tag.
    pub fn chunk_type(&self) -> (chunk_type: ChunkType)
        ensures
            chunk_type == self@.chunk_type,
    {
        self.chunk_type
    }

    /// The payload.
    pub fn data(&self) -> (data: &'a [u8])
        ensures
            data@ == self@.data,
    {
        self.data
    }

    /// The checksum over tag and payload.
    pub fn crc(&self) -> (crc: u32)
        ensures
            crc == self@.crc,
            crc == chunk_crc(self@.chunk_type@, self@.data),
    {
        proof {
            use_type_invariant(self);
        }
        self.crc
    }
}

impl<'a> PartialEq for Chunk<'a> {
    /// Chunks are equal when length, tag, payload and checksum all are.
    fn eq(&self, other: &Chunk<'a>) -> (same: bool) {
        self.length == other.length && self.chunk_type == other.chunk_type && self.crc == other.crc
            && bytes_equal(self.data, other.data)
    }
}

impl<'a> vstd::std_specs::cmp::PartialEqSpecImpl for Chunk<'a> {
    open spec fn obeys_eq_spec() -> bool {
        true
    }

    open spec fn eq_spec(&self, other: &Chunk<'a>) -> bool {
        self@ == other@
    }
}

impl<'a> PartialOrd for Chunk<'a> {
    /// Chunks are ordered by length, then tag, then payload, then checksum.
    fn partial_cmp(&self, other: &Chunk<'a>) -> (order: Option<Ordering>) {
        if self.eq(other) {
            Some(Ordering::Equal)
        } else if self.precedes(other) {
            Some(Ordering::Less)
        } else {
            Some(Ordering::Greater)
        }
    }
}

impl<'a> vstd::std_specs::cmp::PartialOrdSpecImpl for Chunk<'a> {
    open spec fn obeys_partial_cmp_spec() -> bool {
        true
    }

    open spec fn partial_cmp_spec(&self, other: &Chunk<'a>) -> Option<Ordering> {
        if self@ == other@ {
            Some(Ordering::Equal)
        } else if self@.less(other@) {
            Some(Ordering::Less)
        } else {
            Some(Ordering::Greater)
        }
    }
}

impl<'a> Chunk<'a> {
    fn precedes(&self, other: &Chunk<'a>) -> (before: bool)
        ensures
            before == self@.less(other@),
    {
        if self.length != other.length {
            self.length < other.length
        } else if self.chunk_type != other.chunk_type {
            let mine = self.chunk_type.bytes();
            let theirs = other.chunk_type.bytes();
            bytes_less(mine.as_slice(), theirs.as_slice())
        } else if !bytes_equal(self.data, other.data) {
            bytes_less(self.data, other.data)
        } else {
            self.crc < other.crc
        }
    }
}

/// Chunks built from the same tag and payload are equal: no two well-formed
/// chunks differ in length or checksum alone.
pub proof fn lemma_same_parts_same_chunk<'a>(a: Chunk<'a>, b: Chunk<'a>)
    requires
        a@.wf(),
        b@.wf(),
        a@.chunk_type == b@.chunk_type,
        a@.data == b@.data,
    ensures
        a@ == b@,
        a.eq_spec(&b),
        a.partial_cmp_spec(&b) == Some(Ordering::Equal),
{
}

} // verus!
