use vstd::prelude::*;
use crate::chunk_type::ChunkType;

verus! {

/// The CRC-32 of a byte string with the parameters of IEEE 802.3
/// (catalogued as CRC-32/ISO-HDLC): polynomial `0x04c11db7`, reflected in
/// and out, initial value and final xor `0xffffffff`.
pub uninterp spec fn crc32_ieee(bytes: Seq<u8>) -> u32;

/// The checksum that a chunk with this tag and payload carries: the CRC-32
/// of the tag's four bytes followed by the payload.
pub open spec fn chunk_crc(tag: Seq<u8>, payload: Seq<u8>) -> u32 {
    crc32_ieee(tag + payload)
}

/// `crc::Crc::<u32>::checksum`, on a table built by `crc::Crc::<u32>::new` for
/// `crc::CRC_32_ISO_HDLC`. Believed, not proved: the call is a pure function
/// of the bytes handed to it, so its result can bear the name `crc32_ieee`.
/// Nothing is claimed of its value on any given input.
#[verifier::external_body]
fn crc32_ieee_of(bytes: &[u8]) -> (sum: u32)
    ensures
        sum == crc32_ieee(bytes@),
{
    crc::Crc::<u32>::new(&crc::CRC_32_ISO_HDLC).checksum(bytes)
}

/// Computes the checksum of a chunk that has the tag `chunk_type` and the
/// payload `data`.
pub fn checksum(chunk_type: ChunkType, data: &[u8]) -> (sum: u32)
    ensures
        sum == chunk_crc(chunk_type@, data@),
{
    let tag = chunk_type.bytes();
    let mut covered: Vec<u8> = Vec::new();
    covered.extend_from_slice(tag.as_slice());
    covered.extend_from_slice(data);
    assert(covered@ =~= chunk_type@ + data@);
    crc32_ieee_of(covered.as_slice())
}

} // verus!
