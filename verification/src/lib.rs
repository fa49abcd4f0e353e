//! A codec core for tag-length-value chunks in the style of PNG.
//!
//! A [`ChunkType`] is a four-byte tag whose case bits carry flags; a
//! [`Chunk`] pairs such a tag with a payload and derives the payload's
//! length and a CRC-32 over tag and payload.

pub mod bytes;
pub mod checksum;
pub mod chunk;
pub mod chunk_type;
pub mod error;

pub use chunk::Chunk;
pub use chunk_type::ChunkType;
pub use error::ChunkError;
