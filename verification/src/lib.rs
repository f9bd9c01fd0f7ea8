//! Chunks of a PNG file: the length-prefixed, type-tagged, checksummed records
//! that make up the container, with the rules that tell standard type codes
//! from application-defined ones.
//!
//! A record on the wire is a big-endian 32-bit data length, a four-byte type
//! code, the data, and a big-endian CRC-32 of the type code followed by the
//! data. [`Chunk`] builds, parses and serializes such records; [`ChunkType`]
//! holds a type code and answers the questions its letter case encodes.

pub mod checksum;
pub mod chunk;
pub mod chunk_type;
pub mod endian;
pub mod error;
pub mod text;

pub use chunk::Chunk;
pub use chunk_type::ChunkType;
pub use error::Error;
