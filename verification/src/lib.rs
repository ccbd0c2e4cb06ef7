//! One interface for compressing and decompressing bytes, text, chunked streams and
//! serializable values as gzip, zlib or raw deflate.
//!
//! The compression itself is flate2's and the serialization bincode's. What this library adds
//! is the layer above them: picking the engine for a format, driving it through open, feed and
//! finish, cutting and joining chunks, and telling the kinds of failure apart. That layer is
//! verified; what it takes on trust about the engines stands in the modules `gzip`, `zlib`,
//! `deflate` and `raw`, next to each call.

pub mod blocks;
pub mod codec;
pub mod deflate;
pub mod engine;
pub mod error;
pub mod format;
pub mod gzip;
pub mod laws;
pub mod pieces;
pub mod raw;
pub mod stream;
pub mod structured;
pub mod text;
pub mod zlib;

pub use crate::codec::{compress, compress_raw, decompress, decompress_raw};
pub use crate::engine::{Decoder, Encoder};
pub use crate::error::BunkoError;
pub use crate::format::{CompressionFormat, CompressionLevel};
pub use crate::stream::{compress_stream, compress_with_buffer, decompress_stream, rechunk};
pub use crate::structured::{
    compress_serialized, compress_struct, decompress_serialized, decompress_struct,
};
pub use crate::text::{compress_string, decompress_to_string};
