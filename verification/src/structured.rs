//! Structured values: serialize, then compress; decompress, then deserialize.
//!
//! The serializer is bincode. What it makes of a value is the business of the value's own
//! serde impls; this module promises only that the bytes between the two steps stay as they are.

use vstd::prelude::*;
use crate::codec::{compress, decompress, decompression_failure, is_decompression_failure};
use crate::blocks::stream_of;
use crate::engine::{decompressed, is_compressed, shows_level};
use crate::error::BunkoError;
use crate::format::{CompressionFormat, CompressionLevel};

verus! {

#[verifier::external_type_specification]
#[verifier::external_body]
pub struct ExBincodeErrorKind(bincode::ErrorKind);

/// `bincode::serialize`: the bytes of `value`, or the serializer's error.
#[verifier::external_body]
fn serialize_value<T: serde::Serialize>(value: &T) -> (r: Result<
    Vec<u8>,
    Box<bincode::ErrorKind>,
>) {
    bincode::serialize(value)
}

/// `bincode::deserialize`: the value that `bytes` hold, or the serializer's error.
#[verifier::external_body]
fn deserialize_value<T: for<'de> serde::Deserialize<'de>>(bytes: &[u8]) -> (r: Result<
    T,
    Box<bincode::ErrorKind>,
>) {
    bincode::deserialize(bytes)
}

/// Compresses the serialized form of a value: `compress`, typed as the structured interface is.
/// Always succeeds, with what `compress` gives.
pub fn compress_serialized(
    serialized: &[u8],
    format: CompressionFormat,
    level: CompressionLevel,
) -> (r: Result<Vec<u8>, BunkoError>)
    ensures
        r matches Ok(packed) && {
            &&& packed@ == stream_of(format, serialized@, level)
            &&& is_compressed(packed@, format, serialized@)
            &&& shows_level(packed@, format, level.engine_level())
        },
{
    match compress(serialized, format, level) {
        Ok(packed) => Ok(packed),
        Err(message) => Err(BunkoError::CompressionError(message)),
    }
}

/// Recovers the serialized form of a value: `decompress`, with the failure reported by kind and
/// its message passed on as it is.
pub fn decompress_serialized(compressed_data: &[u8], format: CompressionFormat) -> (r: Result<
    Vec<u8>,
    BunkoError,
>)
    ensures
        match r {
            Ok(serialized) => decompressed(format, compressed_data@) == Some(serialized@),
            Err(e) => {
                &&& decompressed(format, compressed_data@) is None
                &&& e is DecompressionError
                &&& e.message() == decompression_failure(format, compressed_data@)
                &&& is_decompression_failure(e.message())
            },
        },
{
    match decompress(compressed_data, format) {
        Ok(serialized) => Ok(serialized),
        Err(message) => Err(BunkoError::DecompressionError(message)),
    }
}

/// Serializes `data` and compresses the bytes.
///
/// Fails only where the serializer does, with a `SerializationError`. What the bytes are is up
/// to the serializer; the result is what `compress` makes of them: never empty, it
/// decompresses to bytes of which it is the engine's stream, and it carries the mark of
/// `level`.
pub fn compress_struct<T: serde::Serialize>(
    data: &T,
    format: CompressionFormat,
    level: CompressionLevel,
) -> (r: Result<Vec<u8>, BunkoError>)
    ensures
        match r {
            Ok(packed) => {
                &&& decompressed(format, packed@) matches Some(serialized) && {
                    &&& packed@ == stream_of(format, serialized, level)
                    &&& is_compressed(packed@, format, serialized)
                }
                &&& shows_level(packed@, format, level.engine_level())
            },
            Err(e) => e is SerializationError,
        },
{
    match serialize_value(data) {
        Ok(serialized) => compress_serialized(serialized.as_slice(), format, level),
        Err(e) => Err(BunkoError::SerializationError(e.to_string())),
    }
}

/// Decompresses `compressed_data` and deserializes the bytes.
///
/// Where the data do not decompress, that is the error, with the message that `decompress`
/// gives. Where they do, the decoded bytes go to the serializer unchanged, and the result is
/// the serializer's.
pub fn decompress_struct<T: for<'de> serde::Deserialize<'de>>(
    compressed_data: &[u8],
    format: CompressionFormat,
) -> (r: Result<T, BunkoError>)
    ensures
        match decompressed(format, compressed_data@) {
            None => r matches Err(e) && {
                &&& e is DecompressionError
                &&& e.message() == decompression_failure(format, compressed_data@)
                &&& is_decompression_failure(e.message())
            },
            Some(_) => r matches Err(e) ==> e is DeserializationError,
        },
{
    let serialized = match decompress_serialized(compressed_data, format) {
        Ok(serialized) => serialized,
        Err(e) => {
            return Err(e);
        },
    };
    match deserialize_value::<T>(serialized.as_slice()) {
        Ok(value) => Ok(value),
        Err(e) => Err(BunkoError::DeserializationError(e.to_string())),
    }
}

} // verus!
