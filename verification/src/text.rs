//! Text in and out: gzip over the UTF-8 bytes of a string.

use vstd::prelude::*;
use vstd::string::to_string_from_display_ensures;
use vstd::utf8::{
    decode_utf8, encode_utf8, encode_utf8_decode_utf8, encode_utf8_valid_utf8, valid_utf8,
};
use crate::codec::{compress, decompress, decompression_failure, is_decompression_failure};
use crate::blocks::stream_of;
use crate::engine::{decompressed, shows_level};
use crate::format::{CompressionFormat, CompressionLevel};

verus! {

/// The text of the error with which `String::from_utf8` turns down `bytes` that are not UTF-8.
pub uninterp spec fn utf8_failure(bytes: Seq<u8>) -> Seq<char>;

/// `String::from_utf8`: the string whose UTF-8 bytes are `bytes`, or an error where `bytes`
/// are not UTF-8, whose text is the one that belongs to the bytes.
#[verifier::external_body]
fn string_from_utf8(bytes: Vec<u8>) -> (r: Result<String, std::string::FromUtf8Error>)
    ensures
        r matches Ok(text) ==> encode_utf8(text@) == bytes@,
        r is Err ==> !valid_utf8(bytes@),
        r matches Err(e) ==> forall|words: String| #[trigger]
            to_string_from_display_ensures::<std::string::FromUtf8Error>(&e, words) ==> words@
                == utf8_failure(bytes@),
{
    String::from_utf8(bytes)
}

/// `message` reports that decompressed bytes are not UTF-8.
pub open spec fn is_utf8_failure(message: Seq<char>) -> bool {
    "UTF-8 error: "@.is_prefix_of(message)
}

/// The text that a gzip stream holds: its decoded bytes read as UTF-8, or `None` where the
/// decoder refuses the stream or the bytes are not UTF-8.
pub open spec fn text_of(stream: Seq<u8>) -> Option<Seq<char>> {
    match decompressed(CompressionFormat::Gzip, stream) {
        Some(bytes) => if valid_utf8(bytes) {
            Some(decode_utf8(bytes))
        } else {
            None
        },
        None => None,
    }
}

/// Compresses the UTF-8 bytes of `input` as gzip at `level`.
///
/// Always succeeds. The result is what `compress` makes of the bytes as gzip: it is never
/// empty, `decompress_to_string` reads `input` back from it, and it carries the mark of
/// `level`.
pub fn compress_string(input: &str, level: CompressionLevel) -> (r: Result<Vec<u8>, String>)
    ensures
        r matches Ok(packed) && {
            &&& packed@ == stream_of(CompressionFormat::Gzip, encode_utf8(input@), level)
            &&& packed@.len() > 0
            &&& text_of(packed@) == Some(input@)
            &&& shows_level(packed@, CompressionFormat::Gzip, level.engine_level())
        },
{
    proof {
        encode_utf8_valid_utf8(input@);
        encode_utf8_decode_utf8(input@);
    }
    compress(input.as_bytes(), CompressionFormat::Gzip, level)
}

/// Decompresses gzip data and reads the result as UTF-8 text.
///
/// Succeeds exactly where `compressed_data` decompress as gzip and the decoded bytes are
/// UTF-8, with the text they spell. Where the data do not decompress, the message is the one
/// that `decompress` gives; where the bytes are not UTF-8, it says so and goes on with the
/// words of the conversion.
pub fn decompress_to_string(compressed_data: &[u8]) -> (r: Result<String, String>)
    ensures
        match r {
            Ok(text) => text_of(compressed_data@) == Some(text@),
            Err(message) => text_of(compressed_data@) is None && (match decompressed(
                CompressionFormat::Gzip,
                compressed_data@,
            ) {
                None => {
                    &&& message@ == decompression_failure(
                        CompressionFormat::Gzip,
                        compressed_data@,
                    )
                    &&& is_decompression_failure(message@)
                },
                Some(bytes) => {
                    &&& message@ == "UTF-8 error: "@ + utf8_failure(bytes)
                    &&& is_utf8_failure(message@)
                },
            }),
        },
{
    let bytes = match decompress(compressed_data, CompressionFormat::Gzip) {
        Ok(bytes) => bytes,
        Err(message) => {
            return Err(message);
        },
    };
    match string_from_utf8(bytes) {
        Ok(text) => {
            proof {
                encode_utf8_valid_utf8(text@);
                encode_utf8_decode_utf8(text@);
            }
            Ok(text)
        },
        Err(e) => Err(String::from_str("UTF-8 error: ").concat(e.to_string().as_str())),
    }
}

} // verus!
