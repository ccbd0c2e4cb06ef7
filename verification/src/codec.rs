//! The one-shot codec: a whole buffer in, a whole buffer out.
//!
//! `compress` and `decompress` open one engine of the requested format, feed it the input and
//! finish it; a failure to decompress comes back as a message. `compress_raw` is `compress`
//! fixed to raw deflate and typed as the structured interface is; `decompress_raw` lets the
//! engine pull the input and reports a failure by kind.

use vstd::prelude::*;
use crate::blocks::{stream_of, BlockEncoder};
use crate::engine::{
    decompressed, is_compressed, lemma_refused_prefix, raw_decompressed, refusal, shows_level,
    write_failure, Decoder,
};
use crate::error::{describe, error_text, is_error_text, BunkoError};
use crate::format::{CompressionFormat, CompressionLevel};
use crate::raw::{raw_decoder_new, raw_decoder_read_to_end, raw_failure};

verus! {

/// `message` reports a failure of `decompress`: the step that failed, then the engine's words.
pub open spec fn is_decompression_failure(message: Seq<char>) -> bool {
    "Decompression error: "@.is_prefix_of(message)
        || "Failed to finish decompression: "@.is_prefix_of(message)
}

/// Compresses `input` in `format` at `level`.
///
/// Always succeeds. The result is the compressed stream of `input`, the same whenever the
/// input, the format and the level are the same: a compressed form of `input`, never empty,
/// which `decompress` turns back into `input`; as raw deflate, `decompress_raw` does so too.
/// As gzip or zlib it carries the mark of `level`.
pub fn compress(input: &[u8], format: CompressionFormat, level: CompressionLevel) -> (r: Result<
    Vec<u8>,
    String,
>)
    ensures
        r matches Ok(packed) && {
            &&& packed@ == stream_of(format, input@, level)
            &&& is_compressed(packed@, format, input@)
            &&& shows_level(packed@, format, level.engine_level())
        },
{
    let mut encoder = BlockEncoder::new(format, level);
    match encoder.feed(input) {
        Ok(()) => {},
        Err(e) => {
            return Err(describe("Compression error: ", &e));
        },
    }
    assert(encoder.taken() =~= input@);
    match encoder.finish() {
        Ok(packed) => Ok(packed),
        Err(e) => Err(describe("Failed to finish compression: ", &e)),
    }
}

/// The message with which `decompress` turns down a `stream` that does not decompress as
/// `format`: the step that failed, then the engine's words.
pub open spec fn decompression_failure(format: CompressionFormat, stream: Seq<u8>) -> Seq<char> {
    refusal(format, stream, "Decompression error: "@, "Failed to finish decompression: "@)
}

/// Decompresses `input`, which was compressed in `format`.
///
/// Succeeds exactly on the streams that open as `format` requires, do not break off early
/// and that the decoder for `format` accepts, with the bytes it decodes them to. On all others
/// the message names the step that failed and goes on with the engine's words, or with the
/// library's where the stream breaks off.
pub fn decompress(input: &[u8], format: CompressionFormat) -> (r: Result<Vec<u8>, String>)
    ensures
        match r {
            Ok(plain) => decompressed(format, input@) == Some(plain@),
            Err(message) => {
                &&& decompressed(format, input@) is None
                &&& message@ == decompression_failure(format, input@)
                &&& is_decompression_failure(message@)
            },
        },
{
    let mut decoder = Decoder::new(format);
    match decoder.write_all(input) {
        Ok(()) => {},
        Err(e) => {
            let message = describe("Decompression error: ", &e);
            proof {
                lemma_refused_prefix(format, Seq::<u8>::empty() + input@, input@);
                let words = choose|words: String|
                    #[trigger] is_error_text(&e, words) && message@ == "Decompression error: "@
                        + words@;
                let rest = Seq::<u8>::empty();
                assert(Seq::<u8>::empty() + input@ + rest =~= input@);
                assert(write_failure(format, Seq::<u8>::empty() + input@ + rest) == Some(
                    words@,
                ));
            }
            return Err(message);
        },
    }
    assert(decoder.fed() =~= input@);
    if !decoder.at_end() {
        return Err(
            String::from_str("Failed to finish decompression: ").concat(
                "incomplete deflate stream",
            ),
        );
    }
    match decoder.finish() {
        Ok(plain) => Ok(plain),
        Err(e) => Err(describe("Failed to finish decompression: ", &e)),
    }
}

/// Compresses `input` as raw deflate at `level`.
///
/// Always succeeds, with the very stream that `compress` gives for raw deflate: only the type
/// of the error differs. `decompress_raw` and `decompress` both turn it back into `input`.
pub fn compress_raw(input: &[u8], level: CompressionLevel) -> (r: Result<Vec<u8>, BunkoError>)
    ensures
        r matches Ok(packed) && {
            &&& packed@ == stream_of(CompressionFormat::Deflate, input@, level)
            &&& is_compressed(packed@, CompressionFormat::Deflate, input@)
        },
{
    let mut encoder = BlockEncoder::new(CompressionFormat::Deflate, level);
    match encoder.feed(input) {
        Ok(()) => {},
        Err(e) => {
            return Err(BunkoError::CompressionError(error_text(&e)));
        },
    }
    assert(encoder.taken() =~= input@);
    match encoder.finish() {
        Ok(packed) => Ok(packed),
        Err(e) => Err(BunkoError::CompressionError(error_text(&e))),
    }
}

/// Decompresses raw deflate.
///
/// Succeeds exactly on the streams that hold bytes, open as a deflate stream does and that the
/// engine's pull-style decoder accepts, with the bytes it decodes them to; on all others the
/// error is a `DecompressionError` that carries the engine's words. On what `compress_raw` or
/// `compress` wrote, whole or broken off, it agrees with `decompress`; on other streams, such
/// as one with bytes after its end, it need not.
pub fn decompress_raw(input: &[u8]) -> (r: Result<Vec<u8>, BunkoError>)
    ensures
        match r {
            Ok(plain) => raw_decompressed(input@) == Some(plain@),
            Err(e) => {
                &&& raw_decompressed(input@) is None
                &&& e is DecompressionError
                &&& e.message() == raw_failure(input@)
            },
        },
{
    let decoder = raw_decoder_new(input);
    let mut plain: Vec<u8> = Vec::new();
    match raw_decoder_read_to_end(decoder, &mut plain) {
        Ok(_) => {
            assert(plain@.skip(0) =~= plain@);
            Ok(plain)
        },
        Err(e) => Err(BunkoError::DecompressionError(error_text(&e))),
    }
}

} // verus!
