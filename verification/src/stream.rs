//! The streaming codec: many chunks in, one buffer out.
//!
//! One engine is opened, fed every chunk in order and finished once. Where the chunks end makes
//! no difference to the result: the engine is fed through `blocks`, which cuts the same pieces
//! whatever comes in.

use vstd::prelude::*;
use vstd::seq_lib::lemma_flatten_concat;
use vstd::slice::slice_subrange;
use crate::pieces::{lemma_pieces_concat, piece_size, pieces_of};
use crate::blocks::{stream_of, BlockEncoder};
use crate::engine::{
    decompressed, ended, finish_failure, is_compressed, lemma_refused_prefix, refusal,
    shows_level, write_failure, Decoder,
};
use crate::error::{describe, error_text, is_error_text, BunkoError};
use crate::format::{CompressionFormat, CompressionLevel};

verus! {

/// The chunks of a chunk list as byte sequences, in order.
pub open spec fn chunk_seqs(chunks: Seq<&[u8]>) -> Seq<Seq<u8>> {
    Seq::new(chunks.len(), |i: int| chunks[i]@)
}

/// `message` reports a failure of `decompress_stream`.
pub open spec fn is_stream_decompression_failure(message: Seq<char>) -> bool {
    "Stream decompression error: "@.is_prefix_of(message)
        || "Failed to finish streaming decompression: "@.is_prefix_of(message)
}

/// The message with which `decompress_stream` turns down chunks whose concatenation `stream`
/// does not decompress as `format`: the step that failed, then the engine's words.
pub open spec fn stream_decompression_failure(
    format: CompressionFormat,
    stream: Seq<u8>,
) -> Seq<char> {
    refusal(
        format,
        stream,
        "Stream decompression error: "@,
        "Failed to finish streaming decompression: "@,
    )
}

/// The step at which an encoder failed, with its error.
enum EngineFailure {
    /// A write was refused.
    Feed(std::io::Error),
    /// The stream could not be closed.
    Finish(std::io::Error),
}

/// The step at which a decoder failed, with the engine's error where there is one.
enum DecodeFailure {
    /// A write was refused.
    Feed(std::io::Error),
    /// The stream breaks off early.
    Incomplete,
    /// The stream could not be closed.
    Finish(std::io::Error),
}

impl DecodeFailure {
    /// The failure is the one of a decoder for `format` on `stream`: its step is the step at
    /// which the decoder fails on the stream, and its words are the engine's for it.
    spec fn is_of(self, format: CompressionFormat, stream: Seq<u8>) -> bool {
        match self {
            DecodeFailure::Feed(e) => forall|words: String| #[trigger]
                is_error_text(&e, words) ==> write_failure(format, stream) == Some(words@),
            DecodeFailure::Incomplete => write_failure(format, stream) is None && !ended(
                format,
                stream,
            ),
            DecodeFailure::Finish(e) => write_failure(format, stream) is None && ended(
                format,
                stream,
            ) && forall|words: String| #[trigger]
                is_error_text(&e, words) ==> words@ == finish_failure(format, stream),
        }
    }
}

/// The first `n + 1` chunks, concatenated, are the first `n` and then chunk `n`.
proof fn lemma_take_next(chunks: Seq<Seq<u8>>, n: int)
    requires
        0 <= n < chunks.len(),
    ensures
        chunks.take(n + 1).flatten() == chunks.take(n).flatten() + chunks[n],
{
    assert(chunks.take(n + 1) =~= chunks.take(n).push(chunks[n]));
    chunks.take(n).lemma_flatten_push(chunks[n]);
}

/// The concatenation of the first `n` chunks begins the concatenation of all.
proof fn lemma_take_is_prefix(chunks: Seq<Seq<u8>>, n: int)
    requires
        0 <= n <= chunks.len(),
    ensures
        chunks.take(n).flatten().is_prefix_of(chunks.flatten()),
{
    assert(chunks =~= chunks.take(n) + chunks.skip(n));
    lemma_flatten_concat(chunks.take(n), chunks.skip(n));
    let head = chunks.take(n).flatten();
    let tail = chunks.skip(n).flatten();
    assert((head + tail).subrange(0, head.len() as int) =~= head);
}

/// Opens an encoder, feeds it the chunks in order and finishes it, which always succeeds.
fn encode_chunks(chunks: &[&[u8]], format: CompressionFormat, level: CompressionLevel) -> (r:
    Result<Vec<u8>, EngineFailure>)
    ensures
        r matches Ok(packed) && {
            &&& packed@ == stream_of(format, chunk_seqs(chunks@).flatten(), level)
            &&& is_compressed(packed@, format, chunk_seqs(chunks@).flatten())
            &&& shows_level(packed@, format, level.engine_level())
        },
{
    let ghost all = chunk_seqs(chunks@);
    let mut encoder = BlockEncoder::new(format, level);
    let mut i: usize = 0;
    assert(all.take(0).flatten() =~= Seq::<u8>::empty());
    while i < chunks.len()
        invariant
            i <= chunks.len(),
            all == chunk_seqs(chunks@),
            encoder.wf(),
            encoder.format() == format,
            encoder.level() == level.engine_level(),
            encoder.taken() == all.take(i as int).flatten(),
        decreases chunks.len() - i,
    {
        match encoder.feed(chunks[i]) {
            Ok(()) => {},
            Err(e) => {
                return Err(EngineFailure::Feed(e));
            },
        }
        proof {
            lemma_take_next(all, i as int);
        }
        i += 1;
    }
    assert(all.take(i as int) =~= all);
    match encoder.finish() {
        Ok(packed) => Ok(packed),
        Err(e) => Err(EngineFailure::Finish(e)),
    }
}

/// Opens a decoder, feeds it the chunks in order and finishes it.
fn decode_chunks(chunks: &[&[u8]], format: CompressionFormat) -> (r: Result<
    Vec<u8>,
    DecodeFailure,
>)
    ensures
        match r {
            Ok(plain) => decompressed(format, chunk_seqs(chunks@).flatten()) == Some(plain@),
            Err(failure) => {
                &&& decompressed(format, chunk_seqs(chunks@).flatten()) is None
                &&& failure.is_of(format, chunk_seqs(chunks@).flatten())
            },
        },
{
    let ghost all = chunk_seqs(chunks@);
    let mut decoder = Decoder::new(format);
    let mut i: usize = 0;
    assert(all.take(0) =~= Seq::<Seq<u8>>::empty());
    while i < chunks.len()
        invariant
            i <= chunks.len(),
            all == chunk_seqs(chunks@),
            decoder.format() == format,
            decoder.fed() == all.take(i as int).flatten(),
            write_failure(format, decoder.fed()) is None,
        decreases chunks.len() - i,
    {
        let ghost fed = decoder.fed();
        match decoder.write_all(chunks[i]) {
            Ok(()) => {},
            Err(e) => {
                proof {
                    lemma_take_next(all, i as int);
                    lemma_take_is_prefix(all, i + 1);
                    lemma_refused_prefix(format, all.take(i + 1).flatten(), all.flatten());
                    let head = all.take(i + 1).flatten();
                    let whole = all.flatten();
                    let rest = whole.subrange(head.len() as int, whole.len() as int);
                    assert(fed + chunks@[i as int]@ + rest =~= all.flatten());
                    assert forall|words: String| #[trigger] is_error_text(&e, words) implies
                        write_failure(format, all.flatten()) == Some(words@) by {
                        assert(write_failure(format, fed + chunks@[i as int]@ + rest) == Some(
                            words@,
                        ));
                    }
                }
                return Err(DecodeFailure::Feed(e));
            },
        }
        proof {
            lemma_take_next(all, i as int);
        }
        i += 1;
    }
    assert(all.take(i as int) =~= all);
    if !decoder.at_end() {
        return Err(DecodeFailure::Incomplete);
    }
    match decoder.finish() {
        Ok(plain) => Ok(plain),
        Err(e) => Err(DecodeFailure::Finish(e)),
    }
}

/// Compresses the concatenation of `chunks` without building it.
///
/// Always succeeds, with the very stream that `compress` gives for the concatenation: where
/// the chunks end leaves no trace. No more than one block of bytes is held back at a time.
pub fn compress_stream(chunks: &[&[u8]], format: CompressionFormat, level: CompressionLevel) -> (r:
    Result<Vec<u8>, String>)
    ensures
        r matches Ok(packed) && {
            &&& packed@ == stream_of(format, chunk_seqs(chunks@).flatten(), level)
            &&& is_compressed(packed@, format, chunk_seqs(chunks@).flatten())
            &&& shows_level(packed@, format, level.engine_level())
        },
{
    match encode_chunks(chunks, format, level) {
        Ok(packed) => Ok(packed),
        Err(EngineFailure::Feed(e)) => Err(describe("Stream compression error: ", &e)),
        Err(EngineFailure::Finish(e)) => Err(
            describe("Failed to finish streaming compression: ", &e),
        ),
    }
}

/// Decompresses a stream that arrives in `chunks`.
///
/// Succeeds exactly where `decompress` succeeds on the concatenation, with the same bytes. Where
/// it fails, it fails at the same step with the same words of the engine; the message names the
/// step as one of a stream.
pub fn decompress_stream(chunks: &[&[u8]], format: CompressionFormat) -> (r: Result<
    Vec<u8>,
    String,
>)
    ensures
        match r {
            Ok(plain) => decompressed(format, chunk_seqs(chunks@).flatten()) == Some(plain@),
            Err(message) => {
                &&& decompressed(format, chunk_seqs(chunks@).flatten()) is None
                &&& message@ == stream_decompression_failure(
                    format,
                    chunk_seqs(chunks@).flatten(),
                )
                &&& is_stream_decompression_failure(message@)
            },
        },
{
    match decode_chunks(chunks, format) {
        Ok(plain) => Ok(plain),
        Err(DecodeFailure::Feed(e)) => Err(describe("Stream decompression error: ", &e)),
        Err(DecodeFailure::Incomplete) => Err(
            String::from_str("Failed to finish streaming decompression: ").concat(
                "incomplete deflate stream",
            ),
        ),
        Err(DecodeFailure::Finish(e)) => Err(
            describe("Failed to finish streaming decompression: ", &e),
        ),
    }
}

/// Cuts `input` into pieces of at most `buffer_size` bytes, in order; only the last one may be
/// shorter. A `buffer_size` of zero stands for a single piece that holds the whole input.
pub fn rechunk(input: &[u8], buffer_size: usize) -> (pieces: Vec<&[u8]>)
    ensures
        chunk_seqs(pieces@) == pieces_of(
            input@,
            piece_size(input@.len(), buffer_size as nat),
        ),
{
    let len = input.len();
    let size = if buffer_size == 0 {
        len
    } else {
        buffer_size
    };
    let mut pieces: Vec<&[u8]> = Vec::new();
    let mut start: usize = 0;
    assert(input@.skip(0) =~= input@);
    while start < len
        invariant
            len == input@.len(),
            start <= len,
            size > 0 || len == 0,
            chunk_seqs(pieces@) + pieces_of(input@.skip(start as int), size as nat) == pieces_of(
                input@,
                size as nat,
            ),
        decreases len - start,
    {
        let end = if len - start <= size {
            len
        } else {
            start + size
        };
        let piece = slice_subrange(input, start, end);
        proof {
            let rest = input@.skip(start as int);
            let done = chunk_seqs(pieces@);
            if len - start > size {
                assert(piece@ =~= rest.take(size as int));
                assert(input@.skip(end as int) =~= rest.skip(size as int));
                assert(done.push(piece@) + pieces_of(input@.skip(end as int), size as nat)
                    =~= done + pieces_of(rest, size as nat));
            }
        }
        pieces.push(piece);
        start = end;
    }
    pieces
}

/// Compresses `input`, taking it in in pieces of at most `buffer_size` bytes.
///
/// Always succeeds, with the very stream that `compress` gives for `input`, whatever the
/// `buffer_size`. The pieces are those of `rechunk`; a failure would be a `CompressionError`.
pub fn compress_with_buffer(
    input: &[u8],
    format: CompressionFormat,
    level: CompressionLevel,
    buffer_size: usize,
) -> (r: Result<Vec<u8>, BunkoError>)
    ensures
        r matches Ok(packed) && {
            &&& packed@ == stream_of(format, input@, level)
            &&& is_compressed(packed@, format, input@)
            &&& shows_level(packed@, format, level.engine_level())
        },
{
    let pieces = rechunk(input, buffer_size);
    proof {
        lemma_pieces_concat(input@, piece_size(input@.len(), buffer_size as nat));
    }
    match encode_chunks(pieces.as_slice(), format, level) {
        Ok(packed) => Ok(packed),
        Err(EngineFailure::Feed(e)) => Err(BunkoError::CompressionError(error_text(&e))),
        Err(EngineFailure::Finish(e)) => Err(BunkoError::CompressionError(error_text(&e))),
    }
}

} // verus!
