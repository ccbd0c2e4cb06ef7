//! What holds across the functions of this library.
//!
//! Each law speaks of what the functions return: `call_ensures(f, args, r)` says that `r` is
//! something that `f` may return for `args`.

use vstd::prelude::*;
use vstd::utf8::encode_utf8;
use crate::codec::{compress, compress_raw, decompress, decompress_raw, is_decompression_failure};
use crate::engine::{decompressed, finish_words, opens_as, write_failure};
use crate::pieces::{lemma_pieces_concat, lemma_pieces_sizes, piece_size};
use crate::error::BunkoError;
use crate::format::{CompressionFormat, CompressionLevel};
use crate::stream::{
    chunk_seqs, compress_stream, compress_with_buffer, decompress_stream, rechunk,
};
use crate::structured::{
    compress_serialized, compress_struct, decompress_serialized, decompress_struct,
};
use crate::text::{compress_string, decompress_to_string, is_utf8_failure};

verus! {

/// Round trip: `compress` succeeds on every input, and what it made of `input`, `decompress`
/// turns back into `input` when given the same format.
pub proof fn law_round_trip(
    input: &[u8],
    format: CompressionFormat,
    level: CompressionLevel,
    packed: Result<Vec<u8>, String>,
    stream: &[u8],
    unpacked: Result<Vec<u8>, String>,
)
    requires
        call_ensures(compress, (input, format, level), packed),
        packed matches Ok(bytes) ==> stream@ == bytes@,
        call_ensures(decompress, (stream, format), unpacked),
    ensures
        packed is Ok,
        unpacked matches Ok(plain) && plain@ == input@,
{
}

/// The same round trip with the compressed bytes handed to `decompress_stream` in pieces,
/// however they are cut.
pub proof fn law_round_trip_in_pieces(
    input: &[u8],
    format: CompressionFormat,
    level: CompressionLevel,
    packed: Vec<u8>,
    pieces: &[&[u8]],
    unpacked: Result<Vec<u8>, String>,
)
    requires
        call_ensures(compress, (input, format, level), Ok(packed)),
        chunk_seqs(pieces@).flatten() == packed@,
        call_ensures(decompress_stream, (pieces, format), unpacked),
    ensures
        unpacked matches Ok(plain) && plain@ == input@,
{
}

/// `compress` has no memory and no chance in it: two calls on equal arguments give equal
/// bytes.
pub proof fn law_compress_is_repeatable(
    input: &[u8],
    format: CompressionFormat,
    level: CompressionLevel,
    first: Result<Vec<u8>, String>,
    second: Result<Vec<u8>, String>,
)
    requires
        call_ensures(compress, (input, format, level), first),
        call_ensures(compress, (input, format, level), second),
    ensures
        first matches Ok(a) && second matches Ok(b) && a@ == b@,
{
}

/// An empty input compresses to a stream that is not empty: it holds at least the 18 bytes of
/// framing as gzip, 6 as zlib and 1 as raw deflate, and it decompresses to nothing.
pub proof fn law_empty_input_has_a_stream(
    input: &[u8],
    format: CompressionFormat,
    level: CompressionLevel,
    packed: Result<Vec<u8>, String>,
)
    requires
        input@.len() == 0,
        call_ensures(compress, (input, format, level), packed),
    ensures
        packed matches Ok(bytes) && bytes@.len() >= (match format {
            CompressionFormat::Gzip => 18int,
            CompressionFormat::Deflate => 1int,
            CompressionFormat::Zlib => 6int,
        }) && decompressed(format, bytes@) == Some(Seq::<u8>::empty()),
{
    assert(input@ =~= Seq::<u8>::empty());
}

/// The cuts in a compressed stream do not matter: `decompress_stream` on pieces and
/// `decompress` on their concatenation succeed together, with the same bytes, or fail together.
pub proof fn law_cuts_are_invisible(
    pieces: &[&[u8]],
    stream: &[u8],
    format: CompressionFormat,
    in_pieces: Result<Vec<u8>, String>,
    whole: Result<Vec<u8>, String>,
)
    requires
        chunk_seqs(pieces@).flatten() == stream@,
        call_ensures(decompress_stream, (pieces, format), in_pieces),
        call_ensures(decompress, (stream, format), whole),
    ensures
        match (in_pieces, whole) {
            (Ok(a), Ok(b)) => a@ == b@,
            (Err(_), Err(_)) => true,
            _ => false,
        },
{
}

/// Round trip of the raw pair: `compress_raw` succeeds on every input, and what it made of
/// `input`, `decompress_raw` turns back into `input`.
pub proof fn law_raw_round_trip(
    input: &[u8],
    level: CompressionLevel,
    packed: Result<Vec<u8>, BunkoError>,
    stream: &[u8],
    unpacked: Result<Vec<u8>, BunkoError>,
)
    requires
        call_ensures(compress_raw, (input, level), packed),
        packed matches Ok(bytes) ==> stream@ == bytes@,
        call_ensures(decompress_raw, (stream,), unpacked),
    ensures
        packed is Ok,
        unpacked matches Ok(plain) && plain@ == input@,
{
}

/// The two ways to raw deflate are interchangeable where they compress: what `compress_raw`
/// made of `input`, `decompress` turns back into `input` when told that it is raw deflate.
pub proof fn law_raw_is_read_as_deflate(
    input: &[u8],
    level: CompressionLevel,
    packed: Vec<u8>,
    stream: &[u8],
    unpacked: Result<Vec<u8>, String>,
)
    requires
        call_ensures(compress_raw, (input, level), Ok(packed)),
        stream@ == packed@,
        call_ensures(decompress, (stream, CompressionFormat::Deflate), unpacked),
    ensures
        unpacked matches Ok(plain) && plain@ == input@,
{
}

/// And the other way round: what `compress` made of `input` as raw deflate, `decompress_raw`
/// turns back into `input`.
pub proof fn law_deflate_is_read_as_raw(
    input: &[u8],
    level: CompressionLevel,
    packed: Vec<u8>,
    stream: &[u8],
    unpacked: Result<Vec<u8>, BunkoError>,
)
    requires
        call_ensures(compress, (input, CompressionFormat::Deflate, level), Ok(packed)),
        stream@ == packed@,
        call_ensures(decompress_raw, (stream,), unpacked),
    ensures
        unpacked matches Ok(plain) && plain@ == input@,
{
}

/// `decompress_raw` turns down what does not open as a deflate stream does: nothing at all,
/// and whatever begins with a block of the reserved type, such as the single byte 7.
pub proof fn law_raw_refuses_what_opens_wrongly(
    input: &[u8],
    unpacked: Result<Vec<u8>, BunkoError>,
)
    requires
        input@.len() == 0 || (input@[0] as int / 2) % 4 == 3,
        call_ensures(decompress_raw, (input,), unpacked),
    ensures
        unpacked matches Err(e) && e is DecompressionError,
{
}

/// The typed variant computes what the plain one does: `compress_raw` gives the very stream
/// that `compress` gives for raw deflate at the same level.
pub proof fn law_raw_is_compress_as_deflate(
    input: &[u8],
    level: CompressionLevel,
    typed: Result<Vec<u8>, BunkoError>,
    plain: Result<Vec<u8>, String>,
)
    requires
        call_ensures(compress_raw, (input, level), typed),
        call_ensures(compress, (input, CompressionFormat::Deflate, level), plain),
    ensures
        typed matches Ok(a) && plain matches Ok(b) && a@ == b@,
{
}

/// Cross-chunking: for chunks whose concatenation is `input`, whatever the cuts and with or
/// without empty chunks, `compress_stream` gives the very stream that `compress` gives for
/// `input`.
pub proof fn law_chunking_leaves_no_trace(
    chunks: &[&[u8]],
    input: &[u8],
    format: CompressionFormat,
    level: CompressionLevel,
    streamed: Result<Vec<u8>, String>,
    whole: Result<Vec<u8>, String>,
)
    requires
        chunk_seqs(chunks@).flatten() == input@,
        call_ensures(compress_stream, (chunks, format, level), streamed),
        call_ensures(compress, (input, format, level), whole),
    ensures
        streamed matches Ok(s) && whole matches Ok(w) && s@ == w@,
{
}

/// Buffer-size invariance: for every `buffer_size`, zero included, `compress_with_buffer`
/// gives the very stream that `compress` gives for `input`.
pub proof fn law_buffer_size_leaves_no_trace(
    input: &[u8],
    format: CompressionFormat,
    level: CompressionLevel,
    buffer_size: usize,
    buffered: Result<Vec<u8>, BunkoError>,
    whole: Result<Vec<u8>, String>,
)
    requires
        call_ensures(compress_with_buffer, (input, format, level, buffer_size), buffered),
        call_ensures(compress, (input, format, level), whole),
    ensures
        buffered matches Ok(b) && whole matches Ok(w) && b@ == w@,
{
}

/// The pieces that `rechunk` cuts, put together again, are the input. Each holds at least one
/// byte and at most `buffer_size`, or all of the input where `buffer_size` is zero, and each
/// but the last holds exactly that many.
pub proof fn law_rechunk_cuts_even_pieces(
    input: &[u8],
    buffer_size: usize,
    pieces: Vec<&[u8]>,
    i: int,
)
    requires
        call_ensures(rechunk, (input, buffer_size), pieces),
        0 <= i < pieces@.len(),
    ensures
        chunk_seqs(pieces@).flatten() == input@,
        0 < pieces@[i]@.len() <= piece_size(input@.len(), buffer_size as nat),
        i < pieces@.len() - 1 ==> pieces@[i]@.len() == piece_size(
            input@.len(),
            buffer_size as nat,
        ),
{
    let size = piece_size(input@.len(), buffer_size as nat);
    lemma_pieces_concat(input@, size);
    lemma_pieces_sizes(input@, size, i);
    assert(chunk_seqs(pieces@)[i] == pieces@[i]@);
}

/// Text round trip: `compress_string` succeeds on every text, and what it made of `text`,
/// `decompress_to_string` reads back as `text`.
pub proof fn law_text_round_trip(
    text: &str,
    level: CompressionLevel,
    packed: Result<Vec<u8>, String>,
    stream: &[u8],
    unpacked: Result<String, String>,
)
    requires
        call_ensures(compress_string, (text, level), packed),
        packed matches Ok(bytes) ==> stream@ == bytes@,
        call_ensures(decompress_to_string, (stream,), unpacked),
    ensures
        packed is Ok,
        unpacked matches Ok(read) && read@ == text@,
{
}

/// `compress_string` is `compress` on the UTF-8 bytes of the text, as gzip: the very same
/// stream.
pub proof fn law_text_is_gzip_of_its_bytes(
    text: &str,
    bytes: &[u8],
    level: CompressionLevel,
    as_text: Result<Vec<u8>, String>,
    as_bytes: Result<Vec<u8>, String>,
)
    requires
        bytes@ == encode_utf8(text@),
        call_ensures(compress_string, (text, level), as_text),
        call_ensures(compress, (bytes, CompressionFormat::Gzip, level), as_bytes),
    ensures
        as_text matches Ok(a) && as_bytes matches Ok(b) && a@ == b@,
{
}

/// Between serializing and deserializing no byte changes: `compress_serialized` succeeds, with
/// the very stream that `compress` gives, and what it made of `serialized`,
/// `decompress_serialized` turns back into `serialized`.
pub proof fn law_serialized_round_trip(
    serialized: &[u8],
    format: CompressionFormat,
    level: CompressionLevel,
    packed: Result<Vec<u8>, BunkoError>,
    plain: Result<Vec<u8>, String>,
    stream: &[u8],
    unpacked: Result<Vec<u8>, BunkoError>,
)
    requires
        call_ensures(compress_serialized, (serialized, format, level), packed),
        call_ensures(compress, (serialized, format, level), plain),
        packed matches Ok(bytes) ==> stream@ == bytes@,
        call_ensures(decompress_serialized, (stream, format), unpacked),
    ensures
        packed matches Ok(a) && plain matches Ok(b) && a@ == b@,
        unpacked matches Ok(bytes) && bytes@ == serialized@,
{
}

/// What `compress_struct` made, the decoder of the same format never refuses: if
/// `decompress_struct` fails on it, it is the serializer that failed.
pub proof fn law_struct_is_never_refused<
    T: serde::Serialize,
    U: for<'de> serde::Deserialize<'de>,
>(
    value: &T,
    format: CompressionFormat,
    level: CompressionLevel,
    packed: Vec<u8>,
    stream: &[u8],
    unpacked: Result<U, BunkoError>,
)
    requires
        call_ensures(compress_struct::<T>, (value, format, level), Ok(packed)),
        stream@ == packed@,
        call_ensures(decompress_struct::<U>, (stream, format), unpacked),
    ensures
        unpacked matches Err(e) ==> e is DeserializationError,
{
}

/// What opens as gzip opens as nothing else, so it decompresses as nothing else.
pub proof fn law_gzip_opens_as_nothing_else(stream: Seq<u8>, other: CompressionFormat)
    requires
        opens_as(CompressionFormat::Gzip, stream),
        other != CompressionFormat::Gzip,
    ensures
        !opens_as(other, stream),
        decompressed(other, stream) is None,
{
}

/// What opens as zlib or raw deflate and holds at least one byte does not open as gzip, so it
/// does not decompress as gzip.
pub proof fn law_only_gzip_opens_as_gzip(stream: Seq<u8>, format: CompressionFormat)
    requires
        format != CompressionFormat::Gzip,
        opens_as(format, stream),
        stream.len() > 0,
    ensures
        !opens_as(CompressionFormat::Gzip, stream),
        decompressed(CompressionFormat::Gzip, stream) is None,
{
}

/// A mismatch is caught: what `compress` made as gzip, `decompress` refuses when told that it
/// is zlib or raw deflate. It never gives bytes for it, right or wrong.
pub proof fn law_gzip_is_refused_as_another_format(
    input: &[u8],
    level: CompressionLevel,
    packed: Vec<u8>,
    stream: &[u8],
    other: CompressionFormat,
    unpacked: Result<Vec<u8>, String>,
)
    requires
        call_ensures(compress, (input, CompressionFormat::Gzip, level), Ok(packed)),
        stream@ == packed@,
        other != CompressionFormat::Gzip,
        call_ensures(decompress, (stream, other), unpacked),
    ensures
        unpacked matches Err(message) && is_decompression_failure(message@),
{
}

/// The same mismatch by kind: what `compress_struct` made as gzip, `decompress_struct` turns
/// down with a `DecompressionError` when told that it is zlib or raw deflate.
pub proof fn law_gzip_struct_is_refused_as_another_format<
    T: serde::Serialize,
    U: for<'de> serde::Deserialize<'de>,
>(
    value: &T,
    level: CompressionLevel,
    packed: Vec<u8>,
    stream: &[u8],
    other: CompressionFormat,
    unpacked: Result<U, BunkoError>,
)
    requires
        call_ensures(compress_struct::<T>, (value, CompressionFormat::Gzip, level), Ok(packed)),
        stream@ == packed@,
        other != CompressionFormat::Gzip,
        call_ensures(decompress_struct::<U>, (stream, other), unpacked),
    ensures
        unpacked matches Err(e) && e is DecompressionError,
{
}

/// The other way round: what `compress` made as zlib or raw deflate, `decompress` refuses
/// when told that it is gzip.
pub proof fn law_only_gzip_is_read_as_gzip(
    input: &[u8],
    format: CompressionFormat,
    level: CompressionLevel,
    packed: Vec<u8>,
    stream: &[u8],
    unpacked: Result<Vec<u8>, String>,
)
    requires
        format != CompressionFormat::Gzip,
        call_ensures(compress, (input, format, level), Ok(packed)),
        stream@ == packed@,
        call_ensures(decompress, (stream, CompressionFormat::Gzip), unpacked),
    ensures
        unpacked matches Err(message) && is_decompression_failure(message@),
{
}

/// A stream that breaks off early is turned down: of what `compress` made, no shorter
/// beginning decompresses in the same format.
pub proof fn law_a_stream_that_breaks_off_is_refused(
    input: &[u8],
    format: CompressionFormat,
    level: CompressionLevel,
    packed: Vec<u8>,
    stream: &[u8],
    unpacked: Result<Vec<u8>, String>,
)
    requires
        call_ensures(compress, (input, format, level), Ok(packed)),
        stream@.len() < packed@.len(),
        stream@ == packed@.take(stream@.len() as int),
        call_ensures(decompress, (stream, format), unpacked),
    ensures
        unpacked matches Err(message) && is_decompression_failure(message@),
{
}

/// The same of the raw pair: of what `compress_raw` made, `decompress_raw` turns every shorter
/// beginning down.
pub proof fn law_a_raw_stream_that_breaks_off_is_refused(
    input: &[u8],
    level: CompressionLevel,
    packed: Vec<u8>,
    stream: &[u8],
    unpacked: Result<Vec<u8>, BunkoError>,
)
    requires
        call_ensures(compress_raw, (input, level), Ok(packed)),
        stream@.len() < packed@.len(),
        stream@ == packed@.take(stream@.len() as int),
        call_ensures(decompress_raw, (stream,), unpacked),
    ensures
        unpacked matches Err(e) && e is DecompressionError,
{
}

/// A failure to decompress is passed on as it is: where `decompress` turns `data` down with a
/// message, `decompress_struct` turns them down with a `DecompressionError` that carries this
/// very message, and `decompress_to_string`, for gzip, with this very message.
pub proof fn law_decompression_failure_is_passed_on<U: for<'de> serde::Deserialize<'de>>(
    data: &[u8],
    format: CompressionFormat,
    plain: Result<Vec<u8>, String>,
    typed: Result<U, BunkoError>,
    text: Result<String, String>,
)
    requires
        call_ensures(decompress, (data, format), plain),
        call_ensures(decompress_struct::<U>, (data, format), typed),
        call_ensures(decompress_to_string, (data,), text),
        plain is Err,
    ensures
        typed matches Err(e) && e is DecompressionError && e.message() == plain->Err_0@,
        format == CompressionFormat::Gzip ==> (text matches Err(m) && m@ == plain->Err_0@),
{
}

/// The cuts in a compressed stream do not change the failure either: where `decompress` turns
/// a stream down, `decompress_stream` turns its pieces down at the same step and with the same
/// words of the engine.
pub proof fn law_cuts_do_not_change_the_failure(
    pieces: &[&[u8]],
    stream: &[u8],
    format: CompressionFormat,
    in_pieces: Result<Vec<u8>, String>,
    whole: Result<Vec<u8>, String>,
)
    requires
        chunk_seqs(pieces@).flatten() == stream@,
        call_ensures(decompress_stream, (pieces, format), in_pieces),
        call_ensures(decompress, (stream, format), whole),
        whole is Err,
    ensures
        in_pieces matches Err(m) && (match write_failure(format, stream@) {
            Some(words) => whole->Err_0@ == "Decompression error: "@ + words && m@
                == "Stream decompression error: "@ + words,
            None => whole->Err_0@ == "Failed to finish decompression: "@ + finish_words(
                format,
                stream@,
            ) && m@ == "Failed to finish streaming decompression: "@ + finish_words(
                format,
                stream@,
            ),
        }),
{
}

/// A message about bytes that are not UTF-8 is never one about a failed decompression.
pub proof fn law_utf8_failure_is_distinct(message: Seq<char>)
    requires
        is_utf8_failure(message),
    ensures
        !is_decompression_failure(message),
{
    reveal_strlit("UTF-8 error: ");
    reveal_strlit("Decompression error: ");
    reveal_strlit("Failed to finish decompression: ");
    let utf8 = "UTF-8 error: "@;
    let feed = "Decompression error: "@;
    let finish = "Failed to finish decompression: "@;
    assert(message[0] == utf8[0]);
    assert(utf8[0] == 'U' && feed[0] == 'D' && finish[0] == 'F');
    if feed.is_prefix_of(message) {
        assert(message[0] == feed[0]);
    }
    if finish.is_prefix_of(message) {
        assert(message[0] == finish[0]);
    }
}

} // verus!
