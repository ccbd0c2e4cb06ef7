//! The format dispatcher: one encoder and one decoder type that stand for the engine's three.
//!
//! Both follow the engine's protocol: open, feed any number of times, finish once. Finishing
//! consumes the value, so nothing can be fed afterwards.
//!
//! What a stream decompresses to is a matter of its bytes alone, and `decompressed` says what
//! that is. What an encoder puts out is a matter of the chunks it was fed and of its level,
//! and `compressed` says what that is: the engine may give other bytes when the same input
//! reaches it in other pieces, but it gives the same bytes for the same pieces. The library
//! itself feeds the engine through `blocks`, which always cuts the same pieces.

use vstd::prelude::*;
use crate::deflate::{
    deflate_decoder_fed, deflate_decoder_finish, deflate_decoder_new, deflate_decoder_write,
    deflate_decoder_write_all, deflate_ended,
    deflate_finish_failure, deflate_write_failure,
    deflate_encoder_finish, deflate_encoder_level, deflate_encoder_new,
    deflate_encoder_write_all, deflate_encoder_writes, deflate_opening, deflate_plain,
    deflate_stream, DeflateCompressor, DeflateDecompressor,
};
use crate::error::is_error_text;
use crate::format::{CompressionFormat, CompressionLevel};
use crate::raw::raw_plain;
use crate::gzip::{
    gzip_decoder_fed, gzip_decoder_finish, gzip_decoder_new, gzip_decoder_write_all,
    gzip_finish_failure, gzip_write_failure,
    gzip_encoder_finish, gzip_encoder_level, gzip_encoder_new, gzip_encoder_write_all,
    gzip_encoder_writes, gzip_level_mark, gzip_opening, gzip_plain, gzip_stream, GzipCompressor,
    GzipDecompressor,
};
use crate::zlib::{
    zlib_decoder_fed, zlib_decoder_finish, zlib_decoder_new, zlib_decoder_write,
    zlib_decoder_write_all, zlib_ended,
    zlib_finish_failure, zlib_write_failure,
    zlib_encoder_finish, zlib_encoder_level, zlib_encoder_new, zlib_encoder_write_all,
    zlib_encoder_writes, zlib_level_mark, zlib_opening, zlib_plain, zlib_stream, ZlibCompressor,
    ZlibDecompressor,
};

verus! {

/// What is written after one more `write_all`: a chunk that holds bytes is one more write, an
/// empty one is none.
pub open spec fn written(before: Seq<Seq<u8>>, chunk: Seq<u8>) -> Seq<Seq<u8>> {
    if chunk.len() == 0 {
        before
    } else {
        before.push(chunk)
    }
}

/// The stream that the encoder for `format`, opened at the engine's level `level`, makes of
/// the chunks `writes`, written one by one.
pub open spec fn compressed(format: CompressionFormat, writes: Seq<Seq<u8>>, level: u32) -> Seq<
    u8,
> {
    match format {
        CompressionFormat::Gzip => gzip_stream(writes, level),
        CompressionFormat::Deflate => deflate_stream(writes, level),
        CompressionFormat::Zlib => zlib_stream(writes, level),
    }
}

/// The bytes that the engine's decoder for `format` makes of `stream`, or `None` where it
/// fails on it.
pub open spec fn decoded(format: CompressionFormat, stream: Seq<u8>) -> Option<Seq<u8>> {
    match format {
        CompressionFormat::Gzip => gzip_plain(stream),
        CompressionFormat::Deflate => deflate_plain(stream),
        CompressionFormat::Zlib => zlib_plain(stream),
    }
}

/// `stream` opens as a stream of `format` does. For gzip these are the two bytes 0x1f and
/// 0x8b. For zlib and raw deflate it means that the first bytes, as far as they are there, are
/// not ruled out.
pub open spec fn opens_as(format: CompressionFormat, stream: Seq<u8>) -> bool {
    match format {
        CompressionFormat::Gzip => gzip_opening(stream),
        CompressionFormat::Deflate => deflate_opening(stream),
        CompressionFormat::Zlib => zlib_opening(stream),
    }
}

/// `stream` does not break off early: it brings the decoder for `format` to the end of a
/// stream. The engine's zlib and raw deflate decoders would take a stream that breaks off for
/// a whole one, so the library asks them; the gzip decoder turns such a stream down itself.
pub open spec fn ended(format: CompressionFormat, stream: Seq<u8>) -> bool {
    match format {
        CompressionFormat::Gzip => true,
        CompressionFormat::Deflate => deflate_ended(stream),
        CompressionFormat::Zlib => zlib_ended(stream),
    }
}

/// What decompressing `stream` as `format` gives: the bytes that the decoder makes of it
/// where it opens as the format requires, does not break off early and the decoder accepts it,
/// `None` everywhere else.
pub open spec fn decompressed(format: CompressionFormat, stream: Seq<u8>) -> Option<Seq<u8>> {
    if opens_as(format, stream) && ended(format, stream) {
        decoded(format, stream)
    } else {
        None
    }
}

/// What decompressing `stream` with the engine's pull-style raw deflate decoder gives: the
/// bytes that the decoder makes of it where it holds bytes, opens as a deflate stream does
/// and the decoder accepts it, `None` everywhere else.
pub open spec fn raw_decompressed(stream: Seq<u8>) -> Option<Seq<u8>> {
    if stream.len() > 0 && opens_as(CompressionFormat::Deflate, stream) {
        raw_plain(stream)
    } else {
        None
    }
}

/// Nothing that breaks `packed` off early decompresses as `format`, or, for raw deflate, with
/// the pull-style decoder.
pub open spec fn is_whole(packed: Seq<u8>, format: CompressionFormat) -> bool {
    forall|k: int|
        0 <= k < packed.len() ==> {
            &&& decompressed(format, #[trigger] packed.take(k)) is None
            &&& format == CompressionFormat::Deflate ==> raw_decompressed(packed.take(k)) is None
        }
}

/// The fewest bytes that a stream of `format` holds: header and trailer for gzip, header and
/// checksum for zlib, one byte for raw deflate.
pub open spec fn least_length(format: CompressionFormat) -> nat {
    match format {
        CompressionFormat::Gzip => 18,
        CompressionFormat::Deflate => 1,
        CompressionFormat::Zlib => 6,
    }
}

/// `packed` is a compressed form of `data` in `format`: it holds at least the bytes of the
/// format's framing, so it is never empty, decompressing it as `format` gives `data`, and
/// nothing that breaks it off early decompresses. Where the format is raw deflate, that holds
/// of either way to decompress it, `decompress` and `decompress_raw`.
pub open spec fn is_compressed(packed: Seq<u8>, format: CompressionFormat, data: Seq<u8>) -> bool {
    &&& packed.len() >= least_length(format)
    &&& decompressed(format, packed) == Some(data)
    &&& format == CompressionFormat::Deflate ==> raw_decompressed(packed) == Some(data)
    &&& is_whole(packed, format)
}

/// `stream` carries the mark of the engine's level `level`, as far as its format has one: a
/// gzip stream in its ninth byte, a zlib stream, for the levels of the three presets, in the
/// two highest bits of its second byte, a raw deflate stream nowhere.
pub open spec fn shows_level(stream: Seq<u8>, format: CompressionFormat, level: u32) -> bool {
    match format {
        CompressionFormat::Gzip => stream.len() >= 9 && stream[8] == gzip_level_mark(level),
        CompressionFormat::Deflate => true,
        CompressionFormat::Zlib => zlib_level_mark(level) matches Some(mark) ==> stream.len() >= 2
            && stream[1] as int / 64 == mark,
    }
}

/// How feeding `stream` to a new decoder for `format` fails: the engine's words for it, or
/// `None` where the decoder takes all of it.
pub open spec fn write_failure(format: CompressionFormat, stream: Seq<u8>) -> Option<Seq<char>> {
    match format {
        CompressionFormat::Gzip => gzip_write_failure(stream),
        CompressionFormat::Deflate => deflate_write_failure(stream),
        CompressionFormat::Zlib => zlib_write_failure(stream),
    }
}

/// The engine's words for a decoder for `format` that took all of `stream` and then could not
/// finish.
pub open spec fn finish_failure(format: CompressionFormat, stream: Seq<u8>) -> Seq<char> {
    match format {
        CompressionFormat::Gzip => gzip_finish_failure(stream),
        CompressionFormat::Deflate => deflate_finish_failure(stream),
        CompressionFormat::Zlib => zlib_finish_failure(stream),
    }
}

/// The words for a `stream` that a decoder for `format` took in full and that does not
/// decompress: the library's own where the stream breaks off early, the engine's where the
/// finish fails.
pub open spec fn finish_words(format: CompressionFormat, stream: Seq<u8>) -> Seq<char> {
    if ended(format, stream) {
        finish_failure(format, stream)
    } else {
        "incomplete deflate stream"@
    }
}

/// The message for a `stream` that does not decompress as `format`: `at_write` and the
/// engine's words where feeding the stream fails, `at_finish` and the engine's words where
/// the finish fails.
pub open spec fn refusal(
    format: CompressionFormat,
    stream: Seq<u8>,
    at_write: Seq<char>,
    at_finish: Seq<char>,
) -> Seq<char> {
    match write_failure(format, stream) {
        Some(words) => at_write + words,
        None => at_finish + finish_words(format, stream),
    }
}

/// Nothing that begins with `prefix` decompresses as `format`.
pub open spec fn refuses(format: CompressionFormat, prefix: Seq<u8>) -> bool {
    forall|rest: Seq<u8>| (#[trigger] decompressed(format, prefix + rest)) is None
}

/// A stream that begins with a refused prefix does not decompress.
pub proof fn lemma_refused_prefix(format: CompressionFormat, prefix: Seq<u8>, stream: Seq<u8>)
    requires
        refuses(format, prefix),
        prefix.is_prefix_of(stream),
    ensures
        decompressed(format, stream) is None,
{
    let rest = stream.subrange(prefix.len() as int, stream.len() as int);
    assert(prefix + rest =~= stream);
    assert(decompressed(format, prefix + rest) is None);
}

/// An encoder of one of the three formats, writing into memory.
pub enum Encoder {
    /// Writes gzip.
    Gzip(GzipCompressor),
    /// Writes raw deflate.
    Deflate(DeflateCompressor),
    /// Writes zlib.
    Zlib(ZlibCompressor),
}

impl Encoder {
    /// The format this encoder writes.
    pub open spec fn format(self) -> CompressionFormat {
        match self {
            Encoder::Gzip(_) => CompressionFormat::Gzip,
            Encoder::Deflate(_) => CompressionFormat::Deflate,
            Encoder::Zlib(_) => CompressionFormat::Zlib,
        }
    }

    /// The chunks written so far, in order, empty ones left out.
    pub open spec fn writes(self) -> Seq<Seq<u8>> {
        match self {
            Encoder::Gzip(e) => gzip_encoder_writes(e),
            Encoder::Deflate(e) => deflate_encoder_writes(e),
            Encoder::Zlib(e) => zlib_encoder_writes(e),
        }
    }

    /// All bytes fed so far, in order.
    pub open spec fn fed(self) -> Seq<u8> {
        self.writes().flatten()
    }

    /// The engine's level this encoder was opened with.
    pub open spec fn level(self) -> u32 {
        match self {
            Encoder::Gzip(e) => gzip_encoder_level(e),
            Encoder::Deflate(e) => deflate_encoder_level(e),
            Encoder::Zlib(e) => zlib_encoder_level(e),
        }
    }

    /// Opens the encoder for `format` at the engine's preset for `level`.
    pub fn new(format: CompressionFormat, level: CompressionLevel) -> (e: Encoder)
        ensures
            e.format() == format,
            e.writes() == Seq::<Seq<u8>>::empty(),
            e.level() == level.engine_level(),
    {
        let setting = level.to_flate2_compression();
        match format {
            CompressionFormat::Gzip => Encoder::Gzip(gzip_encoder_new(setting)),
            CompressionFormat::Deflate => Encoder::Deflate(deflate_encoder_new(setting)),
            CompressionFormat::Zlib => Encoder::Zlib(zlib_encoder_new(setting)),
        }
    }

    /// Feeds `chunk`, which always succeeds: the engine writes into memory. A chunk that holds
    /// bytes is one more write, an empty one is none; the format and the level stay.
    pub fn write_all(&mut self, chunk: &[u8]) -> (r: Result<(), std::io::Error>)
        ensures
            r is Ok,
            final(self).format() == old(self).format(),
            final(self).writes() == written(old(self).writes(), chunk@),
            final(self).level() == old(self).level(),
    {
        match self {
            Encoder::Gzip(e) => gzip_encoder_write_all(e, chunk),
            Encoder::Deflate(e) => deflate_encoder_write_all(e, chunk),
            Encoder::Zlib(e) => zlib_encoder_write_all(e, chunk),
        }
    }

    /// Closes the stream, which always succeeds. What comes out is the engine's stream for the
    /// chunks written, at the level the encoder was opened at: a compressed form of all that
    /// was fed, which carries the mark of the level.
    pub fn finish(self) -> (r: Result<Vec<u8>, std::io::Error>)
        ensures
            r matches Ok(packed) && {
                &&& packed@ == compressed(self.format(), self.writes(), self.level())
                &&& is_compressed(packed@, self.format(), self.fed())
                &&& shows_level(packed@, self.format(), self.level())
            },
    {
        match self {
            Encoder::Gzip(e) => gzip_encoder_finish(e),
            Encoder::Deflate(e) => deflate_encoder_finish(e),
            Encoder::Zlib(e) => zlib_encoder_finish(e),
        }
    }
}

/// A decoder of one of the three formats, writing into memory.
pub enum Decoder {
    /// Reads gzip.
    Gzip(GzipDecompressor),
    /// Reads raw deflate.
    Deflate(DeflateDecompressor),
    /// Reads zlib.
    Zlib(ZlibDecompressor),
}

impl Decoder {
    /// The format this decoder reads.
    pub open spec fn format(self) -> CompressionFormat {
        match self {
            Decoder::Gzip(_) => CompressionFormat::Gzip,
            Decoder::Deflate(_) => CompressionFormat::Deflate,
            Decoder::Zlib(_) => CompressionFormat::Zlib,
        }
    }

    /// All bytes fed so far, in order.
    pub open spec fn fed(self) -> Seq<u8> {
        match self {
            Decoder::Gzip(d) => gzip_decoder_fed(d),
            Decoder::Deflate(d) => deflate_decoder_fed(d),
            Decoder::Zlib(d) => zlib_decoder_fed(d),
        }
    }

    /// Opens the decoder for `format`.
    pub fn new(format: CompressionFormat) -> (d: Decoder)
        ensures
            d.format() == format,
            d.fed() == Seq::<u8>::empty(),
            write_failure(format, d.fed()) is None,
    {
        match format {
            CompressionFormat::Gzip => Decoder::Gzip(gzip_decoder_new()),
            CompressionFormat::Deflate => Decoder::Deflate(deflate_decoder_new()),
            CompressionFormat::Zlib => Decoder::Zlib(zlib_decoder_new()),
        }
    }

    /// Feeds `chunk`. The format never changes; where the engine takes the chunk, it is
    /// appended to what was fed. The engine fails only on bytes that begin nothing it accepts,
    /// and then with the words that belong to every stream that begins with these bytes.
    pub fn write_all(&mut self, chunk: &[u8]) -> (r: Result<(), std::io::Error>)
        ensures
            final(self).format() == old(self).format(),
            r is Ok ==> final(self).fed() == old(self).fed() + chunk@,
            r is Ok ==> write_failure(old(self).format(), final(self).fed()) is None,
            r is Err ==> refuses(old(self).format(), old(self).fed() + chunk@),
            r matches Err(e) ==> forall|rest: Seq<u8>, words: String|
                #[trigger] is_error_text(&e, words) ==> #[trigger] write_failure(
                    old(self).format(),
                    old(self).fed() + chunk@ + rest,
                ) == Some(words@),
    {
        match self {
            Decoder::Gzip(d) => gzip_decoder_write_all(d, chunk),
            Decoder::Deflate(d) => deflate_decoder_write_all(d, chunk),
            Decoder::Zlib(d) => zlib_decoder_write_all(d, chunk),
        }
    }

    /// Asks whether what was fed brings the decoder to the end of a stream. Where it does,
    /// nothing changes. Where it does not, the stream breaks off early, and the decoder is of
    /// no more use. The gzip decoder is not asked: it turns down what breaks off when it
    /// finishes.
    pub fn at_end(&mut self) -> (r: bool)
        ensures
            final(self).format() == old(self).format(),
            r == ended(old(self).format(), old(self).fed()),
            r ==> final(self).fed() == old(self).fed(),
    {
        let mut probe: Vec<u8> = Vec::new();
        probe.push(0);
        match self {
            Decoder::Gzip(_) => true,
            Decoder::Deflate(d) => match deflate_decoder_write(d, probe.as_slice()) {
                Ok(taken) => taken == 0,
                Err(_) => false,
            },
            Decoder::Zlib(d) => match zlib_decoder_write(d, probe.as_slice()) {
                Ok(taken) => taken == 0,
                Err(_) => false,
            },
        }
    }

    /// Closes the stream: what the engine's decoder makes of all that was fed, or the engine's
    /// error where it fails, with the words that belong to what was fed. Whether the stream
    /// breaks off early is not looked at here; `at_end` tells.
    pub fn finish(self) -> (r: Result<Vec<u8>, std::io::Error>)
        ensures
            r matches Ok(plain) ==> opens_as(self.format(), self.fed()) && decoded(
                self.format(),
                self.fed(),
            ) == Some(plain@),
            r is Err ==> decoded(self.format(), self.fed()) is None,
            r matches Err(e) ==> forall|words: String| #[trigger]
                is_error_text(&e, words) ==> words@ == finish_failure(self.format(), self.fed()),
    {
        match self {
            Decoder::Gzip(d) => gzip_decoder_finish(d),
            Decoder::Deflate(d) => deflate_decoder_finish(d),
            Decoder::Zlib(d) => zlib_decoder_finish(d),
        }
    }
}

} // verus!
