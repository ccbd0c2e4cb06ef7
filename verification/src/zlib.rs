//! Zlib, as flate2's push-style `write::ZlibEncoder` and `write::ZlibDecoder` do it.
//!
//! Nothing here is proved. Each contract says what the engine is taken to do. An encoder
//! writes into memory, where nothing can fail. What it puts out is taken to depend on the
//! chunks written to it, one `write_all` each, and on its level, and on nothing else; it can
//! depend on where the chunks end. What a decoder makes of a stream, and the words with which
//! it turns one down, are taken to depend on the bytes of the stream alone.
//!
//! The decoder takes a stream that breaks off early for a whole one and hands out what it has
//! decoded so far. A `write` that takes no byte is its sign that the stream has ended; the
//! library looks for that sign before it finishes.

use vstd::prelude::*;

verus! {

/// A `flate2::write::ZlibEncoder` that collects its output in a `Vec<u8>`.
#[verifier::external_body]
pub struct ZlibCompressor {
    inner: flate2::write::ZlibEncoder<Vec<u8>>,
}

/// A `flate2::write::ZlibDecoder` that collects its output in a `Vec<u8>`.
#[verifier::external_body]
pub struct ZlibDecompressor {
    inner: flate2::write::ZlibDecoder<Vec<u8>>,
}

/// The chunks written to the encoder so far, in order. Empty chunks do not count: to write
/// one is to write nothing.
pub uninterp spec fn zlib_encoder_writes(e: ZlibCompressor) -> Seq<Seq<u8>>;

/// The level of the setting the encoder was made with.
pub uninterp spec fn zlib_encoder_level(e: ZlibCompressor) -> u32;

/// The zlib stream that `ZlibEncoder::finish` hands out after the chunks `writes` were
/// written, one `write_all` each, to an encoder made at `level`.
pub uninterp spec fn zlib_stream(writes: Seq<Seq<u8>>, level: u32) -> Seq<u8>;

/// The bytes written to the decoder so far, in order.
pub uninterp spec fn zlib_decoder_fed(d: ZlibDecompressor) -> Seq<u8>;

/// What `ZlibDecoder::finish` hands out after `stream` was written to a new decoder: the
/// decoded bytes, or `None` where a write or the finish fails.
pub uninterp spec fn zlib_plain(stream: Seq<u8>) -> Option<Seq<u8>>;

/// The first two bytes of `stream`, where it has them, are not ruled out as the header of a
/// zlib stream: read as one number, high byte first, they are a multiple of 31.
pub open spec fn zlib_opening(stream: Seq<u8>) -> bool {
    stream.len() < 2 || (stream[0] as int * 256 + stream[1] as int) % 31 == 0
}

/// The mark that a zlib stream carries in the two highest bits of its second byte for the level
/// it was made at, for the levels of the engine's three presets: 0 at level 1, 2 at level 6
/// and 3 at level 9.
pub open spec fn zlib_level_mark(level: u32) -> Option<int> {
    if level == 1 {
        Some(0)
    } else if level == 6 {
        Some(2)
    } else if level == 9 {
        Some(3)
    } else {
        None
    }
}

/// How `Write::write_all` fails when `stream` is written to a new decoder: the text of its
/// error, or `None` where it succeeds.
pub uninterp spec fn zlib_write_failure(stream: Seq<u8>) -> Option<Seq<char>>;

/// The text of the error with which `ZlibDecoder::finish` fails after `stream` was written to a
/// new decoder, where it fails.
pub uninterp spec fn zlib_finish_failure(stream: Seq<u8>) -> Seq<char>;

/// Whether a decoder to which `stream` was written has come to the end of a zlib stream, so
/// that a further `write` takes no byte.
pub uninterp spec fn zlib_ended(stream: Seq<u8>) -> bool;

/// The decoder fails on every stream that begins with `prefix`.
pub open spec fn zlib_refuses(prefix: Seq<u8>) -> bool {
    forall|rest: Seq<u8>| (#[trigger] zlib_plain(prefix + rest)) is None
}

/// `ZlibEncoder::new` on an empty `Vec`: nothing is written yet, and the level is that of
/// `setting`. The engine knows no level above 10.
#[verifier::external_body]
pub(crate) fn zlib_encoder_new(setting: flate2::Compression) -> (e: ZlibCompressor)
    requires
        crate::format::compression_level(setting) <= 10,
    ensures
        zlib_encoder_writes(e) == Seq::<Seq<u8>>::empty(),
        zlib_encoder_level(e) == crate::format::compression_level(setting),
{
    ZlibCompressor { inner: flate2::write::ZlibEncoder::new(Vec::new(), setting) }
}

/// `Write::write_all` on the encoder: it succeeds, since writing into memory cannot fail. A
/// `chunk` that holds bytes is one more write, an empty one is none, and the level stays.
#[verifier::external_body]
pub(crate) fn zlib_encoder_write_all(e: &mut ZlibCompressor, chunk: &[u8]) -> (r: Result<
    (),
    std::io::Error,
>)
    ensures
        r is Ok,
        zlib_encoder_writes(*final(e)) == if chunk@.len() == 0 {
            zlib_encoder_writes(*old(e))
        } else {
            zlib_encoder_writes(*old(e)).push(chunk@)
        },
        zlib_encoder_level(*final(e)) == zlib_encoder_level(*old(e)),
{
    std::io::Write::write_all(&mut e.inner, chunk)
}

/// `ZlibEncoder::finish`: it succeeds, since writing into memory cannot fail. The output is the
/// zlib stream of the chunks written, at the encoder's level.
/// It holds at least the 6 bytes of header and checksum, opens as a zlib
/// stream does and carries the mark of the level where that is a preset's.
/// The zlib decoder turns it back into the bytes of the chunks. The stream ends where the
/// output ends: no piece of it that breaks off early brings the decoder to the end.
#[verifier::external_body]
pub(crate) fn zlib_encoder_finish(e: ZlibCompressor) -> (r: Result<Vec<u8>, std::io::Error>)
    ensures
        r is Ok,
        r matches Ok(v) ==> v@ == zlib_stream(zlib_encoder_writes(e), zlib_encoder_level(e)),
        r matches Ok(v) ==> v@.len() >= 6 && zlib_opening(v@),
        r matches Ok(v) ==> (zlib_level_mark(zlib_encoder_level(e)) matches Some(mark) ==> v@[1]
            as int / 64 == mark),
        r matches Ok(v) ==> zlib_plain(v@) == Some(zlib_encoder_writes(e).flatten()),
        r matches Ok(v) ==> zlib_ended(v@),
        r matches Ok(v) ==> forall|k: int| 0 <= k < v@.len() ==> !#[trigger] zlib_ended(v@.take(k)),
{
    e.inner.finish()
}

/// `ZlibDecoder::new` on an empty `Vec`: nothing is written yet, and to write nothing does not
/// fail.
#[verifier::external_body]
pub(crate) fn zlib_decoder_new() -> (d: ZlibDecompressor)
    ensures
        zlib_decoder_fed(d) == Seq::<u8>::empty(),
        zlib_write_failure(zlib_decoder_fed(d)) is None,
{
    ZlibDecompressor { inner: flate2::write::ZlibDecoder::new(Vec::new()) }
}

/// `Write::write_all` on the decoder: where it succeeds, `chunk` is appended to what was
/// written, and all of that is something that can be written without failure. It fails only on
/// bytes that begin no stream the decoder accepts, and the text of its error is the one with
/// which the write of any stream fails that begins with these bytes.
#[verifier::external_body]
pub(crate) fn zlib_decoder_write_all(d: &mut ZlibDecompressor, chunk: &[u8]) -> (r: Result<
    (),
    std::io::Error,
>)
    ensures
        r is Ok ==> zlib_decoder_fed(*final(d)) == zlib_decoder_fed(*old(d)) + chunk@,
        r is Ok ==> zlib_write_failure(zlib_decoder_fed(*final(d))) is None,
        r is Err ==> zlib_refuses(zlib_decoder_fed(*old(d)) + chunk@),
        r matches Err(e) ==> forall|rest: Seq<u8>, words: String|
            #[trigger] crate::error::is_error_text(&e, words) ==> #[trigger] zlib_write_failure(
                zlib_decoder_fed(*old(d)) + chunk@ + rest,
            ) == Some(words@),
{
    std::io::Write::write_all(&mut d.inner, chunk)
}

/// `Write::write` on the decoder, with a `probe` that holds bytes: it returns `Ok(0)` exactly
/// where the decoder has come to the end of its stream, and then it has taken nothing. Of any
/// other outcome nothing is said.
#[verifier::external_body]
pub(crate) fn zlib_decoder_write(d: &mut ZlibDecompressor, probe: &[u8]) -> (r: Result<
    usize,
    std::io::Error,
>)
    requires
        probe@.len() > 0,
    ensures
        (r matches Ok(n) && n == 0) == zlib_ended(zlib_decoder_fed(*old(d))),
        r matches Ok(n) && n == 0 ==> zlib_decoder_fed(*final(d)) == zlib_decoder_fed(
            *old(d),
        ),
{
    std::io::Write::write(&mut d.inner, probe)
}

/// `ZlibDecoder::finish`: the decoded bytes of what was written, or an error where there are
/// none, with the text that belongs to what was written. It succeeds only on what opens as a
/// zlib stream does.
#[verifier::external_body]
pub(crate) fn zlib_decoder_finish(d: ZlibDecompressor) -> (r: Result<Vec<u8>, std::io::Error>)
    ensures
        r matches Ok(v) ==> zlib_plain(zlib_decoder_fed(d)) == Some(v@),
        r is Err ==> zlib_plain(zlib_decoder_fed(d)) is None,
        r is Ok ==> zlib_opening(zlib_decoder_fed(d)),
        r matches Err(e) ==> forall|words: String| #[trigger]
            crate::error::is_error_text(&e, words) ==> words@ == zlib_finish_failure(
                zlib_decoder_fed(d),
            ),
{
    d.inner.finish()
}

} // verus!
