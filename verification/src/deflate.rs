//! Raw deflate, as flate2's push-style `write::DeflateEncoder` and `write::DeflateDecoder` do it.
//!
//! Nothing here is proved. Each contract says what the engine is taken to do. An encoder
//! writes into memory, where nothing can fail. What it puts out is taken to depend on the
//! chunks written to it, one `write_all` each, and on its level, and on nothing else; it can
//! depend on where the chunks end. What a decoder makes of a stream, and the words with which
//! it turns one down, are taken to depend on the bytes of the stream alone.
//!
//! The decoder takes a stream that breaks off early for a whole one and hands out what it has
//! decoded so far. A `write` that takes no byte is its sign that the stream has ended; the
//! library looks for that sign before it finishes.

use vstd::prelude::*;

verus! {

/// A `flate2::write::DeflateEncoder` that collects its output in a `Vec<u8>`.
#[verifier::external_body]
pub struct DeflateCompressor {
    inner: flate2::write::DeflateEncoder<Vec<u8>>,
}

/// A `flate2::write::DeflateDecoder` that collects its output in a `Vec<u8>`.
#[verifier::external_body]
pub struct DeflateDecompressor {
    inner: flate2::write::DeflateDecoder<Vec<u8>>,
}

/// The chunks written to the encoder so far, in order. Empty chunks do not count: to write
/// one is to write nothing.
pub uninterp spec fn deflate_encoder_writes(e: DeflateCompressor) -> Seq<Seq<u8>>;

/// The level of the setting the encoder was made with.
pub uninterp spec fn deflate_encoder_level(e: DeflateCompressor) -> u32;

/// The deflate stream that `DeflateEncoder::finish` hands out after the chunks `writes` were
/// written, one `write_all` each, to an encoder made at `level`.
pub uninterp spec fn deflate_stream(writes: Seq<Seq<u8>>, level: u32) -> Seq<u8>;

/// The bytes written to the decoder so far, in order.
pub uninterp spec fn deflate_decoder_fed(d: DeflateDecompressor) -> Seq<u8>;

/// What `DeflateDecoder::finish` hands out after `stream` was written to a new decoder: the
/// decoded bytes, or `None` where a write or the finish fails.
pub uninterp spec fn deflate_plain(stream: Seq<u8>) -> Option<Seq<u8>>;

/// The first byte of `stream`, where it has one, is not ruled out as the start of a deflate
/// block: the two bits above the lowest, which give the block's type, are not both set.
pub open spec fn deflate_opening(stream: Seq<u8>) -> bool {
    stream.len() == 0 || (stream[0] as int / 2) % 4 != 3
}

/// How `Write::write_all` fails when `stream` is written to a new decoder: the text of its
/// error, or `None` where it succeeds.
pub uninterp spec fn deflate_write_failure(stream: Seq<u8>) -> Option<Seq<char>>;

/// The text of the error with which `DeflateDecoder::finish` fails after `stream` was written to a
/// new decoder, where it fails.
pub uninterp spec fn deflate_finish_failure(stream: Seq<u8>) -> Seq<char>;

/// Whether a decoder to which `stream` was written has come to the end of a deflate stream, so
/// that a further `write` takes no byte.
pub uninterp spec fn deflate_ended(stream: Seq<u8>) -> bool;

/// The decoder fails on every stream that begins with `prefix`.
pub open spec fn deflate_refuses(prefix: Seq<u8>) -> bool {
    forall|rest: Seq<u8>| (#[trigger] deflate_plain(prefix + rest)) is None
}

/// `DeflateEncoder::new` on an empty `Vec`: nothing is written yet, and the level is that of
/// `setting`. The engine knows no level above 10.
#[verifier::external_body]
pub(crate) fn deflate_encoder_new(setting: flate2::Compression) -> (e: DeflateCompressor)
    requires
        crate::format::compression_level(setting) <= 10,
    ensures
        deflate_encoder_writes(e) == Seq::<Seq<u8>>::empty(),
        deflate_encoder_level(e) == crate::format::compression_level(setting),
{
    DeflateCompressor { inner: flate2::write::DeflateEncoder::new(Vec::new(), setting) }
}

/// `Write::write_all` on the encoder: it succeeds, since writing into memory cannot fail. A
/// `chunk` that holds bytes is one more write, an empty one is none, and the level stays.
#[verifier::external_body]
pub(crate) fn deflate_encoder_write_all(e: &mut DeflateCompressor, chunk: &[u8]) -> (r: Result<
    (),
    std::io::Error,
>)
    ensures
        r is Ok,
        deflate_encoder_writes(*final(e)) == if chunk@.len() == 0 {
            deflate_encoder_writes(*old(e))
        } else {
            deflate_encoder_writes(*old(e)).push(chunk@)
        },
        deflate_encoder_level(*final(e)) == deflate_encoder_level(*old(e)),
{
    std::io::Write::write_all(&mut e.inner, chunk)
}

/// `DeflateEncoder::finish`: it succeeds, since writing into memory cannot fail. The output is the
/// deflate stream of the chunks written, at the encoder's level.
/// It is not empty and opens as a deflate stream does.
/// The deflate decoder turns it back into the bytes of the chunks. So does the
/// pull-style decoder, which reads the same format. The stream ends where
/// the output ends: no piece of it that breaks off early brings the push-style decoder to
/// the end, and the pull-style one fails on it.
#[verifier::external_body]
pub(crate) fn deflate_encoder_finish(e: DeflateCompressor) -> (r: Result<Vec<u8>, std::io::Error>)
    ensures
        r is Ok,
        r matches Ok(v) ==> v@ == deflate_stream(
            deflate_encoder_writes(e),
            deflate_encoder_level(e),
        ),
        r matches Ok(v) ==> v@.len() >= 1 && deflate_opening(v@),
        r matches Ok(v) ==> crate::raw::raw_plain(v@) == Some(
            deflate_encoder_writes(e).flatten(),
        ),
        r matches Ok(v) ==> deflate_plain(v@) == Some(deflate_encoder_writes(e).flatten()),
        r matches Ok(v) ==> deflate_ended(v@),
        r matches Ok(v) ==> forall|k: int|
            0 <= k < v@.len() ==> !#[trigger] deflate_ended(v@.take(k)),
        r matches Ok(v) ==> forall|k: int|
            0 <= k < v@.len() ==> (#[trigger] crate::raw::raw_plain(v@.take(k))) is None,
{
    e.inner.finish()
}

/// `DeflateDecoder::new` on an empty `Vec`: nothing is written yet, and to write nothing does not
/// fail.
#[verifier::external_body]
pub(crate) fn deflate_decoder_new() -> (d: DeflateDecompressor)
    ensures
        deflate_decoder_fed(d) == Seq::<u8>::empty(),
        deflate_write_failure(deflate_decoder_fed(d)) is None,
{
    DeflateDecompressor { inner: flate2::write::DeflateDecoder::new(Vec::new()) }
}

/// `Write::write_all` on the decoder: where it succeeds, `chunk` is appended to what was
/// written, and all of that is something that can be written without failure. It fails only on
/// bytes that begin no stream the decoder accepts, and the text of its error is the one with
/// which the write of any stream fails that begins with these bytes.
#[verifier::external_body]
pub(crate) fn deflate_decoder_write_all(d: &mut DeflateDecompressor, chunk: &[u8]) -> (r: Result<
    (),
    std::io::Error,
>)
    ensures
        r is Ok ==> deflate_decoder_fed(*final(d)) == deflate_decoder_fed(*old(d)) + chunk@,
        r is Ok ==> deflate_write_failure(deflate_decoder_fed(*final(d))) is None,
        r is Err ==> deflate_refuses(deflate_decoder_fed(*old(d)) + chunk@),
        r matches Err(e) ==> forall|rest: Seq<u8>, words: String|
            #[trigger] crate::error::is_error_text(&e, words) ==> #[trigger] deflate_write_failure(
                deflate_decoder_fed(*old(d)) + chunk@ + rest,
            ) == Some(words@),
{
    std::io::Write::write_all(&mut d.inner, chunk)
}

/// `Write::write` on the decoder, with a `probe` that holds bytes: it returns `Ok(0)` exactly
/// where the decoder has come to the end of its stream, and then it has taken nothing. Of any
/// other outcome nothing is said.
#[verifier::external_body]
pub(crate) fn deflate_decoder_write(d: &mut DeflateDecompressor, probe: &[u8]) -> (r: Result<
    usize,
    std::io::Error,
>)
    requires
        probe@.len() > 0,
    ensures
        (r matches Ok(n) && n == 0) == deflate_ended(deflate_decoder_fed(*old(d))),
        r matches Ok(n) && n == 0 ==> deflate_decoder_fed(*final(d)) == deflate_decoder_fed(
            *old(d),
        ),
{
    std::io::Write::write(&mut d.inner, probe)
}

/// `DeflateDecoder::finish`: the decoded bytes of what was written, or an error where there are
/// none, with the text that belongs to what was written. It succeeds only on what opens as a
/// deflate stream does.
#[verifier::external_body]
pub(crate) fn deflate_decoder_finish(d: DeflateDecompressor) -> (r: Result<Vec<u8>, std::io::Error>)
    ensures
        r matches Ok(v) ==> deflate_plain(deflate_decoder_fed(d)) == Some(v@),
        r is Err ==> deflate_plain(deflate_decoder_fed(d)) is None,
        r is Ok ==> deflate_opening(deflate_decoder_fed(d)),
        r matches Err(e) ==> forall|words: String| #[trigger]
            crate::error::is_error_text(&e, words) ==> words@ == deflate_finish_failure(
                deflate_decoder_fed(d),
            ),
{
    d.inner.finish()
}

} // verus!
