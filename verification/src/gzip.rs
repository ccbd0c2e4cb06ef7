//! Gzip, as flate2's push-style `write::GzEncoder` and `write::GzDecoder` do it.
//!
//! Nothing here is proved. Each contract says what the engine is taken to do. An encoder
//! writes into memory, where nothing can fail. What it puts out is taken to depend on the
//! chunks written to it, one `write_all` each, and on its level, and on nothing else; it can
//! depend on where the chunks end. What a decoder makes of a stream, and the words with which
//! it turns one down, are taken to depend on the bytes of the stream alone.

use vstd::prelude::*;

verus! {

/// A `flate2::write::GzEncoder` that collects its output in a `Vec<u8>`.
#[verifier::external_body]
pub struct GzipCompressor {
    inner: flate2::write::GzEncoder<Vec<u8>>,
}

/// A `flate2::write::GzDecoder` that collects its output in a `Vec<u8>`.
#[verifier::external_body]
pub struct GzipDecompressor {
    inner: flate2::write::GzDecoder<Vec<u8>>,
}

/// The chunks written to the encoder so far, in order. Empty chunks do not count: to write
/// one is to write nothing.
pub uninterp spec fn gzip_encoder_writes(e: GzipCompressor) -> Seq<Seq<u8>>;

/// The level of the setting the encoder was made with.
pub uninterp spec fn gzip_encoder_level(e: GzipCompressor) -> u32;

/// The gzip stream that `GzEncoder::finish` hands out after the chunks `writes` were
/// written, one `write_all` each, to an encoder made at `level`.
pub uninterp spec fn gzip_stream(writes: Seq<Seq<u8>>, level: u32) -> Seq<u8>;

/// The bytes written to the decoder so far, in order.
pub uninterp spec fn gzip_decoder_fed(d: GzipDecompressor) -> Seq<u8>;

/// What `GzDecoder::finish` hands out after `stream` was written to a new decoder: the
/// decoded bytes, or `None` where a write or the finish fails.
pub uninterp spec fn gzip_plain(stream: Seq<u8>) -> Option<Seq<u8>>;

/// `stream` begins with the two bytes that open every gzip stream, 0x1f and 0x8b.
pub open spec fn gzip_opening(stream: Seq<u8>) -> bool {
    stream.len() >= 2 && stream[0] == 0x1f && stream[1] == 0x8b
}

/// The mark that a gzip stream carries in its ninth byte for the level it was made at: 2 from
/// level 9 on, 4 up to level 1, and 0 between.
pub open spec fn gzip_level_mark(level: u32) -> u8 {
    if level >= 9 {
        2
    } else if level <= 1 {
        4
    } else {
        0
    }
}

/// How `Write::write_all` fails when `stream` is written to a new decoder: the text of its
/// error, or `None` where it succeeds.
pub uninterp spec fn gzip_write_failure(stream: Seq<u8>) -> Option<Seq<char>>;

/// The text of the error with which `GzDecoder::finish` fails after `stream` was written to a
/// new decoder, where it fails.
pub uninterp spec fn gzip_finish_failure(stream: Seq<u8>) -> Seq<char>;

/// The decoder fails on every stream that begins with `prefix`.
pub open spec fn gzip_refuses(prefix: Seq<u8>) -> bool {
    forall|rest: Seq<u8>| (#[trigger] gzip_plain(prefix + rest)) is None
}

/// `GzEncoder::new` on an empty `Vec`: nothing is written yet, and the level is that of
/// `setting`. The engine knows no level above 10.
#[verifier::external_body]
pub(crate) fn gzip_encoder_new(setting: flate2::Compression) -> (e: GzipCompressor)
    requires
        crate::format::compression_level(setting) <= 10,
    ensures
        gzip_encoder_writes(e) == Seq::<Seq<u8>>::empty(),
        gzip_encoder_level(e) == crate::format::compression_level(setting),
{
    GzipCompressor { inner: flate2::write::GzEncoder::new(Vec::new(), setting) }
}

/// `Write::write_all` on the encoder: it succeeds, since writing into memory cannot fail. A
/// `chunk` that holds bytes is one more write, an empty one is none, and the level stays.
#[verifier::external_body]
pub(crate) fn gzip_encoder_write_all(e: &mut GzipCompressor, chunk: &[u8]) -> (r: Result<
    (),
    std::io::Error,
>)
    ensures
        r is Ok,
        gzip_encoder_writes(*final(e)) == if chunk@.len() == 0 {
            gzip_encoder_writes(*old(e))
        } else {
            gzip_encoder_writes(*old(e)).push(chunk@)
        },
        gzip_encoder_level(*final(e)) == gzip_encoder_level(*old(e)),
{
    std::io::Write::write_all(&mut e.inner, chunk)
}

/// `GzEncoder::finish`: it succeeds, since writing into memory cannot fail. The output is the
/// gzip stream of the chunks written, at the encoder's level.
/// It holds at least the 18 bytes of header and trailer, opens as a gzip
/// stream does and carries the mark of the level.
/// The gzip decoder turns it back into the bytes of the chunks. The stream ends where the
/// output ends: the decoder fails on every piece of it that breaks off early.
#[verifier::external_body]
pub(crate) fn gzip_encoder_finish(e: GzipCompressor) -> (r: Result<Vec<u8>, std::io::Error>)
    ensures
        r is Ok,
        r matches Ok(v) ==> v@ == gzip_stream(gzip_encoder_writes(e), gzip_encoder_level(e)),
        r matches Ok(v) ==> v@.len() >= 18 && gzip_opening(v@),
        r matches Ok(v) ==> v@[8] == gzip_level_mark(gzip_encoder_level(e)),
        r matches Ok(v) ==> gzip_plain(v@) == Some(gzip_encoder_writes(e).flatten()),
        r matches Ok(v) ==> forall|k: int|
            0 <= k < v@.len() ==> (#[trigger] gzip_plain(v@.take(k))) is None,
{
    e.inner.finish()
}

/// `GzDecoder::new` on an empty `Vec`: nothing is written yet, and to write nothing does not
/// fail.
#[verifier::external_body]
pub(crate) fn gzip_decoder_new() -> (d: GzipDecompressor)
    ensures
        gzip_decoder_fed(d) == Seq::<u8>::empty(),
        gzip_write_failure(gzip_decoder_fed(d)) is None,
{
    GzipDecompressor { inner: flate2::write::GzDecoder::new(Vec::new()) }
}

/// `Write::write_all` on the decoder: where it succeeds, `chunk` is appended to what was
/// written, and all of that is something that can be written without failure. It fails only on
/// bytes that begin no stream the decoder accepts, and the text of its error is the one with
/// which the write of any stream fails that begins with these bytes.
#[verifier::external_body]
pub(crate) fn gzip_decoder_write_all(d: &mut GzipDecompressor, chunk: &[u8]) -> (r: Result<
    (),
    std::io::Error,
>)
    ensures
        r is Ok ==> gzip_decoder_fed(*final(d)) == gzip_decoder_fed(*old(d)) + chunk@,
        r is Ok ==> gzip_write_failure(gzip_decoder_fed(*final(d))) is None,
        r is Err ==> gzip_refuses(gzip_decoder_fed(*old(d)) + chunk@),
        r matches Err(e) ==> forall|rest: Seq<u8>, words: String|
            #[trigger] crate::error::is_error_text(&e, words) ==> #[trigger] gzip_write_failure(
                gzip_decoder_fed(*old(d)) + chunk@ + rest,
            ) == Some(words@),
{
    std::io::Write::write_all(&mut d.inner, chunk)
}

/// `GzDecoder::finish`: the decoded bytes of what was written, or an error where there are
/// none, with the text that belongs to what was written. It succeeds only on what opens as a
/// gzip stream does.
#[verifier::external_body]
pub(crate) fn gzip_decoder_finish(d: GzipDecompressor) -> (r: Result<Vec<u8>, std::io::Error>)
    ensures
        r matches Ok(v) ==> gzip_plain(gzip_decoder_fed(d)) == Some(v@),
        r is Err ==> gzip_plain(gzip_decoder_fed(d)) is None,
        r is Ok ==> gzip_opening(gzip_decoder_fed(d)),
        r matches Err(e) ==> forall|words: String| #[trigger]
            crate::error::is_error_text(&e, words) ==> words@ == gzip_finish_failure(
                gzip_decoder_fed(d),
            ),
{
    d.inner.finish()
}

} // verus!
