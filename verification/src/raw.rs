//! Raw deflate over a whole buffer, as flate2's pull-style `read::DeflateDecoder` reads it.
//!
//! Nothing here is proved. Each contract says what the engine is taken to do when all of it is
//! read out at once. The streams are those of the push-style pair in `deflate`: what that
//! encoder writes, either decoder reads, and neither takes a piece of it that breaks off
//! early. The decoders differ on streams that no encoder writes: this one passes over bytes
//! that follow a stream, the other one fails on them.

use vstd::prelude::*;

verus! {

#[verifier::external_type_specification]
#[verifier::external_body]
#[verifier::reject_recursive_types(R)]
pub struct ExReadDeflateDecoder<R>(flate2::read::DeflateDecoder<R>);

/// The bytes the decoder was made to decompress.
pub uninterp spec fn raw_decoder_source(d: flate2::read::DeflateDecoder<&[u8]>) -> Seq<u8>;

/// What reading a new `read::DeflateDecoder` over `stream` to its end gives: the decoded bytes,
/// or `None` where the read fails.
pub uninterp spec fn raw_plain(stream: Seq<u8>) -> Option<Seq<u8>>;

/// The text of the error with which reading a new `read::DeflateDecoder` over `stream` to its
/// end fails, where it fails.
pub uninterp spec fn raw_failure(stream: Seq<u8>) -> Seq<char>;

/// `read::DeflateDecoder::new`: a decoder that will decompress `input`.
#[verifier::external_body]
pub(crate) fn raw_decoder_new<'a>(input: &'a [u8]) -> (d: flate2::read::DeflateDecoder<&'a [u8]>)
    ensures
        raw_decoder_source(d) == input@,
{
    flate2::read::DeflateDecoder::new(input)
}

/// `Read::read_to_end` on a new decoder: where it succeeds, it appends to `out` the decoded
/// bytes of the decoder's input and returns how many they are; it fails where there are none.
/// It succeeds only on input that holds bytes and opens as a deflate stream does, and it fails
/// with the text that belongs to the input.
#[verifier::external_body]
pub(crate) fn raw_decoder_read_to_end(
    d: flate2::read::DeflateDecoder<&[u8]>,
    out: &mut Vec<u8>,
) -> (r: Result<usize, std::io::Error>)
    ensures
        r matches Ok(n) ==> final(out)@.len() == old(out)@.len() + n && final(out)@.take(
            old(out)@.len() as int,
        ) == old(out)@,
        r is Ok ==> raw_plain(raw_decoder_source(d)) == Some(
            final(out)@.skip(old(out)@.len() as int),
        ),
        r is Err ==> raw_plain(raw_decoder_source(d)) is None,
        r is Ok ==> raw_decoder_source(d).len() > 0 && crate::deflate::deflate_opening(
            raw_decoder_source(d),
        ),
        r matches Err(e) ==> forall|words: String| #[trigger]
            crate::error::is_error_text(&e, words) ==> words@ == raw_failure(
                raw_decoder_source(d),
            ),
{
    let mut d = d;
    std::io::Read::read_to_end(&mut d, out)
}

} // verus!
