//! The two selectors every operation takes: the framing and the effort.

use vstd::prelude::*;

verus! {

/// Supported compression formats.
///
/// The tag picks both the framing and the engine that produces it. A stream says nothing about
/// its own format: the tag used to compress must be given again to decompress.
#[derive(Clone, Copy, Debug, PartialEq, Eq)]
pub enum CompressionFormat {
    /// Deflate data behind a header, followed by a CRC-32 and the length of the input.
    Gzip,
    /// The bare deflate bit stream, without any framing.
    Deflate,
    /// Deflate data behind a two-byte header, followed by an Adler-32 checksum.
    Zlib,
}

/// Supported compression levels.
#[derive(Clone, Copy, Debug, PartialEq, Eq)]
pub enum CompressionLevel {
    /// The engine's preset for the best speed.
    Fastest,
    /// The engine's default preset.
    Default,
    /// The engine's preset for the smallest output.
    Best,
}

#[verifier::external_type_specification]
#[verifier::external_body]
pub struct ExCompression(flate2::Compression);

/// The number that `flate2::Compression::level` reports for a compression setting.
pub uninterp spec fn compression_level(c: flate2::Compression) -> u32;

/// `flate2::Compression::fast`: the setting whose level is 1.
pub assume_specification[ flate2::Compression::fast ]() -> (c: flate2::Compression)
    ensures
        compression_level(c) == 1,
;

/// `flate2::Compression::best`: the setting whose level is 9.
pub assume_specification[ flate2::Compression::best ]() -> (c: flate2::Compression)
    ensures
        compression_level(c) == 9,
;

/// `flate2::Compression::level`: the number behind a setting.
pub assume_specification[ flate2::Compression::level ](c: &flate2::Compression) -> (n: u32)
    ensures
        n == compression_level(*c),
;

/// `Default::default` of `flate2::Compression`: the setting whose level is 6.
#[verifier::external_body]
fn default_compression() -> (c: flate2::Compression)
    ensures
        compression_level(c) == 6,
{
    flate2::Compression::default()
}

impl CompressionLevel {
    /// The engine's own number for each level: those of its fast, default and best presets.
    pub open spec fn engine_level(self) -> u32 {
        match self {
            CompressionLevel::Fastest => 1,
            CompressionLevel::Default => 6,
            CompressionLevel::Best => 9,
        }
    }

    /// Maps the level to the engine's preset of the same meaning.
    pub fn to_flate2_compression(&self) -> (c: flate2::Compression)
        ensures
            compression_level(c) == self.engine_level(),
    {
        match self {
            CompressionLevel::Fastest => flate2::Compression::fast(),
            CompressionLevel::Default => default_compression(),
            CompressionLevel::Best => flate2::Compression::best(),
        }
    }

    /// The number the engine works with at this level.
    pub fn engine_number(&self) -> (n: u32)
        ensures
            n == self.engine_level(),
    {
        self.to_flate2_compression().level()
    }
}

} // verus!
