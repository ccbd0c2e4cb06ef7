use bunko::{
    compress, compress_raw, decompress, decompress_raw, decompress_stream, CompressionFormat,
    CompressionLevel, Decoder,
};

const FORMATS: [CompressionFormat; 3] =
    [CompressionFormat::Gzip, CompressionFormat::Deflate, CompressionFormat::Zlib];
const LEVELS: [CompressionLevel; 3] =
    [CompressionLevel::Fastest, CompressionLevel::Default, CompressionLevel::Best];

fn noise(len: usize, seed: u32, span: u32) -> Vec<u8> {
    let mut state = seed;
    let mut bytes = Vec::with_capacity(len);
    for _ in 0..len {
        state = state.wrapping_mul(1664525).wrapping_add(1013904223);
        bytes.push(((state >> 16) % span) as u8);
    }
    bytes
}

fn samples() -> Vec<Vec<u8>> {
    vec![Vec::new(), b"a".to_vec(), b"hello hello hello".to_vec(), noise(3000, 1, 7)]
}

#[test]
fn every_stream_that_breaks_off_is_refused() {
    for input in samples() {
        for format in FORMATS {
            for level in LEVELS {
                let packed = compress(&input, format, level).unwrap();
                for cut in 0..packed.len() {
                    assert!(decompress(&packed[..cut], format).is_err());
                }
                assert_eq!(decompress(&packed, format).unwrap(), input);
            }
        }
    }
}

#[test]
fn a_long_stream_that_breaks_off_is_refused() {
    let input = noise(70000, 3, 2);
    for format in FORMATS {
        let packed = compress(&input, format, CompressionLevel::Fastest).unwrap();
        for back in [1usize, 2, 3, 4, 5, 8, 9, 100, 5000] {
            let cut = packed.len() - back;
            assert!(decompress(&packed[..cut], format).is_err());
            let pieces: Vec<&[u8]> = packed[..cut].chunks(333).collect();
            assert!(decompress_stream(&pieces, format).is_err());
        }
    }
}

#[test]
fn every_stream_in_pieces_that_breaks_off_is_refused() {
    let input = b"hello hello hello";
    for format in FORMATS {
        let packed = compress(input, format, CompressionLevel::Default).unwrap();
        for cut in 0..packed.len() {
            for size in [1usize, 4] {
                let pieces: Vec<&[u8]> = packed[..cut].chunks(size).collect();
                assert!(decompress_stream(&pieces, format).is_err());
            }
        }
    }
}

#[test]
fn every_raw_stream_that_breaks_off_is_refused() {
    for input in samples() {
        for level in LEVELS {
            let packed = compress_raw(&input, level).unwrap();
            for cut in 0..packed.len() {
                assert!(decompress_raw(&packed[..cut]).is_err());
            }
            assert_eq!(decompress_raw(&packed).unwrap(), input);
        }
    }
}

#[test]
fn a_stream_that_breaks_off_is_named_as_such() {
    let packed = compress(b"hello hello hello", CompressionFormat::Zlib, CompressionLevel::Default)
        .unwrap();
    assert_eq!(
        decompress(&packed[..packed.len() - 1], CompressionFormat::Zlib).unwrap_err(),
        "Failed to finish decompression: incomplete deflate stream"
    );
    let packed =
        compress(b"hello hello hello", CompressionFormat::Deflate, CompressionLevel::Default)
            .unwrap();
    let pieces: [&[u8]; 2] = [&packed[..3], &packed[3..6]];
    assert_eq!(
        decompress_stream(&pieces, CompressionFormat::Deflate).unwrap_err(),
        "Failed to finish streaming decompression: incomplete deflate stream"
    );
    assert_eq!(
        decompress(&[], CompressionFormat::Deflate).unwrap_err(),
        "Failed to finish decompression: incomplete deflate stream"
    );
    assert_eq!(
        decompress(&[], CompressionFormat::Zlib).unwrap_err(),
        "Failed to finish decompression: incomplete deflate stream"
    );
}

#[test]
fn a_decoder_tells_whether_its_stream_has_ended() {
    for format in [CompressionFormat::Deflate, CompressionFormat::Zlib] {
        let packed = compress(b"hello hello hello", format, CompressionLevel::Best).unwrap();
        for cut in 0..=packed.len() {
            let mut decoder = Decoder::new(format);
            decoder.write_all(&packed[..cut]).unwrap();
            let ended = decoder.at_end();
            assert_eq!(ended, cut == packed.len());
            if ended {
                assert_eq!(decoder.finish().unwrap(), b"hello hello hello");
            }
        }
    }
    let mut decoder = Decoder::new(CompressionFormat::Gzip);
    assert!(decoder.at_end());
    assert!(decoder.finish().is_err());
}
