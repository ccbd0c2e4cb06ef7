use bunko::{
    compress, compress_stream, compress_with_buffer, decompress, decompress_stream,
    CompressionFormat, CompressionLevel,
};

const LEVELS: [CompressionLevel; 3] =
    [CompressionLevel::Fastest, CompressionLevel::Default, CompressionLevel::Best];

fn noise(len: usize, seed: u32, span: u32) -> Vec<u8> {
    let mut state = seed;
    let mut bytes = Vec::with_capacity(len);
    for _ in 0..len {
        state = state.wrapping_mul(1664525).wrapping_add(1013904223);
        bytes.push(((state >> 16) % span) as u8);
    }
    bytes
}

fn samples() -> Vec<Vec<u8>> {
    let mut all = vec![Vec::new(), vec![0u8], vec![0xffu8; 3], b"hello hello hello".to_vec()];
    for seed in 0..40u32 {
        all.push(noise(1 + (seed as usize) * 37, seed, 1 + seed * 6));
    }
    all.push(noise(70000, 77, 256));
    all.push(noise(70000, 78, 2));
    all
}

fn is_gzip_opening(stream: &[u8]) -> bool {
    stream.len() >= 2 && stream[0] == 0x1f && stream[1] == 0x8b
}

fn is_zlib_opening(stream: &[u8]) -> bool {
    stream.len() < 2 || (stream[0] as u32 * 256 + stream[1] as u32) % 31 == 0
}

fn is_deflate_opening(stream: &[u8]) -> bool {
    stream.is_empty() || (stream[0] / 2) % 4 != 3
}

#[test]
fn gzip_streams_open_with_the_magic_bytes() {
    for input in samples() {
        for level in LEVELS {
            let packed = compress(&input, CompressionFormat::Gzip, level).unwrap();
            assert!(packed.len() >= 18);
            assert!(is_gzip_opening(&packed));
            assert!(!is_zlib_opening(&packed));
            assert!(!is_deflate_opening(&packed));
            let pieces: Vec<&[u8]> = input.chunks(11).collect();
            let packed = compress_stream(&pieces, CompressionFormat::Gzip, level).unwrap();
            assert!(is_gzip_opening(&packed));
        }
    }
}

#[test]
fn zlib_streams_open_with_a_multiple_of_31() {
    for input in samples() {
        for level in LEVELS {
            let packed = compress(&input, CompressionFormat::Zlib, level).unwrap();
            assert!(packed.len() >= 6 && is_zlib_opening(&packed));
            assert!(!is_gzip_opening(&packed));
            let packed =
                compress_with_buffer(&input, CompressionFormat::Zlib, level, 13).unwrap();
            assert!(packed.len() >= 2 && is_zlib_opening(&packed));
        }
    }
}

#[test]
fn deflate_streams_open_with_a_known_block_type() {
    for input in samples() {
        for level in LEVELS {
            let packed = compress(&input, CompressionFormat::Deflate, level).unwrap();
            assert!(!packed.is_empty() && is_deflate_opening(&packed));
            assert!(!is_gzip_opening(&packed));
            let pieces: Vec<&[u8]> = input.chunks(5).collect();
            let packed = compress_stream(&pieces, CompressionFormat::Deflate, level).unwrap();
            assert!(!packed.is_empty() && is_deflate_opening(&packed));
        }
    }
}

#[test]
fn the_zlib_decoder_takes_no_other_header() {
    let tail = [3u8, 0, 0, 0, 0, 1];
    for first in 0..=255u8 {
        for second in 0..=255u8 {
            let bare = [first, second];
            if decompress(&bare, CompressionFormat::Zlib).is_ok() {
                assert!(is_zlib_opening(&bare));
            }
            let full = [first, second, tail[0], tail[1], tail[2], tail[3], tail[4], tail[5]];
            if decompress(&full, CompressionFormat::Zlib).is_ok() {
                assert!(is_zlib_opening(&full));
            }
        }
    }
    assert!(decompress(&[0x78, 0x9c, 3, 0, 0, 0, 0, 1], CompressionFormat::Zlib).is_ok());
    assert!(decompress(&[0x78, 0x9d, 3, 0, 0, 0, 0, 1], CompressionFormat::Zlib).is_err());
    assert!(decompress(&[0x1f, 0x8b], CompressionFormat::Zlib).is_err());
}

#[test]
fn the_zlib_decoder_takes_no_other_header_in_pieces() {
    for first in 0..=255u8 {
        for second in 0..=255u8 {
            let pieces: [&[u8]; 3] = [&[first], &[second], &[3, 0, 0, 0, 0, 1]];
            if decompress_stream(&pieces, CompressionFormat::Zlib).is_ok() {
                assert!(is_zlib_opening(&[first, second]));
            }
        }
    }
}

#[test]
fn the_deflate_decoder_takes_no_reserved_block_type() {
    let tails: [&[u8]; 6] =
        [&[], &[0], &[0, 0, 0xff, 0xff], &[5, 0, 0xfa, 0xff, 1, 2, 3, 4, 5], &[0xff; 9], &[0; 40]];
    for first in 0..=255u8 {
        for tail in tails {
            let mut stream = vec![first];
            stream.extend_from_slice(tail);
            if decompress(&stream, CompressionFormat::Deflate).is_ok() {
                assert!(is_deflate_opening(&stream));
            }
            let pieces: [&[u8]; 2] = [&[first], tail];
            if decompress_stream(&pieces, CompressionFormat::Deflate).is_ok() {
                assert!(is_deflate_opening(&stream));
            }
        }
    }
    assert!(decompress(&[3, 0], CompressionFormat::Deflate).is_ok());
    assert!(decompress(&[0x1f], CompressionFormat::Deflate).is_err());
    assert!(decompress(&[7, 0], CompressionFormat::Deflate).is_err());
}

#[test]
fn the_gzip_decoder_takes_only_the_magic_bytes() {
    let packed = compress(b"hello", CompressionFormat::Gzip, CompressionLevel::Default).unwrap();
    for first in 0..=255u8 {
        for second in 0..=255u8 {
            let mut stream = packed.clone();
            stream[0] = first;
            stream[1] = second;
            let taken = decompress(&stream, CompressionFormat::Gzip).is_ok();
            assert_eq!(taken, first == 0x1f && second == 0x8b);
        }
    }
    assert!(decompress(&[], CompressionFormat::Gzip).is_err());
    assert!(decompress(&[0x1f], CompressionFormat::Gzip).is_err());
    assert!(decompress(&[0x1f, 0x8b], CompressionFormat::Gzip).is_err());
}

#[test]
fn gzip_streams_carry_the_mark_of_their_level() {
    for input in samples() {
        let pieces: Vec<&[u8]> = input.chunks(9).collect();
        for (level, mark) in [
            (CompressionLevel::Fastest, 4u8),
            (CompressionLevel::Default, 0),
            (CompressionLevel::Best, 2),
        ] {
            let format = CompressionFormat::Gzip;
            assert_eq!(compress(&input, format, level).unwrap()[8], mark);
            assert_eq!(compress_stream(&pieces, format, level).unwrap()[8], mark);
            assert_eq!(compress_with_buffer(&input, format, level, 9).unwrap()[8], mark);
        }
    }
    let text = bunko::compress_string("hello", CompressionLevel::Best).unwrap();
    assert_eq!(text[8], 2);
}

#[test]
fn zlib_streams_carry_the_mark_of_their_level() {
    for input in samples() {
        let pieces: Vec<&[u8]> = input.chunks(9).collect();
        for (level, mark) in [
            (CompressionLevel::Fastest, 0u8),
            (CompressionLevel::Default, 2),
            (CompressionLevel::Best, 3),
        ] {
            let format = CompressionFormat::Zlib;
            assert_eq!(compress(&input, format, level).unwrap()[1] / 64, mark);
            assert_eq!(compress_stream(&pieces, format, level).unwrap()[1] / 64, mark);
            assert_eq!(compress_with_buffer(&input, format, level, 9).unwrap()[1] / 64, mark);
        }
    }
}

#[test]
fn raw_streams_open_as_deflate_streams_do() {
    for input in samples() {
        for level in LEVELS {
            let packed = bunko::compress_raw(&input, level).unwrap();
            assert!(!packed.is_empty() && is_deflate_opening(&packed));
            assert_eq!(decompress(&packed, CompressionFormat::Deflate).unwrap(), input);
            let pushed = compress(&input, CompressionFormat::Deflate, level).unwrap();
            assert_eq!(bunko::decompress_raw(&pushed).unwrap(), input);
        }
    }
}

#[test]
fn the_raw_decoder_takes_no_reserved_block_type() {
    let tails: [&[u8]; 6] =
        [&[], &[0], &[0, 0, 0xff, 0xff], &[5, 0, 0xfa, 0xff, 1, 2, 3, 4, 5], &[0xff; 9], &[0; 40]];
    for first in 0..=255u8 {
        for tail in tails {
            let mut stream = vec![first];
            stream.extend_from_slice(tail);
            if bunko::decompress_raw(&stream).is_ok() {
                assert!((first / 2) % 4 != 3);
            }
        }
    }
    assert!(matches!(
        bunko::decompress_raw(&[0x07]),
        Err(bunko::BunkoError::DecompressionError(_))
    ));
    assert!(matches!(bunko::decompress_raw(&[]), Err(bunko::BunkoError::DecompressionError(_))));
    assert_eq!(bunko::decompress_raw(&[3, 0]).unwrap(), Vec::<u8>::new());
}

#[test]
fn empty_input_gives_the_bare_framing() {
    for level in LEVELS {
        assert_eq!(compress(&[], CompressionFormat::Gzip, level).unwrap().len(), 20);
        assert_eq!(compress(&[], CompressionFormat::Zlib, level).unwrap().len(), 8);
        assert_eq!(compress(&[], CompressionFormat::Deflate, level).unwrap().len(), 2);
        assert_eq!(bunko::compress_raw(&[], level).unwrap().len(), 2);
    }
}
