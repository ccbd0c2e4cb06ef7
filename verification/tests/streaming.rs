use bunko::{
    compress, compress_stream, compress_with_buffer, decompress, decompress_stream, rechunk,
    CompressionFormat, CompressionLevel,
};

const FORMATS: [CompressionFormat; 3] =
    [CompressionFormat::Gzip, CompressionFormat::Deflate, CompressionFormat::Zlib];
const LEVELS: [CompressionLevel; 3] =
    [CompressionLevel::Fastest, CompressionLevel::Default, CompressionLevel::Best];
const PAIRS: [(CompressionFormat, CompressionLevel); 3] = [
    (CompressionFormat::Gzip, CompressionLevel::Fastest),
    (CompressionFormat::Zlib, CompressionLevel::Default),
    (CompressionFormat::Deflate, CompressionLevel::Best),
];

fn noise(len: usize, seed: u32, span: u32) -> Vec<u8> {
    let mut state = seed;
    let mut bytes = Vec::with_capacity(len);
    for _ in 0..len {
        state = state.wrapping_mul(1664525).wrapping_add(1013904223);
        bytes.push(((state >> 16) % span) as u8);
    }
    bytes
}

#[test]
fn rechunk_cuts_even_pieces() {
    let input = [1u8, 2, 3, 4, 5, 6];
    let pieces = rechunk(&input, 2);
    assert_eq!(pieces, vec![&[1u8, 2][..], &[3, 4][..], &[5, 6][..]]);
    let pieces = rechunk(&input, 3);
    assert_eq!(pieces, vec![&[1u8, 2, 3][..], &[4, 5, 6][..]]);
}

#[test]
fn rechunk_leaves_a_short_last_piece() {
    let input = [1u8, 2, 3, 4, 5, 6, 7];
    let pieces = rechunk(&input, 3);
    assert_eq!(pieces, vec![&[1u8, 2, 3][..], &[4, 5, 6][..], &[7][..]]);
    let pieces = rechunk(&input, 6);
    assert_eq!(pieces, vec![&[1u8, 2, 3, 4, 5, 6][..], &[7][..]]);
    let pieces = rechunk(&input, 1);
    assert_eq!(pieces.len(), 7);
    assert_eq!(pieces[6], &[7u8][..]);
}

#[test]
fn rechunk_with_a_wide_buffer_is_one_piece() {
    let input = [1u8, 2, 3];
    assert_eq!(rechunk(&input, 3), vec![&input[..]]);
    assert_eq!(rechunk(&input, 4), vec![&input[..]]);
    assert_eq!(rechunk(&input, usize::MAX), vec![&input[..]]);
}

#[test]
fn rechunk_with_size_zero_is_one_piece() {
    let input = [1u8, 2, 3];
    assert_eq!(rechunk(&input, 0), vec![&input[..]]);
}

#[test]
fn rechunk_of_nothing_is_nothing() {
    assert!(rechunk(&[], 0).is_empty());
    assert!(rechunk(&[], 1).is_empty());
    assert!(rechunk(&[], 4096).is_empty());
}

#[test]
fn rechunk_matches_the_standard_chunking() {
    let input = noise(1000, 11, 256);
    for size in [1usize, 2, 7, 64, 333, 999, 1000, 1001] {
        let expected: Vec<&[u8]> = input.chunks(size).collect();
        assert_eq!(rechunk(&input, size), expected);
    }
}

#[test]
fn stream_equals_one_shot_on_small_input() {
    let input = b"This is a test string for compression!";
    let chunkings: [Vec<&[u8]>; 5] = [
        vec![&input[..]],
        vec![&input[..10], &input[10..]],
        vec![&input[..1], &input[1..2], &input[2..30], &input[30..]],
        vec![&[][..], &input[..20], &[][..], &input[20..], &[][..]],
        input.chunks(1).collect(),
    ];
    for format in FORMATS {
        for level in LEVELS {
            let whole = compress(input, format, level).unwrap();
            for chunks in chunkings.iter() {
                assert_eq!(compress_stream(chunks, format, level).unwrap(), whole);
            }
        }
    }
}

#[test]
fn stream_of_no_chunks_is_the_empty_stream() {
    for format in FORMATS {
        for level in LEVELS {
            let whole = compress(&[], format, level).unwrap();
            assert_eq!(compress_stream(&[], format, level).unwrap(), whole);
            assert_eq!(compress_stream(&[&[][..], &[][..]], format, level).unwrap(), whole);
        }
    }
}

#[test]
fn stream_with_one_solid_chunk_is_the_one_shot_stream() {
    let input = noise(150000, 4, 3);
    let chunks: [&[u8]; 3] = [&[], &input, &[]];
    for (format, level) in PAIRS {
        let whole = compress(&input, format, level).unwrap();
        assert_eq!(compress_stream(&chunks, format, level).unwrap(), whole);
    }
}

#[test]
fn stream_decodes_to_the_concatenation() {
    let input = noise(150000, 4, 3);
    for size in [255usize, 100000] {
        let chunks: Vec<&[u8]> = input.chunks(size).collect();
        for (format, level) in PAIRS {
            let streamed = compress_stream(&chunks, format, level).unwrap();
            assert_eq!(decompress(&streamed, format).unwrap(), input);
        }
    }
}

#[test]
fn decompress_stream_ignores_the_cuts() {
    let input = noise(20000, 6, 5);
    for format in FORMATS {
        let packed = compress(&input, format, CompressionLevel::Default).unwrap();
        for size in [1usize, 2, 5, 100, 4096, packed.len()] {
            let pieces: Vec<&[u8]> = packed.chunks(size).collect();
            assert_eq!(decompress_stream(&pieces, format).unwrap(), input);
        }
    }
}

fn as_stream_message(message: &str) -> String {
    if let Some(words) = message.strip_prefix("Decompression error: ") {
        format!("Stream decompression error: {}", words)
    } else if let Some(words) = message.strip_prefix("Failed to finish decompression: ") {
        format!("Failed to finish streaming decompression: {}", words)
    } else {
        panic!("unexpected message: {}", message)
    }
}

#[test]
fn decompress_stream_agrees_with_decompress_on_damage() {
    let input = noise(300, 8, 7);
    for format in FORMATS {
        let packed = compress(&input, format, CompressionLevel::Default).unwrap();
        let mut damaged: Vec<Vec<u8>> = Vec::new();
        for cut in 0..packed.len() {
            damaged.push(packed[..cut].to_vec());
        }
        for at in 0..packed.len() {
            let mut flipped = packed.clone();
            flipped[at] ^= 0x10;
            damaged.push(flipped);
        }
        for stream in damaged {
            let whole = decompress(&stream, format);
            for size in [1usize, 3, 16] {
                let pieces: Vec<&[u8]> = stream.chunks(size).collect();
                let in_pieces = decompress_stream(&pieces, format);
                match (&whole, &in_pieces) {
                    (Ok(a), Ok(b)) => assert_eq!(a, b),
                    (Err(a), Err(b)) => assert_eq!(as_stream_message(a), *b),
                    _ => panic!("{:?} against {:?}", whole, in_pieces),
                }
            }
        }
    }
}

#[test]
fn stream_failures_name_the_step() {
    let chunks: [&[u8]; 2] = [b"not gzip", b" at all"];
    assert_eq!(
        decompress_stream(&chunks, CompressionFormat::Gzip).unwrap_err(),
        "Stream decompression error: invalid gzip header"
    );
    let packed =
        compress(b"hello hello", CompressionFormat::Gzip, CompressionLevel::Default).unwrap();
    let cut: [&[u8]; 2] = [&packed[..4], &packed[4..packed.len() - 2]];
    assert_eq!(
        decompress_stream(&cut, CompressionFormat::Gzip).unwrap_err(),
        "Failed to finish streaming decompression: \
         corrupt gzip stream does not have a matching checksum"
    );
    let extra: [&[u8]; 2] = [&packed, &[0]];
    assert_eq!(
        decompress_stream(&extra, CompressionFormat::Gzip).unwrap_err(),
        "Stream decompression error: failed to write whole buffer"
    );
}

#[test]
fn buffered_equals_one_shot_on_small_input() {
    let input = b"This is a test string for compression!";
    for format in FORMATS {
        for level in LEVELS {
            let whole = compress(input, format, level).unwrap();
            for size in [1usize, 2, 5, 16, 37, 38, 39, 4096] {
                assert_eq!(compress_with_buffer(input, format, level, size).unwrap(), whole);
            }
        }
    }
}

#[test]
fn buffered_with_size_zero_or_a_wide_buffer_is_the_one_shot_stream() {
    let inputs = [Vec::new(), noise(1000, 2, 256), noise(9000, 4, 3)];
    for input in inputs.iter() {
        for format in FORMATS {
            for level in LEVELS {
                let whole = compress(input, format, level).unwrap();
                for size in [0usize, input.len(), input.len() + 1, usize::MAX] {
                    assert_eq!(compress_with_buffer(input, format, level, size).unwrap(), whole);
                }
            }
        }
    }
    let large = noise(150000, 4, 3);
    let whole = compress(&large, CompressionFormat::Gzip, CompressionLevel::Fastest).unwrap();
    for size in [0usize, large.len()] {
        let buffered =
            compress_with_buffer(&large, CompressionFormat::Gzip, CompressionLevel::Fastest, size)
                .unwrap();
        assert_eq!(buffered, whole);
    }
}

#[test]
fn buffered_decodes_to_the_input() {
    let input = noise(150000, 4, 3);
    for (format, level) in PAIRS {
        for size in [255usize, 100000] {
            let packed = compress_with_buffer(&input, format, level, size).unwrap();
            assert_eq!(decompress(&packed, format).unwrap(), input);
        }
    }
}

#[test]
fn buffered_is_the_stream_of_its_pieces() {
    let input = noise(150000, 4, 3);
    for (format, level) in PAIRS {
        let pieces = rechunk(&input, 100000);
        assert_eq!(
            compress_with_buffer(&input, format, level, 100000).unwrap(),
            compress_stream(&pieces, format, level).unwrap()
        );
    }
}

#[test]
fn a_large_input_in_pieces_gives_the_same_bytes() {
    let input = noise(150000, 4, 3);
    let chunks: [&[u8]; 2] = [&input[..100000], &input[100000..]];
    let settings = [
        (CompressionFormat::Gzip, CompressionLevel::Fastest),
        (CompressionFormat::Zlib, CompressionLevel::Fastest),
        (CompressionFormat::Deflate, CompressionLevel::Fastest),
        (CompressionFormat::Gzip, CompressionLevel::Default),
        (CompressionFormat::Zlib, CompressionLevel::Best),
    ];
    for (format, level) in settings {
        let whole = compress(&input, format, level).unwrap();
        assert_eq!(compress_with_buffer(&input, format, level, 100000).unwrap(), whole);
        assert_eq!(compress_stream(&chunks, format, level).unwrap(), whole);
        assert_eq!(decompress(&whole, format).unwrap(), input);
    }
}

#[test]
fn cuts_around_the_block_size_leave_no_trace() {
    let input = noise(100000, 9, 5);
    let format = CompressionFormat::Gzip;
    let level = CompressionLevel::Fastest;
    let whole = compress(&input, format, level).unwrap();
    for size in [1usize, 7, 4096, 32767, 32768, 32769, 65535, 65536, 65537, 99999] {
        let chunks: Vec<&[u8]> = input.chunks(size).collect();
        assert_eq!(compress_stream(&chunks, format, level).unwrap(), whole);
        assert_eq!(compress_with_buffer(&input, format, level, size).unwrap(), whole);
    }
    let uneven: [&[u8]; 7] = [
        &input[..1],
        &input[1..32768],
        &[],
        &input[32768..32769],
        &input[32769..70000],
        &input[70000..98304],
        &input[98304..],
    ];
    assert_eq!(compress_stream(&uneven, format, level).unwrap(), whole);
}

#[test]
fn inputs_of_whole_blocks_leave_no_trace() {
    for len in [32768usize, 65536, 98304] {
        let input = noise(len, 3, 4);
        for (format, level) in PAIRS {
            let whole = compress(&input, format, level).unwrap();
            for size in [1000usize, 32768, 40000] {
                let chunks: Vec<&[u8]> = input.chunks(size).collect();
                assert_eq!(compress_stream(&chunks, format, level).unwrap(), whole);
            }
            assert_eq!(decompress(&whole, format).unwrap(), input);
        }
    }
}
