use aviutl2::generic::{
    check_binary_param, check_string_param, chunk_key, collect_stored_chunks, decompress_stored,
    parse_usize, rmp_header, rmp_header_length, split_into_param_chunks, zstd_chunk_key,
    zstd_header_length, ChunkCollector, ProjectFileError, ProjectFileSerdeError,
};

#[test]
fn headers_and_keys() {
    assert_eq!(rmp_header(1234), "--aviutl2-rs:serde-rmp-v1:1234");
    assert_eq!(chunk_key("k", 3), "--aviutl2-rs:serde-chunk:k:3");
    assert_eq!(zstd_chunk_key("k", 0), "--aviutl2-rs:serde-zstd-v1:chunk:k:0");
    assert_eq!(rmp_header_length("--aviutl2-rs:serde-rmp-v1:1234").unwrap(), 1234);
    assert_eq!(rmp_header_length(&rmp_header(77)).unwrap(), 77);
    assert_eq!(zstd_header_length("--aviutl2-rs:serde-zstd-v1:+8").unwrap(), 8);
    assert!(matches!(
        zstd_header_length("--aviutl2-rs:serde-rmp-v1:8"),
        Err(ProjectFileSerdeError::UnsupportedFormat)
    ));
    match rmp_header_length("--aviutl2-rs:serde-rmp-v1:0") {
        Err(ProjectFileSerdeError::InvalidHeaderFormat(h)) => {
            assert_eq!(h, "--aviutl2-rs:serde-rmp-v1:0")
        }
        _ => panic!("expected an invalid header"),
    }
    assert!(matches!(
        rmp_header_length("--aviutl2-rs:serde-rmp-v1:x1"),
        Err(ProjectFileSerdeError::InvalidHeaderFormat(_))
    ));
}

#[test]
fn numbers_read_as_rust_reads_them() {
    let inputs = [
        "0",
        "7",
        "+7",
        "007",
        "18446744073709551615",
        "",
        "+",
        "-1",
        " 1",
        "1a",
        "18446744073709551616",
    ];
    for s in inputs {
        assert_eq!(parse_usize(s), s.parse::<usize>().ok(), "{s}");
    }
}

#[test]
fn chunks_of_data() {
    let data: Vec<u8> = (0..10000u32).map(|i| (i % 251) as u8).collect();
    let chunks = split_into_param_chunks(&data);
    assert_eq!(chunks.len(), 3);
    assert_eq!(chunks[0].len(), 4096);
    assert_eq!(chunks[1].len(), 4096);
    assert_eq!(chunks[2].len(), 10000 - 8192);
    assert_eq!(chunks.concat(), data);
    assert!(split_into_param_chunks(&[]).is_empty());
    assert_eq!(split_into_param_chunks(&[0u8; 4096]).len(), 1);
}

#[test]
fn stored_chunks_read_back() {
    let data: Vec<u8> = (0..9000u32).map(|i| (i % 7) as u8).collect();
    let chunks = split_into_param_chunks(&data);
    assert_eq!(collect_stored_chunks(&chunks, data.len()).unwrap(), data);
    assert!(matches!(
        collect_stored_chunks(&chunks[..2], data.len()),
        Err(ProjectFileSerdeError::IncompleteData)
    ));
    assert!(matches!(
        collect_stored_chunks(&chunks, data.len() + 1),
        Err(ProjectFileSerdeError::IncompleteData)
    ));
}

#[test]
fn collector_asks_in_order() {
    let mut c = ChunkCollector::new(5000);
    assert_eq!(c.next_request(), Some((0, 4096)));
    c.accept(&[1u8; 4096]);
    assert_eq!(c.next_request(), Some((1, 904)));
    c.stop();
    assert_eq!(c.next_request(), None);
    assert!(matches!(c.finish(), Err(ProjectFileSerdeError::IncompleteData)));

    let mut d = ChunkCollector::new(3);
    assert_eq!(d.next_request(), Some((0, 3)));
    d.accept(&[4, 5, 6]);
    assert_eq!(d.next_request(), None);
    assert_eq!(d.finish().unwrap(), vec![4, 5, 6]);
}

#[test]
fn param_checks() {
    assert_eq!(check_string_param("key", "value"), Ok(()));
    assert_eq!(
        check_string_param("k\0ey", "v\0"),
        Err(ProjectFileError::KeyContainsNull(1))
    );
    assert_eq!(
        check_string_param("key", "va\0"),
        Err(ProjectFileError::ValueContainsNull(2))
    );
    assert_eq!(check_binary_param("k", 4096), Ok(()));
    assert_eq!(
        check_binary_param("k\0", 4097),
        Err(ProjectFileError::DataTooLarge(4097))
    );
    assert_eq!(
        check_binary_param("ék\0", 1),
        Err(ProjectFileError::KeyContainsNull(3))
    );
    assert_eq!(
        ProjectFileError::DataTooLarge(5000).message(),
        "data length exceeds 4096 bytes, got 5000 bytes"
    );
    assert_eq!(
        ProjectFileError::KeyContainsNull(2).message(),
        "key contains null byte: nul byte found in provided data at position: 2"
    );
    assert_eq!(
        ProjectFileError::RetrievalFailed("abc".to_string()).message(),
        "data retrieval failed for key abc"
    );
}

#[test]
fn zstd_raw_block_decompresses() {
    // A frame with one raw block holding "hello".
    let frame = [
        0x28, 0xB5, 0x2F, 0xFD, 0x20, 0x05, 0x29, 0x00, 0x00, b'h', b'e', b'l', b'l', b'o',
    ];
    assert_eq!(decompress_stored(&frame).unwrap(), b"hello".to_vec());
    assert!(matches!(
        decompress_stored(b"not zstd"),
        Err(ProjectFileSerdeError::Decompression(_))
    ));
}

#[test]
fn written_headers_read_back() {
    for n in [1usize, 9, 10, 4096, 123456789, usize::MAX] {
        assert_eq!(rmp_header_length(&rmp_header(n)).unwrap(), n);
        let zstd = format!("--aviutl2-rs:serde-zstd-v1:{}", n);
        assert_eq!(zstd_header_length(&zstd).unwrap(), n);
    }
}
