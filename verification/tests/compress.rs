use file_compress::compress::{
    compress_file_deflate, compress_round_trip, decompress_payload, deflate_compress_data,
    CompressError, ReadStrategy,
};
use file_compress::params::{confirm_file_exists, resolve};

/// A compressible fixture: repeated text, as a build asset would be.
fn fixture() -> Vec<u8> {
    let sentence = b"the quick brown fox jumps over the lazy dog; ";
    let mut data = Vec::new();
    for _ in 0..64 {
        data.extend_from_slice(sentence);
    }
    data
}

fn inflate(payload: &[u8]) -> Vec<u8> {
    let mut decompressor = flate2::read::DeflateDecoder::new(std::io::Cursor::new(payload));
    let mut buf = Vec::new();
    std::io::Read::read_to_end(&mut decompressor, &mut buf).unwrap();
    buf
}

#[test]
fn test_deflate() {
    let source_data = fixture();
    let decompressed_data = {
        let compressed_content = deflate_compress_data(&source_data, 9).unwrap();
        inflate(&compressed_content)
    };
    assert_eq!(decompressed_data, source_data);
}

#[test]
fn round_trip_restores_every_byte() {
    for level in 1..=9u8 {
        let data = fixture();
        let payload = deflate_compress_data(&data, level).unwrap();
        assert_eq!(inflate(&payload), data);
        let back = compress_round_trip(&data, level).unwrap();
        assert_eq!(back, data);
    }
}

#[test]
fn round_trip_of_empty_input() {
    let payload = deflate_compress_data(b"", 5).unwrap();
    assert!(!payload.is_empty());
    assert_eq!(inflate(&payload), Vec::<u8>::new());
}

#[test]
fn library_decompression_matches_standard_decoder() {
    let data = fixture();
    let payload = deflate_compress_data(&data, 6).unwrap();
    let back = decompress_payload(&payload).unwrap();
    assert_eq!(back, inflate(&payload));
    assert_eq!(back, data);
}

#[test]
fn compression_is_deterministic() {
    let data = fixture();
    let first = deflate_compress_data(&data, 7).unwrap();
    let second = deflate_compress_data(&data, 7).unwrap();
    assert_eq!(first, second);
}

#[test]
fn level_nine_not_larger_than_level_one() {
    let data = fixture();
    let fast = deflate_compress_data(&data, 1).unwrap();
    let best = deflate_compress_data(&data, 9).unwrap();
    assert!(best.len() <= fast.len());
}

#[test]
fn fixture_scenario_level_five_then_nine() {
    let data = fixture();
    let n = data.len();
    let at_five = deflate_compress_data(&data, 5).unwrap();
    assert!(!at_five.is_empty());
    let restored = inflate(&at_five);
    assert_eq!(restored.len(), n);
    assert_eq!(restored, data);
    let at_nine = deflate_compress_data(&data, 9).unwrap();
    assert!(at_nine.len() <= at_five.len());
}

#[test]
fn payload_differs_from_input() {
    // The encoder really ran: handing the input back unchanged would both
    // fail this and break the round trip above.
    let data = fixture();
    let payload = deflate_compress_data(&data, 5).unwrap();
    assert_ne!(payload, data);
    assert!(payload.len() < data.len());
}

#[test]
fn garbage_payload_is_rejected() {
    let garbage = [0xffu8; 16];
    match decompress_payload(&garbage) {
        Err(CompressError::Io(message)) => assert!(!message.is_empty()),
        Ok(_) => panic!("expected an error for a corrupt stream"),
    }
}

#[test]
fn strategy_equivalence_on_equal_bytes() {
    // Both reading strategies yield the file's exact bytes; two equal buffers
    // obtained separately must compress to byte-identical payloads.
    let buffered_view = fixture();
    let mut mapped_view = Vec::new();
    mapped_view.extend_from_slice(&fixture());
    assert_eq!(buffered_view, mapped_view);
    let strategies = [ReadStrategy::Buffered, ReadStrategy::Mapped];
    assert_ne!(strategies[0], strategies[1]);
    let from_buffered = deflate_compress_data(&buffered_view, 8).unwrap();
    let from_mapped = deflate_compress_data(&mapped_view, 8).unwrap();
    assert_eq!(from_buffered, from_mapped);
}

#[test]
fn engine_runs_on_resolved_parameters() {
    let pending = resolve(b"\"assets/data.txt\", 9", &Some(b"/project".to_vec())).unwrap();
    let params = confirm_file_exists(pending, true).unwrap();
    let data = fixture();
    let payload = compress_file_deflate(&params, &data).unwrap();
    assert_eq!(inflate(&payload), data);
}
