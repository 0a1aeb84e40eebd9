use std::io::Read;

use varys::files::compress_gzip_bytes;

#[test]
fn compressed_artifact_gets_the_gz_suffix() {
    let data = vec![1u8, 2, 3];
    let (name, _) = compress_gzip_bytes("capture.pcap", &data);
    assert_eq!(name, "capture.pcap.gz");
}

#[test]
fn compression_round_trips_through_a_gzip_decoder() {
    let data: Vec<u8> = (0..200u8).cycle().take(5000).collect();
    let (_, compressed) = compress_gzip_bytes("trace.bin", &data);
    assert!(compressed.len() >= 18);
    // a gzip stream starts with the two magic bytes
    assert_eq!(&compressed[0..2], &[0x1f, 0x8b]);
    let mut decoder = flate2::read::GzDecoder::new(compressed.as_slice());
    let mut out = Vec::new();
    decoder.read_to_end(&mut out).unwrap();
    assert_eq!(out, data);
}

#[test]
fn empty_input_still_makes_a_valid_stream() {
    let data = Vec::new();
    let (name, compressed) = compress_gzip_bytes("x", &data);
    assert_eq!(name, "x.gz");
    let mut decoder = flate2::read::GzDecoder::new(compressed.as_slice());
    let mut out = Vec::new();
    decoder.read_to_end(&mut out).unwrap();
    assert!(out.is_empty());
}
