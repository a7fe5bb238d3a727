use std::io::Write;

use audec::auto_decompress;
use audec::codec::decompress_with;
use audec::config::{CodecConfig, ConfigError};
use audec::decompress_as;
use audec::CompressionFormat;

fn gzip_bytes(payload: &[u8]) -> Vec<u8> {
    let mut encoder = flate2::write::GzEncoder::new(Vec::new(), flate2::Compression::default());
    encoder.write_all(payload).unwrap();
    encoder.finish().unwrap()
}

fn bzip2_bytes(payload: &[u8]) -> Vec<u8> {
    let mut encoder = bzip2::write::BzEncoder::new(Vec::new(), bzip2::Compression::best());
    encoder.write_all(payload).unwrap();
    encoder.finish().unwrap()
}

fn zstd_bytes(payload: &[u8]) -> Vec<u8> {
    zstd::stream::encode_all(payload, 0).unwrap()
}

fn lz4_flex_bytes(payload: &[u8]) -> Vec<u8> {
    let mut encoder = lz4_flex::frame::FrameEncoder::new(Vec::new());
    encoder.write_all(payload).unwrap();
    encoder.finish().unwrap()
}

fn lz4_bytes(payload: &[u8]) -> Vec<u8> {
    let mut encoder = lz4::EncoderBuilder::new().build(Vec::new()).unwrap();
    encoder.write_all(payload).unwrap();
    let (out, result) = encoder.finish();
    result.unwrap();
    out
}

const PAYLOAD: &[u8] = b"a payload long enough to be worth compressing, repeated: \
a payload long enough to be worth compressing";

#[test]
fn gzip_round_trip_through_auto() {
    let compressed = gzip_bytes(PAYLOAD);
    assert_ne!(compressed, PAYLOAD.to_vec());
    assert_eq!(auto_decompress(compressed).unwrap(), PAYLOAD.to_vec());
}

#[test]
fn bzip2_round_trip_through_auto() {
    let compressed = bzip2_bytes(PAYLOAD);
    assert_ne!(compressed, PAYLOAD.to_vec());
    assert_eq!(auto_decompress(compressed).unwrap(), PAYLOAD.to_vec());
}

#[test]
fn zstd_round_trip_through_auto() {
    let compressed = zstd_bytes(PAYLOAD);
    assert_ne!(compressed, PAYLOAD.to_vec());
    assert_eq!(auto_decompress(compressed).unwrap(), PAYLOAD.to_vec());
}

#[test]
fn lz4_round_trip_through_auto() {
    let compressed = lz4_flex_bytes(PAYLOAD);
    assert_ne!(compressed, PAYLOAD.to_vec());
    assert_eq!(auto_decompress(compressed).unwrap(), PAYLOAD.to_vec());
}

#[test]
fn lz4_backend_round_trip() {
    // The other lz4 backend, selected by configuration.
    let config = CodecConfig::new(true, true, true, false, true).unwrap();
    let compressed = lz4_bytes(PAYLOAD);
    assert_ne!(compressed, PAYLOAD.to_vec());
    let out = decompress_with(&config, compressed, CompressionFormat::Lz4).unwrap();
    assert_eq!(out, PAYLOAD.to_vec());
}

#[test]
fn malformed_gzip_is_a_decode_error() {
    let input = vec![0x1f, 0x8b, 0xff, 0xff, 0xff, 0xff, 0xff, 0xff];
    assert!(decompress_as(input, CompressionFormat::Deflate).is_err());
}

#[test]
fn malformed_bzip2_is_a_decode_error() {
    let input = vec![0x42, 0x5a, 0x68, 0x39, 0xff, 0xff, 0xff, 0xff];
    assert!(decompress_as(input, CompressionFormat::Bzip2).is_err());
}

#[test]
fn malformed_zstd_is_a_decode_error() {
    let input = vec![0x28, 0xb5, 0x2f, 0xfd, 0xff, 0xff, 0xff, 0xff];
    assert!(decompress_as(input, CompressionFormat::Zstd).is_err());
}

#[test]
fn malformed_lz4_is_a_decode_error() {
    let input = vec![0x04, 0x22, 0x4d, 0x18, 0xff, 0xff, 0xff, 0xff];
    assert!(decompress_as(input, CompressionFormat::Lz4).is_err());
}

#[test]
fn recognized_but_malformed_input_errors_end_to_end() {
    // A recognized magic prefix followed by garbage is not passthrough:
    // the decode error reaches the caller.
    let input = vec![0x1f, 0x8b, 0xff, 0xff, 0xff, 0xff, 0xff, 0xff];
    assert!(auto_decompress(input).is_err());
}

#[test]
fn conflicting_lz4_backends_rejected_at_configuration() {
    let r = CodecConfig::new(true, true, true, true, true);
    assert_eq!(r, Err(ConfigError::ConflictingLz4Backends));
}

#[test]
fn single_lz4_backend_accepted() {
    assert!(CodecConfig::new(false, false, true, false, false).is_ok());
    assert!(CodecConfig::new(false, false, false, true, false).is_ok());
    assert!(CodecConfig::new(true, true, false, false, true).is_ok());
}

#[test]
fn disabled_backend_passes_through() {
    let config = CodecConfig::new(false, true, false, true, true).unwrap();
    let input = bzip2_bytes(PAYLOAD);
    let out = decompress_with(&config, input.clone(), CompressionFormat::Bzip2).unwrap();
    assert_eq!(out, input);
}

#[test]
fn format_order_is_deterministic() {
    assert!(CompressionFormat::Deflate < CompressionFormat::Bzip2);
    assert!(CompressionFormat::Bzip2 < CompressionFormat::Lz4);
    assert!(CompressionFormat::Lz4 < CompressionFormat::Zstd);
}
