//! The codec-sniffing source: passthrough and the three compressed
//! containers.

use std::io::Read;
use std::io::Write;

use ttyreplay::input::{DecodeError, Input};

fn sample_stream() -> Vec<u8> {
    let mut v: Vec<u8> = Vec::new();
    v.extend_from_slice(b"\x160tHello\x17");
    v.extend_from_slice(b"\x16250tWorld\x17");
    v
}

#[test]
fn passthrough_is_byte_for_byte() {
    let raw = sample_stream();
    let inp = Input::reader(raw.clone(), "test").unwrap();
    assert_eq!(inp.bytes, raw);
    assert_eq!(inp.pos, 0);
}

#[test]
fn passthrough_of_short_stream() {
    let raw: Vec<u8> = vec![0x1f];
    let inp = Input::reader(raw.clone(), "short").unwrap();
    assert_eq!(inp.bytes, raw);
}

#[test]
fn passthrough_of_partial_magic() {
    let raw: Vec<u8> = vec![0x1f, 0x8b];
    let inp = Input::reader(raw.clone(), "partial").unwrap();
    assert_eq!(inp.bytes, raw);
}

#[test]
fn gzip_round_trip() {
    let raw = sample_stream();
    let mut enc = flate2::write::GzEncoder::new(Vec::new(), flate2::Compression::default());
    enc.write_all(&raw).unwrap();
    let compressed: Vec<u8> = enc.finish().unwrap();
    assert_eq!(&compressed[0..3], &[0x1f, 0x8b, 0x08]);
    let inp = Input::reader(compressed, "gz").unwrap();
    assert_eq!(inp.bytes, raw);
}

#[test]
fn xz_round_trip() {
    let raw = sample_stream();
    let mut enc = xz2::read::XzEncoder::new(&raw[..], 6);
    let mut compressed: Vec<u8> = Vec::new();
    enc.read_to_end(&mut compressed).unwrap();
    assert_eq!(&compressed[0..6], &[0xfd, 0x37, 0x7a, 0x58, 0x5a, 0x00]);
    let inp = Input::reader(compressed, "xz").unwrap();
    assert_eq!(inp.bytes, raw);
}

#[test]
fn zstd_round_trip() {
    let raw = sample_stream();
    let compressed: Vec<u8> = zstd::stream::encode_all(&raw[..], 0).unwrap();
    assert_eq!(&compressed[0..4], &[0x28, 0xb5, 0x2f, 0xfd]);
    let inp = Input::reader(compressed, "zst").unwrap();
    assert_eq!(inp.bytes, raw);
}

#[test]
fn corrupt_gzip_is_reported() {
    let mut bad: Vec<u8> = vec![0x1f, 0x8b, 0x08];
    bad.extend_from_slice(b"this is not a gzip stream at all");
    let res = Input::reader(bad, "bad");
    assert!(matches!(res, Err(DecodeError::Corrupt)));
}

#[test]
fn as_label_reports_the_label() {
    let inp = Input::reader(sample_stream(), "session.rec").unwrap();
    assert_eq!(inp.as_label(), "session.rec".to_string());
}
