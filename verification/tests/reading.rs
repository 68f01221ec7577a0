use zipstream::error::{Feature, ZipError};
use zipstream::header::{GeneralPurposeFlag, LocalFileHeader};
use zipstream::read::ZipStreamReader;
use zipstream::wire::{push_u32_le, CDFHD, LFHD};

fn plain_header(
    compression: u16,
    flags: GeneralPurposeFlag,
    name_len: u16,
    extra_len: u16,
    compressed_size: u32,
    uncompressed_size: u32,
) -> LocalFileHeader {
    LocalFileHeader {
        version: 0,
        flags,
        compression,
        mod_time: 0,
        mod_date: (20 << 9) | (1 << 5) | 1, // 2000-01-01
        crc: 0,
        compressed_size,
        uncompressed_size,
        file_name_length: name_len,
        extra_field_length: extra_len,
    }
}

fn push_entry(out: &mut Vec<u8>, name: &[u8], extra: &[u8], payload: &[u8], h: LocalFileHeader) {
    push_u32_le(out, LFHD);
    out.extend_from_slice(&h.to_bytes());
    out.extend_from_slice(name);
    out.extend_from_slice(extra);
    out.extend_from_slice(payload);
}

fn no_flags() -> GeneralPurposeFlag {
    GeneralPurposeFlag { encrypted: false, data_descriptor: false }
}

#[test]
fn two_stored_entries_then_end_marker() {
    let mut src = Vec::new();
    push_entry(
        &mut src,
        b"a.txt",
        b"",
        b"AAAAA",
        plain_header(0, no_flags(), 5, 0, 5, 5),
    );
    push_entry(
        &mut src,
        b"b.txt",
        b"xy",
        b"BBBBBBB",
        plain_header(0, no_flags(), 5, 2, 7, 7),
    );
    push_u32_le(&mut src, CDFHD);

    let mut rd = ZipStreamReader::new(src);

    let mut e1 = rd.next_entry().unwrap().unwrap();
    assert_eq!(e1.file_name().as_slice(), b"a.txt");
    assert_eq!(e1.uncompressed_size(), 5);
    assert_eq!(e1.compressed_size(), 5);
    assert!(!e1.is_eof());
    e1.consume().unwrap();
    assert!(e1.is_eof());

    let mut e2 = rd.next_entry().unwrap().unwrap();
    assert_eq!(e2.file_name().as_slice(), b"b.txt");
    assert_eq!(e2.extra().as_slice(), b"xy");
    assert_eq!(e2.uncompressed_size(), 7);
    let payload = e2.read(1024);
    assert_eq!(payload.as_slice(), b"BBBBBBB");
    e2.consume().unwrap();

    assert!(rd.next_entry().unwrap().is_none());
}

#[test]
fn encrypted_entry_is_rejected_before_payload() {
    let mut src = Vec::new();
    push_entry(
        &mut src,
        b"x",
        b"",
        b"12345",
        plain_header(
            0,
            GeneralPurposeFlag { encrypted: true, data_descriptor: false },
            1,
            0,
            5,
            5,
        ),
    );
    let mut rd = ZipStreamReader::new(src);
    assert_eq!(
        rd.next_entry().err(),
        Some(ZipError::FeatureNotSupported(Feature::Encryption))
    );
}

#[test]
fn data_descriptor_entry_is_rejected() {
    let mut src = Vec::new();
    push_entry(
        &mut src,
        b"x",
        b"",
        b"",
        plain_header(
            0,
            GeneralPurposeFlag { encrypted: false, data_descriptor: true },
            1,
            0,
            0,
            0,
        ),
    );
    let mut rd = ZipStreamReader::new(src);
    assert_eq!(
        rd.next_entry().err(),
        Some(ZipError::FeatureNotSupported(Feature::DataDescriptors))
    );
}

#[test]
fn unsupported_compression_code_is_rejected() {
    let mut src = Vec::new();
    push_entry(&mut src, b"x", b"", b"", plain_header(99, no_flags(), 1, 0, 0, 0));
    let mut rd = ZipStreamReader::new(src);
    assert_eq!(
        rd.next_entry().err(),
        Some(ZipError::UnsupportedCompressionError(99))
    );
}

#[test]
fn unexpected_marker_reports_the_value_found() {
    let mut src = Vec::new();
    push_u32_le(&mut src, 0x11223344);
    let mut rd = ZipStreamReader::new(src);
    assert_eq!(
        rd.next_entry().err(),
        Some(ZipError::LocalFileHeaderError(0x11223344))
    );
}

#[test]
fn short_source_fails_with_read_failed() {
    let mut rd = ZipStreamReader::new(vec![0x50, 0x4b]);
    assert_eq!(rd.next_entry().err(), Some(ZipError::ReadFailed));

    // Marker present but the fixed record cut short.
    let mut src = Vec::new();
    push_u32_le(&mut src, LFHD);
    src.extend_from_slice(&[0u8; 10]);
    let mut rd = ZipStreamReader::new(src);
    assert_eq!(rd.next_entry().err(), Some(ZipError::ReadFailed));
}

#[test]
fn consume_fails_on_truncated_payload() {
    let mut src = Vec::new();
    // Declares five payload bytes but the source holds only three.
    push_entry(&mut src, b"t", b"", b"123", plain_header(0, no_flags(), 1, 0, 5, 5));
    let mut rd = ZipStreamReader::new(src);
    let mut e = rd.next_entry().unwrap().unwrap();
    assert_eq!(e.consume(), Err(ZipError::ReadFailed));
    assert!(!e.is_eof());
}

#[test]
fn consume_succeeds_once_is_eof_holds() {
    let mut src = Vec::new();
    push_entry(&mut src, b"t", b"", b"12345", plain_header(0, no_flags(), 1, 0, 5, 5));
    push_u32_le(&mut src, CDFHD);
    let mut rd = ZipStreamReader::new(src);
    let mut e = rd.next_entry().unwrap().unwrap();
    let all = e.read(5);
    assert_eq!(all.as_slice(), b"12345");
    assert!(e.is_eof());
    assert_eq!(e.consume(), Ok(()));
    assert!(rd.next_entry().unwrap().is_none());
}

#[test]
fn directory_marker_entry_is_dir() {
    let mut src = Vec::new();
    push_entry(&mut src, b"sub/", b"", b"", plain_header(0, no_flags(), 4, 0, 0, 0));
    let mut rd = ZipStreamReader::new(src);
    let e = rd.next_entry().unwrap().unwrap();
    assert!(e.is_dir());
    assert!(e.is_eof());

    let mut src2 = Vec::new();
    push_entry(&mut src2, b"file", b"", b"", plain_header(0, no_flags(), 4, 0, 0, 0));
    let mut rd2 = ZipStreamReader::new(src2);
    assert!(!rd2.next_entry().unwrap().unwrap().is_dir());
}

#[test]
fn last_modified_decodes_packed_fields() {
    let mut src = Vec::new();
    push_entry(&mut src, b"t", b"", b"", plain_header(0, no_flags(), 1, 0, 0, 0));
    let mut rd = ZipStreamReader::new(src);
    let e = rd.next_entry().unwrap().unwrap();
    let lm = e.last_modified();
    assert_eq!((lm.year, lm.month, lm.day), (2000, 1, 1));
    assert_eq!((lm.hour, lm.minute, lm.second), (0, 0, 0));
    // 2000-01-01T00:00:00Z
    assert_eq!(e.last_modified_timestamp(), Some(946684800));
}

#[test]
fn feature_names_are_reportable() {
    assert_eq!(Feature::Encryption.name(), "file encryption");
    assert_eq!(Feature::DataDescriptors.name(), "file data descriptors");
}
