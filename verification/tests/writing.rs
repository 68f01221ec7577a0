use zipstream::compression::Compression;
use zipstream::header::{EntryOptions, GeneralPurposeFlag, LocalFileHeader};
use zipstream::read::ZipStreamReader;
use zipstream::wire::{push_u32_le, CDFHD, LFHD};
use zipstream::write::ZipFileWriter;

fn stored_options(name: &[u8]) -> EntryOptions {
    EntryOptions::new(name.to_vec(), Vec::new(), Vec::new(), Compression::Stored)
}

#[test]
fn placeholder_header_goes_out_immediately() {
    let w = ZipFileWriter::new();
    let e = w.write_entry_stream(stored_options(b"hello.txt"));
    // marker + 26-byte record + 9-byte name already sit in the sink
    assert_eq!(e.offset(), 39);
    assert_eq!(e.compression(), Compression::Stored);
    assert_eq!(e.uncompressed_count(), 0);
    assert_eq!(e.compressed_span(), 0);
}

#[test]
fn close_records_sizes_checksum_and_offset() {
    let payload = b"Hello, World!";
    let w = ZipFileWriter::new();
    let mut e = w.write_entry_stream(stored_options(b"hello.txt"));
    e.write(&payload[..7]);
    e.write(&payload[7..]);
    let w2 = e.close();
    let (sink, entries) = w2.into_parts();

    assert_eq!(entries.len(), 1);
    let rec = &entries[0];
    assert_eq!(rec.header.uncompressed_size, 13);
    assert_eq!(rec.header.compressed_size, 13);
    assert_eq!(rec.header.lh_offset, 0);
    assert_eq!(rec.header.file_name_length, 9);
    assert_eq!(rec.header.file_comment_length, 0);
    assert_eq!(rec.opts.filename, b"hello.txt");

    let mut h = crc32fast::Hasher::new();
    h.update(payload);
    assert_eq!(rec.header.crc, h.finalize());

    // Wire layout of what went out: marker, placeholder record, name,
    // payload verbatim (Stored), then the trailing descriptor.
    assert_eq!(&sink[0..4], &[0x50, 0x4b, 0x03, 0x04]);
    // flags at offset 6: the descriptor bit, and nothing else
    assert_eq!(&sink[6..8], &[8, 0]);
    // placeholder sizes and checksum are zero
    assert_eq!(&sink[14..26], &[0u8; 12]);
    assert_eq!(&sink[30..39], b"hello.txt");
    assert_eq!(&sink[39..52], payload.as_slice());
    // descriptor: marker, crc, compressed size, uncompressed size
    assert_eq!(&sink[52..56], &[0x50, 0x4b, 0x07, 0x08]);
    assert_eq!(&sink[56..60], rec.header.crc.to_le_bytes().as_slice());
    assert_eq!(&sink[60..64], 13u32.to_le_bytes().as_slice());
    assert_eq!(&sink[64..68], 13u32.to_le_bytes().as_slice());
    assert_eq!(sink.len(), 68);
}

#[test]
fn directory_record_list_is_append_only_and_ordered() {
    let w = ZipFileWriter::new();
    let mut e = w.write_entry_stream(stored_options(b"first"));
    e.write(b"one");
    let w = e.close();
    let second_offset = w.offset() as u32;
    let mut e = w.write_entry_stream(stored_options(b"second"));
    e.write(b"two+two");
    let w = e.close();

    let records = w.cd_entries();
    assert_eq!(records.len(), 2);
    assert_eq!(records[0].opts.filename, b"first");
    assert_eq!(records[1].opts.filename, b"second");
    assert_eq!(records[0].header.lh_offset, 0);
    assert_eq!(records[1].header.lh_offset, second_offset);
    assert_eq!(records[0].header.uncompressed_size, 3);
    assert_eq!(records[1].header.uncompressed_size, 7);
}

#[test]
fn write_then_read_round_trip_stored() {
    let payload = b"The quick brown fox jumps over the lazy dog";
    let w = ZipFileWriter::new();
    let mut e = w.write_entry_stream(stored_options(b"fox.txt"));
    e.write(payload);
    let w = e.close();
    let (sink, entries) = w.into_parts();
    let rec = &entries[0];

    // The entry writer defers true sizes to the descriptor, and this
    // codec's reader declines descriptor-flagged entries by design; frame
    // the recorded payload with the sizes and checksum of the directory
    // record, as the finalized archive's directory would present them.
    let data_start = (4 + 26 + 7) as usize;
    let data_end = data_start + rec.header.compressed_size as usize;
    let mut src = Vec::new();
    push_u32_le(&mut src, LFHD);
    let h = LocalFileHeader {
        version: 0,
        flags: GeneralPurposeFlag { encrypted: false, data_descriptor: false },
        compression: rec.header.compression,
        mod_time: rec.header.mod_time,
        mod_date: rec.header.mod_date,
        crc: rec.header.crc,
        compressed_size: rec.header.compressed_size,
        uncompressed_size: rec.header.uncompressed_size,
        file_name_length: rec.header.file_name_length,
        extra_field_length: 0,
    };
    src.extend_from_slice(&h.to_bytes());
    src.extend_from_slice(&rec.opts.filename);
    src.extend_from_slice(&sink[data_start..data_end]);
    push_u32_le(&mut src, CDFHD);

    let mut rd = ZipStreamReader::new(src);
    let mut f = rd.next_entry().unwrap().unwrap();
    assert_eq!(f.file_name().as_slice(), b"fox.txt");
    assert_eq!(f.crc(), rec.header.crc);
    let got = f.read(usize::MAX);
    assert_eq!(got.as_slice(), payload.as_slice());
    assert!(f.is_eof());
    f.consume().unwrap();
    assert!(rd.next_entry().unwrap().is_none());

    // The checksum the trailer and directory record carry is the checksum
    // of the payload itself.
    let mut ch = crc32fast::Hasher::new();
    ch.update(payload);
    assert_eq!(rec.header.crc, ch.finalize());
}

#[test]
fn payload_splitting_does_not_change_what_is_recorded() {
    let payload = [9u8; 100];
    let w = ZipFileWriter::new();
    let mut e = w.write_entry_stream(stored_options(b"a"));
    e.write(&payload);
    let one = e.close();
    let (sink_one, rec_one) = one.into_parts();

    let w = ZipFileWriter::new();
    let mut e = w.write_entry_stream(stored_options(b"a"));
    for chunk in payload.chunks(10) {
        e.write(chunk);
    }
    let ten = e.close();
    let (sink_ten, rec_ten) = ten.into_parts();

    assert_eq!(rec_one[0].header.crc, rec_ten[0].header.crc);
    assert_eq!(rec_one[0].header.compressed_size, rec_ten[0].header.compressed_size);
    assert_eq!(rec_one[0].header.uncompressed_size, rec_ten[0].header.uncompressed_size);
    // Apart from the packed timestamp (taken at open time), the streams
    // agree byte for byte; compare everything after the header record.
    assert_eq!(&sink_one[30..], &sink_ten[30..]);
}
