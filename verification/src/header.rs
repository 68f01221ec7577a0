use vstd::prelude::*;

use vstd::bytes::{
    lemma_auto_spec_u16_to_from_le_bytes, lemma_auto_spec_u32_to_from_le_bytes,
    spec_u16_to_le_bytes, spec_u32_to_le_bytes,
};

use crate::compression::Compression;
use crate::wire::{get_u16_le, get_u32_le, le16_at, le32_at, push_u16_le, push_u32_le};

verus! {

/// The two general-purpose flag bits this codec interprets: bit 0 marks an
/// encrypted payload, bit 3 marks that the true sizes and checksum trail the
/// payload in a data descriptor.
#[derive(Clone, Copy, Debug, PartialEq, Eq, Structural)]
pub struct GeneralPurposeFlag {
    pub encrypted: bool,
    pub data_descriptor: bool,
}

impl GeneralPurposeFlag {
    /// Wire encoding of the two interpreted bits; all others are written 0.
    pub open spec fn spec_to_u16(self) -> u16 {
        ((if self.encrypted {
            1int
        } else {
            0
        }) + (if self.data_descriptor {
            8int
        } else {
            0
        })) as u16
    }

    /// The two interpreted bits of a wire flags field.
    pub open spec fn spec_from_u16(x: u16) -> GeneralPurposeFlag {
        GeneralPurposeFlag { encrypted: x % 2 == 1, data_descriptor: (x / 8) % 2 == 1 }
    }

    pub fn to_u16(self) -> (r: u16)
        ensures
            r == self.spec_to_u16(),
    {
        (if self.encrypted {
            1u16
        } else {
            0u16
        }) + (if self.data_descriptor {
            8u16
        } else {
            0u16
        })
    }

    pub fn from_u16(x: u16) -> (r: GeneralPurposeFlag)
        ensures
            r == GeneralPurposeFlag::spec_from_u16(x),
    {
        GeneralPurposeFlag { encrypted: x % 2 == 1, data_descriptor: (x / 8) % 2 == 1 }
    }
}

/// Law: the two flag bits survive a trip through their wire encoding.
pub proof fn lemma_flags_round_trip(f: GeneralPurposeFlag)
    ensures
        GeneralPurposeFlag::spec_from_u16(f.spec_to_u16()) == f,
{
}

/// The fixed 26-byte record that follows the local-header marker: all fields
/// little-endian, at fixed offsets, in wire order.
#[derive(Clone, Copy, Debug, PartialEq, Eq, Structural)]
pub struct LocalFileHeader {
    pub version: u16,
    pub flags: GeneralPurposeFlag,
    pub compression: u16,
    pub mod_time: u16,
    pub mod_date: u16,
    pub crc: u32,
    pub compressed_size: u32,
    pub uncompressed_size: u32,
    pub file_name_length: u16,
    pub extra_field_length: u16,
}

impl LocalFileHeader {
    /// The 26-byte wire image of this header.
    pub open spec fn spec_to_bytes(self) -> Seq<u8> {
        spec_u16_to_le_bytes(self.version) + spec_u16_to_le_bytes(self.flags.spec_to_u16())
            + spec_u16_to_le_bytes(self.compression) + spec_u16_to_le_bytes(self.mod_time)
            + spec_u16_to_le_bytes(self.mod_date) + spec_u32_to_le_bytes(self.crc)
            + spec_u32_to_le_bytes(self.compressed_size) + spec_u32_to_le_bytes(
            self.uncompressed_size,
        ) + spec_u16_to_le_bytes(self.file_name_length) + spec_u16_to_le_bytes(
            self.extra_field_length,
        )
    }

    /// The header a 26-byte wire record parses to.
    pub open spec fn spec_parse(b: Seq<u8>) -> LocalFileHeader
        recommends
            b.len() == 26,
    {
        LocalFileHeader {
            version: le16_at(b, 0),
            flags: GeneralPurposeFlag::spec_from_u16(le16_at(b, 2)),
            compression: le16_at(b, 4),
            mod_time: le16_at(b, 6),
            mod_date: le16_at(b, 8),
            crc: le32_at(b, 10),
            compressed_size: le32_at(b, 14),
            uncompressed_size: le32_at(b, 18),
            file_name_length: le16_at(b, 22),
            extra_field_length: le16_at(b, 24),
        }
    }

    /// Serializes the fixed record, mirroring the parse layout byte for byte.
    pub fn to_bytes(&self) -> (r: Vec<u8>)
        ensures
            r@ == self.spec_to_bytes(),
            r@.len() == 26,
    {
        let mut out: Vec<u8> = Vec::new();
        push_u16_le(&mut out, self.version);
        push_u16_le(&mut out, self.flags.to_u16());
        push_u16_le(&mut out, self.compression);
        push_u16_le(&mut out, self.mod_time);
        push_u16_le(&mut out, self.mod_date);
        push_u32_le(&mut out, self.crc);
        push_u32_le(&mut out, self.compressed_size);
        push_u32_le(&mut out, self.uncompressed_size);
        push_u16_le(&mut out, self.file_name_length);
        push_u16_le(&mut out, self.extra_field_length);
        proof {
            lemma_auto_spec_u16_to_from_le_bytes();
            lemma_auto_spec_u32_to_from_le_bytes();
            assert(out@ =~= self.spec_to_bytes());
        }
        out
    }

    /// Parses the fixed record from exactly 26 bytes.
    pub fn from_slice(b: &[u8]) -> (r: LocalFileHeader)
        requires
            b@.len() == 26,
        ensures
            r == LocalFileHeader::spec_parse(b@),
    {
        LocalFileHeader {
            version: get_u16_le(b, 0),
            flags: GeneralPurposeFlag::from_u16(get_u16_le(b, 2)),
            compression: get_u16_le(b, 4),
            mod_time: get_u16_le(b, 6),
            mod_date: get_u16_le(b, 8),
            crc: get_u32_le(b, 10),
            compressed_size: get_u32_le(b, 14),
            uncompressed_size: get_u32_le(b, 18),
            file_name_length: get_u16_le(b, 22),
            extra_field_length: get_u16_le(b, 24),
        }
    }
}

/// Law (wire layout): serializing any header and parsing the 26 bytes back
/// recovers every field exactly.
pub proof fn lemma_header_round_trip(h: LocalFileHeader)
    ensures
        h.spec_to_bytes().len() == 26,
        LocalFileHeader::spec_parse(h.spec_to_bytes()) == h,
{
    lemma_auto_spec_u16_to_from_le_bytes();
    lemma_auto_spec_u32_to_from_le_bytes();
    let b = h.spec_to_bytes();
    assert(b.subrange(0, 2) =~= spec_u16_to_le_bytes(h.version));
    assert(b.subrange(2, 4) =~= spec_u16_to_le_bytes(h.flags.spec_to_u16()));
    assert(b.subrange(4, 6) =~= spec_u16_to_le_bytes(h.compression));
    assert(b.subrange(6, 8) =~= spec_u16_to_le_bytes(h.mod_time));
    assert(b.subrange(8, 10) =~= spec_u16_to_le_bytes(h.mod_date));
    assert(b.subrange(10, 14) =~= spec_u32_to_le_bytes(h.crc));
    assert(b.subrange(14, 18) =~= spec_u32_to_le_bytes(h.compressed_size));
    assert(b.subrange(18, 22) =~= spec_u32_to_le_bytes(h.uncompressed_size));
    assert(b.subrange(22, 24) =~= spec_u16_to_le_bytes(h.file_name_length));
    assert(b.subrange(24, 26) =~= spec_u16_to_le_bytes(h.extra_field_length));
    lemma_flags_round_trip(h.flags);
}

/// The central directory record built for an entry at close time, once its
/// true sizes and checksum are known. This codec builds it in memory; the
/// surrounding archive writer serializes the directory when it finalizes.
#[derive(Clone, Copy, Debug, PartialEq, Eq, Structural)]
pub struct CentralDirectoryHeader {
    pub v_made_by: u16,
    pub v_needed: u16,
    pub flags: GeneralPurposeFlag,
    pub compression: u16,
    pub mod_time: u16,
    pub mod_date: u16,
    pub crc: u32,
    pub compressed_size: u32,
    pub uncompressed_size: u32,
    pub file_name_length: u16,
    pub extra_field_length: u16,
    pub file_comment_length: u16,
    pub disk_start: u16,
    pub inter_attr: u16,
    pub exter_attr: u32,
    pub lh_offset: u32,
}

/// Caller-supplied per-entry metadata, immutable for the entry's lifetime.
/// Filename and comment are carried as raw bytes, exactly as they go to the
/// wire.
pub struct EntryOptions {
    pub filename: Vec<u8>,
    pub extra: Vec<u8>,
    pub comment: Vec<u8>,
    pub compression: Compression,
}

impl EntryOptions {
    /// The declared lengths must fit their 16-bit wire fields.
    pub open spec fn fits(self) -> bool {
        &&& self.filename@.len() <= 0xFFFF
        &&& self.extra@.len() <= 0xFFFF
        &&& self.comment@.len() <= 0xFFFF
    }

    pub fn new(filename: Vec<u8>, extra: Vec<u8>, comment: Vec<u8>, compression: Compression) -> (r:
        EntryOptions)
        requires
            filename@.len() <= 0xFFFF,
            extra@.len() <= 0xFFFF,
            comment@.len() <= 0xFFFF,
        ensures
            r.fits(),
            r.filename@ == filename@,
            r.extra@ == extra@,
            r.comment@ == comment@,
            r.compression == compression,
    {
        EntryOptions { filename, extra, comment, compression }
    }
}

} // verus!
