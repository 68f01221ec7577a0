use vstd::prelude::*;

use vstd::bytes::{lemma_auto_spec_u32_to_from_le_bytes, spec_u32_to_le_bytes};
use vstd::slice::{slice_subrange, slice_to_vec};

use crate::compression::Compression;
use crate::date::ZipDateTime;
use crate::date::unix_seconds_of;
use crate::error::{Feature, ZipError};
use crate::header::{GeneralPurposeFlag, LocalFileHeader, lemma_header_round_trip};
use crate::wire::{CDFHD, LFHD, get_u32_le, le32_at};

verus! {

/// `a + n`, saturating at the 32-bit limit.
pub open spec fn sat_add_u32(a: u32, n: int) -> u32
    recommends
        n >= 0,
{
    if a + n <= 0xFFFF_FFFF {
        (a + n) as u32
    } else {
        0xFFFF_FFFFu32
    }
}

/// Everything one parsed entry holds: the header fields that survive into
/// the entry handle, and the raw (still compressed) payload bytes the entry
/// is bounded to.
pub struct EntryModel {
    pub file_name: Seq<u8>,
    pub compressed_size: u32,
    pub uncompressed_size: u32,
    pub crc: u32,
    pub extra: Seq<u8>,
    pub last_modified: ZipDateTime,
    pub method: Compression,
    pub data: Seq<u8>,
}

/// The outcome one `next_entry` call is specified to produce: a hard error,
/// the end-of-entries sentinel, or a parsed entry — each with the source
/// position left behind.
pub enum NextEntry {
    Fail(ZipError, int),
    Finished(int),
    Entry(EntryModel, int),
}

/// The authoritative parse of one entry from `src` at byte position `pos`:
/// a 4-byte marker distinguishing "more entries" from "end of entries", a
/// fixed 26-byte header, filename and extra field of their declared lengths,
/// then a sub-stream bounded by the declared compressed size. Entries with
/// the `encrypted` or `data_descriptor` flag fail before any payload byte is
/// read; an unsupported method code fails rather than falling back.
pub open spec fn spec_next_entry(src: Seq<u8>, pos: int) -> NextEntry
    recommends
        0 <= pos <= src.len(),
{
    if pos + 4 > src.len() {
        NextEntry::Fail(ZipError::ReadFailed, pos)
    } else {
        let marker = le32_at(src, pos);
        if marker == CDFHD {
            NextEntry::Finished(pos + 4)
        } else if marker != LFHD {
            NextEntry::Fail(ZipError::LocalFileHeaderError(marker), pos + 4)
        } else if pos + 30 > src.len() {
            NextEntry::Fail(ZipError::ReadFailed, pos + 4)
        } else {
            let h = LocalFileHeader::spec_parse(src.subrange(pos + 4, pos + 30));
            let name_end = pos + 30 + h.file_name_length;
            let extra_end = name_end + h.extra_field_length;
            if h.flags.encrypted {
                NextEntry::Fail(ZipError::FeatureNotSupported(Feature::Encryption), pos + 30)
            } else if h.flags.data_descriptor {
                NextEntry::Fail(ZipError::FeatureNotSupported(Feature::DataDescriptors), pos + 30)
            } else if name_end > src.len() {
                NextEntry::Fail(ZipError::ReadFailed, pos + 30)
            } else if extra_end > src.len() {
                NextEntry::Fail(ZipError::ReadFailed, name_end)
            } else {
                match Compression::spec_from_code(h.compression) {
                    Option::None => NextEntry::Fail(
                        ZipError::UnsupportedCompressionError(h.compression),
                        extra_end,
                    ),
                    Option::Some(m) => {
                        let take = if h.compressed_size <= src.len() - extra_end {
                            h.compressed_size as int
                        } else {
                            src.len() - extra_end
                        };
                        NextEntry::Entry(
                            EntryModel {
                                file_name: src.subrange(pos + 30, name_end),
                                compressed_size: h.compressed_size,
                                uncompressed_size: h.uncompressed_size,
                                crc: h.crc,
                                extra: src.subrange(name_end, extra_end),
                                last_modified: ZipDateTime::spec_from_packed(
                                    h.mod_date,
                                    h.mod_time,
                                ),
                                method: m,
                                data: src.subrange(extra_end, extra_end + take),
                            },
                            extra_end + take,
                        )
                    },
                }
            }
        }
    }
}

/// One entry handed out by the stream reader: its header metadata, and the
/// bounded sub-stream of raw payload bytes. Cumulative decoded bytes are
/// tracked in `bytes_read`; for the Stored method reading through the handle
/// is the (identity) decode, for the other methods the surrounding decoder
/// reports its decoded counts through `add_bytes_read`.
pub struct ZipStreamFile {
    file_name: Vec<u8>,
    compressed_size: u32,
    uncompressed_size: u32,
    crc: u32,
    extra: Vec<u8>,
    last_modified: ZipDateTime,
    method: Compression,
    data: Vec<u8>,
    data_pos: usize,
    bytes_read: u32,
}

impl View for ZipStreamFile {
    type V = EntryModel;

    closed spec fn view(&self) -> EntryModel {
        EntryModel {
            file_name: self.file_name@,
            compressed_size: self.compressed_size,
            uncompressed_size: self.uncompressed_size,
            crc: self.crc,
            extra: self.extra@,
            last_modified: self.last_modified,
            method: self.method,
            data: self.data@,
        }
    }
}

impl ZipStreamFile {
    /// How far the bounded raw sub-stream has been consumed.
    pub closed spec fn spec_data_pos(self) -> int {
        self.data_pos as int
    }

    /// Cumulative decoded bytes observed so far.
    pub closed spec fn spec_bytes_read(self) -> u32 {
        self.bytes_read
    }

    /// The raw sub-stream is bounded by a 32-bit size and never overrun.
    pub open spec fn wf(self) -> bool {
        &&& self.spec_data_pos() <= self@.data.len()
        &&& self@.data.len() <= 0xFFFF_FFFF
    }

    /// A newly parsed entry: nothing consumed, nothing decoded.
    pub open spec fn fresh(self) -> bool {
        &&& self.spec_data_pos() == 0
        &&& self.spec_bytes_read() == 0
    }

    /// The file's name, as its raw header bytes.
    pub fn file_name(&self) -> (r: &Vec<u8>)
        ensures
            r@ == self@.file_name,
    {
        &self.file_name
    }

    /// The file's compressed size in bytes, as declared by its header.
    pub fn compressed_size(&self) -> (r: u32)
        ensures
            r == self@.compressed_size,
    {
        self.compressed_size
    }

    /// The file's uncompressed size in bytes, as declared by its header.
    pub fn uncompressed_size(&self) -> (r: u32)
        ensures
            r == self@.uncompressed_size,
    {
        self.uncompressed_size
    }

    /// The file's cyclic redundancy check (CRC-32) value, as declared by its
    /// header.
    pub fn crc(&self) -> (r: u32)
        ensures
            r == self@.crc,
    {
        self.crc
    }

    /// The file's extra field data.
    pub fn extra(&self) -> (r: &Vec<u8>)
        ensures
            r@ == self@.extra,
    {
        &self.extra
    }

    /// The file's last modification date and time, decoded from the packed
    /// header fields.
    pub fn last_modified(&self) -> (r: &ZipDateTime)
        ensures
            *r == self@.last_modified,
    {
        &self.last_modified
    }

    /// A POSIX timestamp of the file's last modification, or None when the
    /// packed fields name no real calendar moment.
    pub fn last_modified_timestamp(&self) -> (r: Option<i64>)
        ensures
            r matches Some(t) ==> t == unix_seconds_of(
                self@.last_modified.year,
                self@.last_modified.month,
                self@.last_modified.day,
                self@.last_modified.hour,
                self@.last_modified.minute,
                self@.last_modified.second,
            ),
    {
        self.last_modified.unix_timestamp()
    }

    /// The compression method the entry's header selected.
    pub fn compression(&self) -> (r: Compression)
        ensures
            r == self@.method,
    {
        self.method
    }

    /// Whether the file has been fully read: the cumulative decoded byte
    /// count equals the declared uncompressed size. This is the authoritative
    /// completion signal for `consume`.
    pub fn is_eof(&self) -> (r: bool)
        ensures
            r == (self@.uncompressed_size == self.spec_bytes_read()),
    {
        self.uncompressed_size == self.bytes_read
    }

    /// Whether the file is a directory marker: a name ending in a slash and
    /// both sizes zero.
    pub fn is_dir(&self) -> (r: bool)
        ensures
            r == (self@.file_name.len() > 0 && self@.file_name.last() == 47u8
                && self@.uncompressed_size == 0 && self@.compressed_size == 0),
    {
        let n = self.file_name.len();
        if n == 0 {
            false
        } else {
            *vstd::slice::slice_index_get(self.file_name.as_slice(), n - 1) == 47u8
                && self.uncompressed_size == 0 && self.compressed_size == 0
        }
    }

    /// Reads up to `max` bytes of the bounded raw sub-stream. For the Stored
    /// method this is the decode itself, so the decoded count advances with
    /// it; for every other method the bytes are the still-compressed input to
    /// the surrounding decoder and the decoded count is untouched.
    pub fn read(&mut self, max: usize) -> (r: Vec<u8>)
        requires
            old(self).wf(),
        ensures
            final(self).wf(),
            final(self)@ == old(self)@,
            r@.len() == (if max as int <= old(self)@.data.len() - old(self).spec_data_pos() {
                max as int
            } else {
                old(self)@.data.len() - old(self).spec_data_pos()
            }),
            r@ == old(self)@.data.subrange(
                old(self).spec_data_pos(),
                old(self).spec_data_pos() + r@.len(),
            ),
            final(self).spec_data_pos() == old(self).spec_data_pos() + r@.len(),
            final(self).spec_bytes_read() == (if old(self)@.method == Compression::Stored {
                sat_add_u32(old(self).spec_bytes_read(), r@.len() as int)
            } else {
                old(self).spec_bytes_read()
            }),
    {
        let len = self.data.len();
        let remaining = len - self.data_pos;
        let n = if max <= remaining {
            max
        } else {
            remaining
        };
        let chunk = slice_to_vec(slice_subrange(self.data.as_slice(), self.data_pos, self.data_pos + n));
        self.data_pos = self.data_pos + n;
        if self.method == Compression::Stored {
            let nn = n as u32;
            if nn > 0xFFFF_FFFFu32 - self.bytes_read {
                self.bytes_read = 0xFFFF_FFFFu32;
            } else {
                self.bytes_read = self.bytes_read + nn;
            }
        }
        chunk
    }

    /// Records `n` more decoded bytes, saturating at the 32-bit limit. The
    /// surrounding decoder for the non-Stored methods reports its post-decode
    /// counts here, so `is_eof` and `consume` judge completion by decoded
    /// bytes for every method.
    pub fn add_bytes_read(&mut self, n: u32)
        requires
            old(self).wf(),
        ensures
            final(self).wf(),
            final(self)@ == old(self)@,
            final(self).spec_data_pos() == old(self).spec_data_pos(),
            final(self).spec_bytes_read() == sat_add_u32(old(self).spec_bytes_read(), n as int),
    {
        if n > 0xFFFF_FFFFu32 - self.bytes_read {
            self.bytes_read = 0xFFFF_FFFFu32;
        } else {
            self.bytes_read = self.bytes_read + n;
        }
    }

    /// Consumes the rest of the bounded sub-stream and discards it, then
    /// checks the authoritative completion signal: succeeds exactly when the
    /// decoded byte count has reached the declared uncompressed size, and
    /// reports a corrupt or truncated archive otherwise.
    pub fn consume(&mut self) -> (r: Result<(), ZipError>)
        requires
            old(self).wf(),
        ensures
            final(self).wf(),
            final(self)@ == old(self)@,
            final(self).spec_data_pos() == old(self)@.data.len(),
            final(self).spec_bytes_read() == (if old(self)@.method == Compression::Stored {
                sat_add_u32(
                    old(self).spec_bytes_read(),
                    old(self)@.data.len() - old(self).spec_data_pos(),
                )
            } else {
                old(self).spec_bytes_read()
            }),
            r == (if final(self).spec_bytes_read() == old(self)@.uncompressed_size {
                Ok::<(), ZipError>(())
            } else {
                Err::<(), ZipError>(ZipError::ReadFailed)
            }),
    {
        let len = self.data.len();
        let remaining = len - self.data_pos;
        let _discarded = self.read(remaining);
        if self.is_eof() {
            Ok(())
        } else {
            Err(ZipError::ReadFailed)
        }
    }
}

/// A stream reader bound to one forward-only, in-memory byte source,
/// handing out one entry at a time.
pub struct ZipStreamReader {
    source: Vec<u8>,
    pos: usize,
}

impl ZipStreamReader {
    /// The underlying byte source.
    pub closed spec fn spec_source(self) -> Seq<u8> {
        self.source@
    }

    /// The current read position.
    pub closed spec fn spec_pos(self) -> int {
        self.pos as int
    }

    pub open spec fn wf(self) -> bool {
        0 <= self.spec_pos() <= self.spec_source().len()
    }

    /// Constructs a reader positioned at the start of its source.
    pub fn new(source: Vec<u8>) -> (r: ZipStreamReader)
        ensures
            r.wf(),
            r.spec_source() == source@,
            r.spec_pos() == 0,
    {
        ZipStreamReader { source, pos: 0 }
    }

    /// Returns the next entry of the archive, `None` at the end-of-entries
    /// sentinel, or the error `spec_next_entry` assigns to the source at the
    /// current position. The caller must have drained any previously returned
    /// entry so the position sits exactly at the next marker; `consume`
    /// exists to make that easy.
    pub fn next_entry(&mut self) -> (r: Result<Option<ZipStreamFile>, ZipError>)
        requires
            old(self).wf(),
        ensures
            final(self).wf(),
            final(self).spec_source() == old(self).spec_source(),
            (match spec_next_entry(old(self).spec_source(), old(self).spec_pos()) {
                NextEntry::Fail(e, p) => r matches Err(e2) && e2 == e && final(self).spec_pos()
                    == p,
                NextEntry::Finished(p) => r matches Ok(o) && o is None && final(self).spec_pos()
                    == p,
                NextEntry::Entry(m, p) => r matches Ok(o) && o matches Some(f) && f@ == m
                    && f.fresh() && f.wf() && final(self).spec_pos() == p,
            }),
    {
        let src_len = self.source.len();
        let start = self.pos;
        if src_len - start < 4 {
            return Err(ZipError::ReadFailed);
        }
        let marker = get_u32_le(self.source.as_slice(), start);
        if marker == CDFHD {
            self.pos = start + 4;
            return Ok(None);
        }
        if marker != LFHD {
            self.pos = start + 4;
            return Err(ZipError::LocalFileHeaderError(marker));
        }
        if src_len - (start + 4) < 26 {
            self.pos = start + 4;
            return Err(ZipError::ReadFailed);
        }
        let hs = slice_subrange(self.source.as_slice(), start + 4, start + 30);
        let header = LocalFileHeader::from_slice(hs);
        if header.flags.encrypted {
            self.pos = start + 30;
            return Err(ZipError::FeatureNotSupported(Feature::Encryption));
        }
        if header.flags.data_descriptor {
            self.pos = start + 30;
            return Err(ZipError::FeatureNotSupported(Feature::DataDescriptors));
        }
        let nlen = header.file_name_length as usize;
        if src_len - (start + 30) < nlen {
            self.pos = start + 30;
            return Err(ZipError::ReadFailed);
        }
        let name_end = start + 30 + nlen;
        let file_name = slice_to_vec(slice_subrange(self.source.as_slice(), start + 30, name_end));
        let elen = header.extra_field_length as usize;
        if src_len - name_end < elen {
            self.pos = name_end;
            return Err(ZipError::ReadFailed);
        }
        let extra_end = name_end + elen;
        let extra = slice_to_vec(slice_subrange(self.source.as_slice(), name_end, extra_end));
        let method = match Compression::from_u16(header.compression) {
            Ok(m) => m,
            Err(e) => {
                self.pos = extra_end;
                return Err(e);
            },
        };
        let avail = src_len - extra_end;
        let csz = header.compressed_size as usize;
        let take = if csz <= avail {
            csz
        } else {
            avail
        };
        let data = slice_to_vec(slice_subrange(self.source.as_slice(), extra_end, extra_end + take));
        self.pos = extra_end + take;
        let f = ZipStreamFile {
            file_name,
            compressed_size: header.compressed_size,
            uncompressed_size: header.uncompressed_size,
            crc: header.crc,
            extra,
            last_modified: ZipDateTime::from_packed(header.mod_date, header.mod_time),
            method,
            data,
            data_pos: 0,
            bytes_read: 0,
        };
        Ok(Some(f))
    }
}

/// The local header of a Stored entry whose true sizes and checksum stand in
/// the header itself (no trailing descriptor).
pub open spec fn stored_header(
    name_len: int,
    extra_len: int,
    payload_len: int,
    crc: u32,
    mod_time: u16,
    mod_date: u16,
) -> LocalFileHeader {
    LocalFileHeader {
        version: 0,
        flags: GeneralPurposeFlag { encrypted: false, data_descriptor: false },
        compression: 0,
        mod_time,
        mod_date,
        crc,
        compressed_size: payload_len as u32,
        uncompressed_size: payload_len as u32,
        file_name_length: name_len as u16,
        extra_field_length: extra_len as u16,
    }
}

/// The complete wire image of one Stored entry framed with its true sizes:
/// marker, fixed header, filename, extra field, payload.
pub open spec fn plain_stored_entry_bytes(
    name: Seq<u8>,
    extra: Seq<u8>,
    payload: Seq<u8>,
    crc: u32,
    mod_time: u16,
    mod_date: u16,
) -> Seq<u8>
    recommends
        name.len() <= 0xFFFF,
        extra.len() <= 0xFFFF,
        payload.len() <= 0xFFFF_FFFF,
{
    spec_u32_to_le_bytes(LFHD) + stored_header(
        name.len() as int,
        extra.len() as int,
        payload.len() as int,
        crc,
        mod_time,
        mod_date,
    ).spec_to_bytes() + name + extra + payload
}

/// Law (round trip): an entry written with the Stored method and framed with
/// its recorded sizes and checksum parses back byte-identically — whatever
/// follows it in the stream — with exactly the framed payload, the framed
/// checksum, and the position left at the first byte after the payload.
pub proof fn lemma_stored_round_trip(
    name: Seq<u8>,
    extra: Seq<u8>,
    payload: Seq<u8>,
    crc: u32,
    mod_time: u16,
    mod_date: u16,
    rest: Seq<u8>,
)
    requires
        name.len() <= 0xFFFF,
        extra.len() <= 0xFFFF,
        payload.len() <= 0xFFFF_FFFF,
    ensures
        (spec_next_entry(plain_stored_entry_bytes(name, extra, payload, crc, mod_time, mod_date) + rest, 0)
            == NextEntry::Entry(
            EntryModel {
                file_name: name,
                compressed_size: payload.len() as u32,
                uncompressed_size: payload.len() as u32,
                crc,
                extra,
                last_modified: ZipDateTime::spec_from_packed(mod_date, mod_time),
                method: Compression::Stored,
                data: payload,
            },
            plain_stored_entry_bytes(name, extra, payload, crc, mod_time, mod_date).len() as int,
        )),
{
    lemma_auto_spec_u32_to_from_le_bytes();
    let h = stored_header(
        name.len() as int,
        extra.len() as int,
        payload.len() as int,
        crc,
        mod_time,
        mod_date,
    );
    lemma_header_round_trip(h);
    let b = plain_stored_entry_bytes(name, extra, payload, crc, mod_time, mod_date) + rest;
    assert(b.subrange(0, 4) =~= spec_u32_to_le_bytes(LFHD));
    assert(le32_at(b, 0) == LFHD);
    assert(b.subrange(4, 30) =~= h.spec_to_bytes());
    assert(LocalFileHeader::spec_parse(b.subrange(4, 30)) == h);
    let name_end = 30 + name.len() as int;
    let extra_end = name_end + extra.len() as int;
    assert(b.subrange(30, name_end) =~= name);
    assert(b.subrange(name_end, extra_end) =~= extra);
    assert(b.subrange(extra_end, extra_end + payload.len()) =~= payload);
}

/// Law (sequencing): what one `next_entry` step produces depends only on the
/// bytes from the current position on — never on the entries already read
/// past. With the round-trip law this lets whole streams compose: after one
/// entry is drained the reader sits exactly at the next marker, and parsing
/// there behaves as if the stream began there.
pub proof fn lemma_next_entry_shift(pre: Seq<u8>, suf: Seq<u8>)
    ensures
        (match (spec_next_entry(pre + suf, pre.len() as int), spec_next_entry(suf, 0)) {
            (NextEntry::Fail(e1, p1), NextEntry::Fail(e2, p2)) => e1 == e2 && p1 == pre.len()
                + p2,
            (NextEntry::Finished(p1), NextEntry::Finished(p2)) => p1 == pre.len() + p2,
            (NextEntry::Entry(m1, p1), NextEntry::Entry(m2, p2)) => m1 == m2 && p1 == pre.len()
                + p2,
            _ => false,
        }),
{
    let n = pre.len() as int;
    let src = pre + suf;
    if n + 4 <= src.len() {
        assert(src.subrange(n, n + 4) =~= suf.subrange(0, 4));
        let marker = le32_at(src, n);
        if marker == LFHD && n + 30 <= src.len() {
            assert(src.subrange(n + 4, n + 30) =~= suf.subrange(4, 30));
            let h = LocalFileHeader::spec_parse(src.subrange(n + 4, n + 30));
            let name_end = n + 30 + h.file_name_length;
            let extra_end = name_end + h.extra_field_length;
            if !h.flags.encrypted && !h.flags.data_descriptor && extra_end <= src.len() {
                assert(src.subrange(n + 30, name_end) =~= suf.subrange(30, name_end - n));
                assert(src.subrange(name_end, extra_end) =~= suf.subrange(
                    name_end - n,
                    extra_end - n,
                ));
                if Compression::spec_from_code(h.compression) is Some {
                    let take = if h.compressed_size <= src.len() - extra_end {
                        h.compressed_size as int
                    } else {
                        src.len() - extra_end
                    };
                    assert(src.subrange(extra_end, extra_end + take) =~= suf.subrange(
                        extra_end - n,
                        extra_end - n + take,
                    ));
                }
            }
        }
    }
}

/// Law (round trip, checksum): framed with the checksum an entry writer
/// records for a payload — the CRC-32 of the payload itself — the reader
/// hands back exactly that payload, carrying exactly that checksum.
pub proof fn lemma_stored_round_trip_checksum(
    name: Seq<u8>,
    extra: Seq<u8>,
    payload: Seq<u8>,
    mod_time: u16,
    mod_date: u16,
    rest: Seq<u8>,
)
    requires
        name.len() <= 0xFFFF,
        extra.len() <= 0xFFFF,
        payload.len() <= 0xFFFF_FFFF,
    ensures
        (match spec_next_entry(
            plain_stored_entry_bytes(name, extra, payload, crate::crc::crc32_of(payload), mod_time, mod_date)
                + rest,
            0,
        ) {
            NextEntry::Entry(m, _) => m.data == payload && m.crc == crate::crc::crc32_of(m.data)
                && m.file_name == name,
            _ => false,
        }),
{
    lemma_stored_round_trip(
        name,
        extra,
        payload,
        crate::crc::crc32_of(payload),
        mod_time,
        mod_date,
        rest,
    );
}

} // verus!
