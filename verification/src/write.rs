use vstd::prelude::*;

use vstd::bytes::{spec_u32_to_le_bytes, u32_to_le_bytes};

use crate::compression::Compression;
use crate::crc::{Crc32Hasher, crc32_of};
use crate::date::ZipDateTime;
use crate::header::{CentralDirectoryHeader, EntryOptions, GeneralPurposeFlag, LocalFileHeader};
use crate::offset::OffsetWriter;
use crate::wire::{DDD, LFHD};

verus! {

/// One record of the parent writer's append-only directory list: the
/// central directory header built at close time, together with the entry's
/// immutable options.
pub struct CentralDirectoryEntry {
    pub header: CentralDirectoryHeader,
    pub opts: EntryOptions,
}

/// The parent archive writer: it owns the byte sink (behind the counting
/// decorator) and the ordered, append-only list of directory records, one
/// per successfully closed entry writer. Serializing the complete central
/// directory and end-of-archive record belongs to the surrounding container,
/// not to this codec.
pub struct ZipFileWriter {
    writer: OffsetWriter,
    cd_entries: Vec<CentralDirectoryEntry>,
}

impl ZipFileWriter {
    /// Every byte written to the sink so far.
    pub closed spec fn spec_sink(self) -> Seq<u8> {
        self.writer.bytes()
    }

    /// The absolute output offset.
    pub closed spec fn spec_offset(self) -> int {
        self.writer.spec_offset()
    }

    /// The directory records appended so far.
    pub closed spec fn spec_entries(self) -> Seq<CentralDirectoryEntry> {
        self.cd_entries@
    }

    pub open spec fn wf(self) -> bool {
        self.spec_offset() == self.spec_sink().len()
    }

    /// A writer over an empty sink with an empty record list.
    pub fn new() -> (r: ZipFileWriter)
        ensures
            r.wf(),
            r.spec_sink() == Seq::<u8>::empty(),
            r.spec_offset() == 0,
            r.spec_entries() == Seq::<CentralDirectoryEntry>::empty(),
    {
        ZipFileWriter { writer: OffsetWriter::new(), cd_entries: Vec::new() }
    }

    /// The absolute output offset: the count of bytes written so far.
    pub fn offset(&self) -> (r: usize)
        ensures
            r == self.spec_offset(),
    {
        self.writer.offset()
    }

    /// A read-only view of everything written so far.
    pub fn sink(&self) -> (r: &Vec<u8>)
        ensures
            r@ == self.spec_sink(),
    {
        self.writer.bytes_ref()
    }

    /// A read-only view of the directory records collected so far.
    pub fn cd_entries(&self) -> (r: &Vec<CentralDirectoryEntry>)
        ensures
            r@ == self.spec_entries(),
    {
        &self.cd_entries
    }

    /// Hands the written bytes and the directory records over to the
    /// surrounding container for finalization.
    pub fn into_parts(self) -> (r: (Vec<u8>, Vec<CentralDirectoryEntry>))
        ensures
            r.0@ == self.spec_sink(),
            r.1@ == self.spec_entries(),
    {
        (self.writer.into_bytes(), self.cd_entries)
    }

    /// Opens a streaming entry writer for one entry. The parent is handed
    /// over for the entry's lifetime and comes back from `close`.
    pub fn write_entry_stream(self, options: EntryOptions) -> (r: EntryStreamWriter)
        requires
            self.wf(),
            options.fits(),
            self.spec_offset() <= 0xFFFF_FFFF,
        ensures
            r.wf(),
            r.opened_on(self, options),
    {
        EntryStreamWriter::from_raw(self, options)
    }
}

/// An entry writer that streams one entry of unknown size: a placeholder
/// header goes out immediately with zeroed sizes and the `data_descriptor`
/// flag set, payload is streamed through the checksum accumulator and the
/// counting sink, and `close` finalizes checksum and sizes, emits the
/// trailing descriptor and appends the entry's directory record.
///
/// `close` consumes the writer, so a second close — or any write after
/// close — is statically impossible. Discarding the writer without calling
/// `close` leaves the archive corrupt; that is the caller's obligation.
pub struct EntryStreamWriter {
    parent: ZipFileWriter,
    options: EntryOptions,
    hasher: Crc32Hasher,
    lfh: LocalFileHeader,
    lfh_offset: usize,
    data_offset: usize,
    uncompressed_count: u32,
}

impl EntryStreamWriter {
    /// Every byte written to the sink so far, placeholder header included.
    pub closed spec fn spec_sink(self) -> Seq<u8> {
        self.parent.spec_sink()
    }

    /// The absolute output offset.
    pub closed spec fn spec_offset(self) -> int {
        self.parent.spec_offset()
    }

    /// The parent's directory records.
    pub closed spec fn spec_entries(self) -> Seq<CentralDirectoryEntry> {
        self.parent.spec_entries()
    }

    /// The uncompressed payload recorded so far, in order.
    pub closed spec fn spec_payload(self) -> Seq<u8> {
        self.hasher.bytes()
    }

    /// The placeholder local header this entry opened with.
    pub closed spec fn spec_lfh(self) -> LocalFileHeader {
        self.lfh
    }

    /// Absolute offset of the entry's local header.
    pub closed spec fn spec_lfh_offset(self) -> int {
        self.lfh_offset as int
    }

    /// Absolute offset where the entry's payload begins.
    pub closed spec fn spec_data_offset(self) -> int {
        self.data_offset as int
    }

    /// The running count of uncompressed payload bytes.
    pub closed spec fn spec_uncompressed(self) -> u32 {
        self.uncompressed_count
    }

    pub closed spec fn spec_filename(self) -> Seq<u8> {
        self.options.filename@
    }

    pub closed spec fn spec_extra(self) -> Seq<u8> {
        self.options.extra@
    }

    pub closed spec fn spec_comment(self) -> Seq<u8> {
        self.options.comment@
    }

    /// The compression method selected for this entry.
    pub closed spec fn spec_method(self) -> Compression {
        self.options.compression
    }

    pub open spec fn wf(self) -> bool {
        &&& self.spec_offset() == self.spec_sink().len()
        &&& 0 <= self.spec_lfh_offset() <= self.spec_data_offset() <= self.spec_offset()
        &&& self.spec_lfh_offset() <= 0xFFFF_FFFF
        &&& self.spec_offset() - self.spec_data_offset() <= 0xFFFF_FFFF
        &&& self.spec_payload().len() == self.spec_uncompressed()
        &&& self.spec_comment().len() <= 0xFFFF
    }

    /// The static identity an entry writer keeps from open to close.
    pub open spec fn same_static(self, other: EntryStreamWriter) -> bool {
        &&& other.spec_lfh() == self.spec_lfh()
        &&& other.spec_lfh_offset() == self.spec_lfh_offset()
        &&& other.spec_data_offset() == self.spec_data_offset()
        &&& other.spec_filename() == self.spec_filename()
        &&& other.spec_extra() == self.spec_extra()
        &&& other.spec_comment() == self.spec_comment()
        &&& other.spec_method() == self.spec_method()
        &&& other.spec_entries() == self.spec_entries()
    }

    /// What opening an entry on `parent` with `options` establishes: the
    /// placeholder header with zeroed sizes and the descriptor flag has gone
    /// out, the two absolute offsets are recorded, and nothing has been
    /// recorded as payload yet.
    pub open spec fn opened_on(self, parent: ZipFileWriter, options: EntryOptions) -> bool {
        &&& self.spec_entries() == parent.spec_entries()
        &&& self.spec_payload() == Seq::<u8>::empty()
        &&& self.spec_uncompressed() == 0
        &&& self.spec_filename() == options.filename@
        &&& self.spec_extra() == options.extra@
        &&& self.spec_comment() == options.comment@
        &&& self.spec_method() == options.compression
        &&& self.spec_lfh_offset() == parent.spec_offset()
        &&& self.spec_data_offset() == self.spec_lfh_offset() + 30 + options.filename@.len()
            + options.extra@.len()
        &&& self.spec_offset() == self.spec_data_offset()
        &&& self.spec_lfh().version == 0
        &&& self.spec_lfh().flags == (GeneralPurposeFlag { encrypted: false, data_descriptor: true })
        &&& self.spec_lfh().compression == options.compression.spec_code()
        &&& self.spec_lfh().crc == 0
        &&& self.spec_lfh().compressed_size == 0
        &&& self.spec_lfh().uncompressed_size == 0
        &&& self.spec_lfh().file_name_length == options.filename@.len()
        &&& self.spec_lfh().extra_field_length == options.extra@.len()
        &&& self.spec_sink() == parent.spec_sink() + spec_u32_to_le_bytes(LFHD)
            + self.spec_lfh().spec_to_bytes() + options.filename@ + options.extra@
    }

    /// Opens an entry: serializes the placeholder local header immediately
    /// and records the header and payload offsets. The modification
    /// timestamp is the current moment, clamped into the packed range.
    pub fn from_raw(parent: ZipFileWriter, options: EntryOptions) -> (r: EntryStreamWriter)
        requires
            parent.wf(),
            options.fits(),
            parent.spec_offset() <= 0xFFFF_FFFF,
        ensures
            r.wf(),
            r.opened_on(parent, options),
    {
        let ghost parent0 = parent;
        let mut parent = parent;
        let lfh_offset = parent.writer.offset();
        let dt = ZipDateTime::now();
        let (mod_time, mod_date) = dt.to_packed();
        let lfh = LocalFileHeader {
            version: 0,
            flags: GeneralPurposeFlag { encrypted: false, data_descriptor: true },
            compression: options.compression.to_u16(),
            mod_time,
            mod_date,
            crc: 0,
            compressed_size: 0,
            uncompressed_size: 0,
            file_name_length: options.filename.len() as u16,
            extra_field_length: options.extra.len() as u16,
        };
        let magic = u32_to_le_bytes(LFHD);
        parent.writer.write(magic.as_slice());
        let hbytes = lfh.to_bytes();
        parent.writer.write(hbytes.as_slice());
        parent.writer.write(options.filename.as_slice());
        parent.writer.write(options.extra.as_slice());
        let data_offset = parent.writer.offset();
        let r = EntryStreamWriter {
            parent,
            options,
            hasher: Crc32Hasher::new(),
            lfh,
            lfh_offset,
            data_offset,
            uncompressed_count: 0,
        };
        proof {
            assert(r.spec_sink() =~= parent0.spec_sink() + spec_u32_to_le_bytes(LFHD)
                + lfh.spec_to_bytes() + r.options.filename@ + r.options.extra@);
        }
        r
    }

    /// Routes a payload chunk into the running checksum and the uncompressed
    /// byte count — the pre-encode side of a write. The encoded bytes that
    /// actually reach the sink go through `write_encoded`.
    pub fn record_payload(&mut self, data: &[u8])
        requires
            old(self).wf(),
            old(self).spec_uncompressed() + data@.len() <= 0xFFFF_FFFF,
        ensures
            final(self).wf(),
            old(self).same_static(*final(self)),
            final(self).spec_payload() == old(self).spec_payload() + data@,
            final(self).spec_uncompressed() == old(self).spec_uncompressed() + data@.len(),
            final(self).spec_sink() == old(self).spec_sink(),
            final(self).spec_offset() == old(self).spec_offset(),
    {
        self.hasher.update(data);
        self.uncompressed_count = self.uncompressed_count + (data.len() as u32);
    }

    /// Forwards already-encoded bytes into the counting sink — the
    /// post-encode side of a write.
    pub fn write_encoded(&mut self, data: &[u8])
        requires
            old(self).wf(),
            old(self).spec_offset() - old(self).spec_data_offset() + data@.len() <= 0xFFFF_FFFF,
        ensures
            final(self).wf(),
            old(self).same_static(*final(self)),
            final(self).spec_payload() == old(self).spec_payload(),
            final(self).spec_uncompressed() == old(self).spec_uncompressed(),
            final(self).spec_sink() == old(self).spec_sink() + data@,
            final(self).spec_offset() == old(self).spec_offset() + data@.len(),
    {
        self.parent.writer.write(data);
    }

    /// Writes a payload chunk of a Stored entry: the identity encode, so the
    /// same bytes feed the checksum accumulator and the sink. Entries using
    /// the other methods stream their encoder's output through
    /// `write_encoded` instead.
    pub fn write(&mut self, data: &[u8])
        requires
            old(self).wf(),
            old(self).spec_method() == Compression::Stored,
            old(self).spec_uncompressed() + data@.len() <= 0xFFFF_FFFF,
            old(self).spec_offset() - old(self).spec_data_offset() + data@.len() <= 0xFFFF_FFFF,
        ensures
            final(self).wf(),
            old(self).same_static(*final(self)),
            final(self).spec_payload() == old(self).spec_payload() + data@,
            final(self).spec_uncompressed() == old(self).spec_uncompressed() + data@.len(),
            final(self).spec_sink() == old(self).spec_sink() + data@,
            final(self).spec_offset() == old(self).spec_offset() + data@.len(),
    {
        self.record_payload(data);
        self.write_encoded(data);
    }

    /// The absolute output offset: the count of bytes the sink has taken,
    /// this entry's placeholder header included.
    pub fn offset(&self) -> (r: usize)
        ensures
            r == self.spec_offset(),
    {
        self.parent.offset()
    }

    /// The compression method selected for this entry.
    pub fn compression(&self) -> (r: Compression)
        ensures
            r == self.spec_method(),
    {
        self.options.compression
    }

    /// The running count of uncompressed payload bytes recorded so far.
    pub fn uncompressed_count(&self) -> (r: u32)
        ensures
            r == self.spec_uncompressed(),
    {
        self.uncompressed_count
    }

    /// The count of encoded bytes the sink has taken for this entry so far.
    pub fn compressed_span(&self) -> (r: usize)
        requires
            self.wf(),
        ensures
            r == self.spec_offset() - self.spec_data_offset(),
    {
        self.parent.offset() - self.data_offset
    }

    /// Closes the entry exactly once — the writer is consumed, so further
    /// operations on it are statically impossible. Finalizes the CRC-32 of
    /// the recorded payload, computes the compressed size from the offset
    /// difference across the payload, writes the trailing descriptor, and
    /// appends the entry's central directory record before handing the
    /// parent back.
    pub fn close(self) -> (r: ZipFileWriter)
        requires
            self.wf(),
        ensures
            r.wf(),
            ({
                let crc = crc32_of(self.spec_payload());
                let csize = (self.spec_offset() - self.spec_data_offset()) as u32;
                &&& r.spec_sink() == self.spec_sink() + spec_u32_to_le_bytes(DDD)
                    + spec_u32_to_le_bytes(crc) + spec_u32_to_le_bytes(csize)
                    + spec_u32_to_le_bytes(self.spec_uncompressed())
                &&& r.spec_offset() == self.spec_offset() + 16
                &&& r.spec_entries() == self.spec_entries().push(r.spec_entries().last())
                &&& r.spec_entries().last().header == (CentralDirectoryHeader {
                    v_made_by: 0,
                    v_needed: 0,
                    flags: self.spec_lfh().flags,
                    compression: self.spec_lfh().compression,
                    mod_time: self.spec_lfh().mod_time,
                    mod_date: self.spec_lfh().mod_date,
                    crc,
                    compressed_size: csize,
                    uncompressed_size: self.spec_uncompressed(),
                    file_name_length: self.spec_lfh().file_name_length,
                    extra_field_length: self.spec_lfh().extra_field_length,
                    file_comment_length: self.spec_comment().len() as u16,
                    disk_start: 0,
                    inter_attr: 0,
                    exter_attr: 0,
                    lh_offset: self.spec_lfh_offset() as u32,
                })
                &&& r.spec_entries().last().opts.filename@ == self.spec_filename()
                &&& r.spec_entries().last().opts.extra@ == self.spec_extra()
                &&& r.spec_entries().last().opts.comment@ == self.spec_comment()
                &&& r.spec_entries().last().opts.compression == self.spec_method()
            }),
    {
        let EntryStreamWriter {
            mut parent,
            options,
            hasher,
            lfh,
            lfh_offset,
            data_offset,
            uncompressed_count,
        } = self;
        let crc = hasher.finalize();
        let uncompressed_size = uncompressed_count;
        let cur = parent.writer.offset();
        let compressed_size = (cur - data_offset) as u32;
        let magic = u32_to_le_bytes(DDD);
        parent.writer.write(magic.as_slice());
        let crcb = u32_to_le_bytes(crc);
        parent.writer.write(crcb.as_slice());
        let csb = u32_to_le_bytes(compressed_size);
        parent.writer.write(csb.as_slice());
        let usb = u32_to_le_bytes(uncompressed_size);
        parent.writer.write(usb.as_slice());
        let cdh = CentralDirectoryHeader {
            v_made_by: 0,
            v_needed: 0,
            flags: lfh.flags,
            compression: lfh.compression,
            mod_time: lfh.mod_time,
            mod_date: lfh.mod_date,
            crc,
            compressed_size,
            uncompressed_size,
            file_name_length: lfh.file_name_length,
            extra_field_length: lfh.extra_field_length,
            file_comment_length: options.comment.len() as u16,
            disk_start: 0,
            inter_attr: 0,
            exter_attr: 0,
            lh_offset: lfh_offset as u32,
        };
        parent.cd_entries.push(CentralDirectoryEntry { header: cdh, opts: options });
        proof {
            assert(parent.spec_sink() =~= self.spec_sink() + spec_u32_to_le_bytes(DDD)
                + spec_u32_to_le_bytes(crc) + spec_u32_to_le_bytes(compressed_size)
                + spec_u32_to_le_bytes(uncompressed_size));
        }
        parent
    }
}

} // verus!
