use vstd::prelude::*;

use crate::wire::append_bytes;

verus! {

/// A pass-through byte sink that forwards every write unchanged into its
/// buffer while keeping a monotonic count of the bytes forwarded.
///
/// The writer stack uses this twice: to learn an entry's true compressed
/// size by diffing offsets across the encoder boundary, and to know each
/// entry's absolute header offset for its directory record.
pub struct OffsetWriter {
    buf: Vec<u8>,
    offset: usize,
}

impl OffsetWriter {
    /// All bytes forwarded so far, in order.
    pub closed spec fn bytes(self) -> Seq<u8> {
        self.buf@
    }

    /// The reported byte count.
    pub closed spec fn spec_offset(self) -> int {
        self.offset as int
    }

    /// The count always equals the total number of bytes forwarded,
    /// independently of how many writes delivered them.
    pub open spec fn wf(self) -> bool {
        self.spec_offset() == self.bytes().len()
    }

    pub fn new() -> (r: OffsetWriter)
        ensures
            r.wf(),
            r.bytes() == Seq::<u8>::empty(),
            r.spec_offset() == 0,
    {
        OffsetWriter { buf: Vec::new(), offset: 0 }
    }

    /// The number of bytes forwarded so far.
    pub fn offset(&self) -> (r: usize)
        ensures
            r == self.spec_offset(),
    {
        self.offset
    }

    /// Forwards `data` unchanged and counts it.
    pub fn write(&mut self, data: &[u8])
        requires
            old(self).wf(),
        ensures
            final(self).wf(),
            final(self).bytes() == old(self).bytes() + data@,
            final(self).spec_offset() == old(self).spec_offset() + data@.len(),
    {
        append_bytes(&mut self.buf, data);
        self.offset = self.buf.len();
    }

    /// A read-only view of everything forwarded.
    pub fn bytes_ref(&self) -> (r: &Vec<u8>)
        ensures
            r@ == self.bytes(),
    {
        &self.buf
    }

    /// Hands the forwarded bytes over.
    pub fn into_bytes(self) -> (r: Vec<u8>)
        ensures
            r@ == self.bytes(),
    {
        self.buf
    }
}

/// The count reported after forwarding each chunk in turn, starting from a
/// count of `off`.
pub open spec fn offset_after(off: int, chunks: Seq<Seq<u8>>) -> int
    decreases chunks.len(),
{
    if chunks.len() == 0 {
        off
    } else {
        offset_after(off + chunks.first().len(), chunks.drop_first())
    }
}

/// Law (offset decorator): the reported count depends only on the total
/// number of bytes forwarded, never on how many writes delivered them — one
/// hundred bytes in a single write and the same bytes in ten writes of ten
/// report the identical total.
pub proof fn lemma_offset_ignores_chunking(off: int, chunks: Seq<Seq<u8>>)
    ensures
        offset_after(off, chunks) == off + chunks.flatten().len(),
    decreases chunks.len(),
{
    if chunks.len() == 0 {
        assert(chunks.flatten() =~= Seq::<u8>::empty());
    } else {
        lemma_offset_ignores_chunking(off + chunks.first().len(), chunks.drop_first());
    }
}

} // verus!
