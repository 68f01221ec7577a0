use vstd::prelude::*;

verus! {

/// Declares crc32fast's hasher type so that a field can hold one.
#[verifier::external_type_specification]
#[verifier::external_body]
pub struct ExHasher(crc32fast::Hasher);

/// The CRC-32 (IEEE) checksum crc32fast computes over a byte sequence;
/// a function of the bytes alone.
pub uninterp spec fn crc32_of(data: Seq<u8>) -> u32;

/// Relies on crc32fast::Hasher::new to produce a hasher that has absorbed
/// nothing; nothing further is promised of the bare value.
#[verifier::external_body]
fn raw_new_hasher() -> crc32fast::Hasher {
    crc32fast::Hasher::new()
}

/// A running checksum accumulator: crc32fast's hasher, tracked together with
/// the sequence of bytes it has absorbed so far. The two constructors below
/// are the only code that touches the pair, so the hasher has always absorbed
/// exactly `bytes()`.
pub(crate) struct Crc32Hasher {
    inner: crc32fast::Hasher,
    processed: Ghost<Seq<u8>>,
}

impl Crc32Hasher {
    /// The bytes absorbed so far.
    pub(crate) closed spec fn bytes(self) -> Seq<u8> {
        self.processed@
    }

    /// A fresh accumulator that has absorbed nothing.
    pub(crate) fn new() -> (r: Crc32Hasher)
        ensures
            r.bytes() == Seq::<u8>::empty(),
    {
        Crc32Hasher { inner: raw_new_hasher(), processed: Ghost(Seq::empty()) }
    }

    /// Relies on crc32fast::Hasher::update: absorbs the buffer after
    /// everything absorbed before.
    #[verifier::external_body]
    pub(crate) fn update(&mut self, buf: &[u8])
        ensures
            final(self).bytes() == old(self).bytes() + buf@,
    {
        self.inner.update(buf);
    }

    /// Relies on crc32fast::Hasher::finalize: returns the CRC-32 checksum of
    /// exactly the bytes absorbed, in absorption order.
    #[verifier::external_body]
    pub(crate) fn finalize(self) -> (r: u32)
        ensures
            r == crc32_of(self.bytes()),
    {
        self.inner.finalize()
    }
}

} // verus!
