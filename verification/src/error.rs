use vstd::prelude::*;

verus! {

/// A wire-format feature this crate recognises but deliberately does not support.
#[derive(Clone, Copy, Debug, PartialEq, Eq, Structural)]
pub enum Feature {
    /// Entry payload encryption.
    Encryption,
    /// Entries whose true sizes trail the payload in a data descriptor,
    /// on the read side.
    DataDescriptors,
}

impl Feature {
    /// Human-readable name of the feature, for diagnostics.
    pub fn name(&self) -> (r: &'static str) {
        match self {
            Feature::Encryption => "file encryption",
            Feature::DataDescriptors => "file data descriptors",
        }
    }
}

/// Errors surfaced by the streaming codec. Every error is terminal for the
/// current operation; there is no internal retry.
#[derive(Clone, Copy, Debug, PartialEq, Eq, Structural)]
pub enum ZipError {
    /// An I/O failure or a short read while parsing.
    ReadFailed,
    /// A 4-byte marker other than the expected delimiters, carrying the
    /// value actually found.
    LocalFileHeaderError(u32),
    /// A compression method code outside the supported set, carrying the
    /// offending code.
    UnsupportedCompressionError(u16),
    /// A recognised but unsupported wire-format feature.
    FeatureNotSupported(Feature),
}

} // verus!
