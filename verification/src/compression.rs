use vstd::prelude::*;

use crate::error::ZipError;

verus! {

/// The closed set of compression methods an entry may use. A header's method
/// code selects exactly one of these; any other code is a hard error, never a
/// silent fallback.
#[derive(Clone, Copy, Debug, PartialEq, Eq, Structural)]
pub enum Compression {
    /// No transform.
    Stored,
    Deflate,
    Bz,
    Lzma,
    Zstd,
    Xz,
}

impl Compression {
    /// The numeric method code this method is written as in headers.
    pub open spec fn spec_code(self) -> u16 {
        match self {
            Compression::Stored => 0,
            Compression::Deflate => 8,
            Compression::Bz => 12,
            Compression::Lzma => 14,
            Compression::Zstd => 93,
            Compression::Xz => 95,
        }
    }

    /// The method a wire code selects, if the code is supported.
    pub open spec fn spec_from_code(code: u16) -> Option<Compression> {
        if code == 0 {
            Some(Compression::Stored)
        } else if code == 8 {
            Some(Compression::Deflate)
        } else if code == 12 {
            Some(Compression::Bz)
        } else if code == 14 {
            Some(Compression::Lzma)
        } else if code == 93 {
            Some(Compression::Zstd)
        } else if code == 95 {
            Some(Compression::Xz)
        } else {
            None
        }
    }

    /// Numeric method code, as written into headers.
    pub fn to_u16(self) -> (r: u16)
        ensures
            r == self.spec_code(),
    {
        match self {
            Compression::Stored => 0,
            Compression::Deflate => 8,
            Compression::Bz => 12,
            Compression::Lzma => 14,
            Compression::Zstd => 93,
            Compression::Xz => 95,
        }
    }

    /// Selects the method a header's code names; an unsupported code fails
    /// immediately with the offending value.
    pub fn from_u16(code: u16) -> (r: Result<Compression, ZipError>)
        ensures
            match Compression::spec_from_code(code) {
                Some(m) => r == Ok::<Compression, ZipError>(m),
                None => r == Err::<Compression, ZipError>(
                    ZipError::UnsupportedCompressionError(code),
                ),
            },
    {
        match code {
            0 => Ok(Compression::Stored),
            8 => Ok(Compression::Deflate),
            12 => Ok(Compression::Bz),
            14 => Ok(Compression::Lzma),
            93 => Ok(Compression::Zstd),
            95 => Ok(Compression::Xz),
            _ => Err(ZipError::UnsupportedCompressionError(code)),
        }
    }
}

/// Law: a supported method's own code always selects that method back.
pub proof fn lemma_compression_code_round_trip(m: Compression)
    ensures
        Compression::spec_from_code(m.spec_code()) == Some(m),
{
}

} // verus!
