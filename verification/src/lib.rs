//! A streaming codec for the ZIP archive format: sequential extraction of
//! entries from a forward-only byte source without a central directory, and
//! sequential construction of entries of unknown size into a byte sink,
//! deferring size and checksum recording until each entry closes.

pub mod compression;
pub mod crc;
pub mod date;
pub mod error;
pub mod header;
pub mod offset;
pub mod read;
pub mod wire;
pub mod write;
