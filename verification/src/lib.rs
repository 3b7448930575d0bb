//! Decoder for the binary Yale Bright Star Catalog (YBSC) file format.
//!
//! A catalog file is a 28-byte header followed by fixed 32-byte star
//! records. The decoder reads the header, derives the equinox and the
//! record count from it, then decodes every record, silently dropping
//! the blank slots (spectral type two spaces) and converting the rest
//! into canonical in-memory stars.
//!
//! IEEE-754 fields are carried as their bit patterns (`u32`/`u64`), so
//! the whole decode is plain integer and character work; turning a bit
//! pattern back into a floating-point value is left to the caller.

use vstd::prelude::*;

pub mod binary32;
pub mod catalog;
pub mod reader;

pub use catalog::{Entry, Equinox, IdType, RawEntry, RawHeader, Star, Ybsc};
pub use reader::ByteReader;

verus! {

/// Everything that can go wrong while decoding a catalog.
#[derive(Clone, Copy, Debug, PartialEq, Eq, Structural)]
pub enum DecodeError {
    /// The stream ended before a fixed-size field could be read whole.
    TruncatedInput,
    /// The header's bytes-per-entry field is not 32.
    BadEntrySize { nbent: i32 },
    /// The header's star-ID-type code is outside {0, 1, 2}.
    InvalidStnum { stnum: i32 },
    /// A record's catalog number is not a finite, non-negative value;
    /// `bits` is its raw IEEE-754 bit pattern.
    InvalidStarNumber { bits: u32 },
}

} // verus!
