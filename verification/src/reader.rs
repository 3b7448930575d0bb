//! An in-memory byte source with a cursor, and the primitive readers
//! that decode fixed-width little-endian values from it.

use vstd::prelude::*;

use crate::DecodeError;

verus! {

/// A byte stream backed by an owned buffer. Reads consume bytes by
/// advancing a cursor; a read past the end fails without moving it.
pub struct ByteReader {
    data: Vec<u8>,
    pos: usize,
}

impl ByteReader {
    /// The whole underlying buffer.
    pub closed spec fn data_seq(self) -> Seq<u8> {
        self.data@
    }

    /// The cursor: how many bytes have been consumed so far.
    pub closed spec fn pos(self) -> int {
        self.pos as int
    }

    /// The cursor never runs past the end of the buffer.
    pub open spec fn wf(self) -> bool {
        0 <= self.pos() <= self.data_seq().len()
    }

    /// How many bytes are left to read.
    pub open spec fn remaining(self) -> int {
        self.data_seq().len() - self.pos()
    }

    pub fn new(data: Vec<u8>) -> (r: Self)
        ensures
            r.wf(),
            r.data_seq() == data@,
            r.pos() == 0,
    {
        ByteReader { data, pos: 0 }
    }

    /// The current cursor, as a byte offset from the start of the buffer.
    pub fn position(&self) -> (p: usize)
        ensures
            p == self.pos(),
    {
        self.pos
    }
}

/// The unsigned value of the two little-endian bytes at `p`.
pub open spec fn le_u16_at(d: Seq<u8>, p: int) -> u16 {
    (d[p] + d[p + 1] * 0x100) as u16
}

/// The unsigned value of the four little-endian bytes at `p`.
pub open spec fn le_u32_at(d: Seq<u8>, p: int) -> u32 {
    (d[p] + d[p + 1] * 0x100 + d[p + 2] * 0x1_0000 + d[p + 3] * 0x100_0000) as u32
}

/// The unsigned value of the eight little-endian bytes at `p`.
pub open spec fn le_u64_at(d: Seq<u8>, p: int) -> u64 {
    (d[p] + d[p + 1] * 0x100 + d[p + 2] * 0x1_0000 + d[p + 3] * 0x100_0000
        + d[p + 4] * 0x1_0000_0000 + d[p + 5] * 0x100_0000_0000
        + d[p + 6] * 0x1_0000_0000_0000 + d[p + 7] * 0x100_0000_0000_0000) as u64
}

/// The two's-complement value of the two little-endian bytes at `p`.
pub open spec fn le_i16_at(d: Seq<u8>, p: int) -> i16 {
    le_u16_at(d, p) as i16
}

/// The two's-complement value of the four little-endian bytes at `p`.
pub open spec fn le_i32_at(d: Seq<u8>, p: int) -> i32 {
    le_u32_at(d, p) as i32
}

/// Reads one byte as a character (every single byte is a Unicode
/// scalar value, so this fails only on an exhausted stream).
pub fn read_char(r: &mut ByteReader) -> (res: Result<char, DecodeError>)
    requires
        old(r).wf(),
    ensures
        final(r).wf(),
        final(r).data_seq() == old(r).data_seq(),
        match res {
            Ok(c) => {
                &&& old(r).remaining() >= 1
                &&& c == (old(r).data_seq()[old(r).pos()] as char)
                &&& final(r).pos() == old(r).pos() + 1
            },
            Err(e) => {
                &&& old(r).remaining() < 1
                &&& e == DecodeError::TruncatedInput
                &&& final(r).pos() == old(r).pos()
            },
        },
{
    if r.data.len() - r.pos < 1 {
        return Err(DecodeError::TruncatedInput);
    }
    let b: u8 = r.data[r.pos];
    r.pos = r.pos + 1;
    Ok(b as char)
}

/// Reads a little-endian signed 16-bit integer.
pub fn read_i16(r: &mut ByteReader) -> (res: Result<i16, DecodeError>)
    requires
        old(r).wf(),
    ensures
        final(r).wf(),
        final(r).data_seq() == old(r).data_seq(),
        match res {
            Ok(v) => {
                &&& old(r).remaining() >= 2
                &&& v == le_i16_at(old(r).data_seq(), old(r).pos())
                &&& final(r).pos() == old(r).pos() + 2
            },
            Err(e) => {
                &&& old(r).remaining() < 2
                &&& e == DecodeError::TruncatedInput
                &&& final(r).pos() == old(r).pos()
            },
        },
{
    if r.data.len() - r.pos < 2 {
        return Err(DecodeError::TruncatedInput);
    }
    let b0: u16 = r.data[r.pos] as u16;
    let b1: u16 = r.data[r.pos + 1] as u16;
    r.pos = r.pos + 2;
    let v: u16 = b0 + b1 * 0x100;
    Ok(#[verifier::truncate] (v as i16))
}

/// Reads a little-endian unsigned 32-bit integer.
pub fn read_u32(r: &mut ByteReader) -> (res: Result<u32, DecodeError>)
    requires
        old(r).wf(),
    ensures
        final(r).wf(),
        final(r).data_seq() == old(r).data_seq(),
        match res {
            Ok(v) => {
                &&& old(r).remaining() >= 4
                &&& v == le_u32_at(old(r).data_seq(), old(r).pos())
                &&& final(r).pos() == old(r).pos() + 4
            },
            Err(e) => {
                &&& old(r).remaining() < 4
                &&& e == DecodeError::TruncatedInput
                &&& final(r).pos() == old(r).pos()
            },
        },
{
    if r.data.len() - r.pos < 4 {
        return Err(DecodeError::TruncatedInput);
    }
    let b0: u32 = r.data[r.pos] as u32;
    let b1: u32 = r.data[r.pos + 1] as u32;
    let b2: u32 = r.data[r.pos + 2] as u32;
    let b3: u32 = r.data[r.pos + 3] as u32;
    r.pos = r.pos + 4;
    Ok(b0 + b1 * 0x100 + b2 * 0x1_0000 + b3 * 0x100_0000)
}

/// Reads a little-endian signed 32-bit integer.
pub fn read_i32(r: &mut ByteReader) -> (res: Result<i32, DecodeError>)
    requires
        old(r).wf(),
    ensures
        final(r).wf(),
        final(r).data_seq() == old(r).data_seq(),
        match res {
            Ok(v) => {
                &&& old(r).remaining() >= 4
                &&& v == le_i32_at(old(r).data_seq(), old(r).pos())
                &&& final(r).pos() == old(r).pos() + 4
            },
            Err(e) => {
                &&& old(r).remaining() < 4
                &&& e == DecodeError::TruncatedInput
                &&& final(r).pos() == old(r).pos()
            },
        },
{
    match read_u32(r) {
        Ok(v) => Ok(#[verifier::truncate] (v as i32)),
        Err(e) => Err(e),
    }
}

/// Reads a little-endian unsigned 64-bit integer.
pub fn read_u64(r: &mut ByteReader) -> (res: Result<u64, DecodeError>)
    requires
        old(r).wf(),
    ensures
        final(r).wf(),
        final(r).data_seq() == old(r).data_seq(),
        match res {
            Ok(v) => {
                &&& old(r).remaining() >= 8
                &&& v == le_u64_at(old(r).data_seq(), old(r).pos())
                &&& final(r).pos() == old(r).pos() + 8
            },
            Err(e) => {
                &&& old(r).remaining() < 8
                &&& e == DecodeError::TruncatedInput
                &&& final(r).pos() == old(r).pos()
            },
        },
{
    if r.data.len() - r.pos < 8 {
        return Err(DecodeError::TruncatedInput);
    }
    let b0: u64 = r.data[r.pos] as u64;
    let b1: u64 = r.data[r.pos + 1] as u64;
    let b2: u64 = r.data[r.pos + 2] as u64;
    let b3: u64 = r.data[r.pos + 3] as u64;
    let b4: u64 = r.data[r.pos + 4] as u64;
    let b5: u64 = r.data[r.pos + 5] as u64;
    let b6: u64 = r.data[r.pos + 6] as u64;
    let b7: u64 = r.data[r.pos + 7] as u64;
    r.pos = r.pos + 8;
    Ok(b0 + b1 * 0x100 + b2 * 0x1_0000 + b3 * 0x100_0000 + b4 * 0x1_0000_0000
        + b5 * 0x100_0000_0000 + b6 * 0x1_0000_0000_0000 + b7 * 0x100_0000_0000_0000)
}

} // verus!
