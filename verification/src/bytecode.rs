//! The sequential byte cursor.
//!
//! `ByteCode` owns a byte buffer and a read position.  Every read primitive
//! assembles little-endian integers by explicit byte arithmetic, advances the
//! position by exactly the number of bytes read, and fails with a
//! `Truncated` error (never undefined behaviour) when fewer bytes remain
//! than the read requires.  Each primitive is specified against a spec-level
//! read function over the underlying byte sequence, so that the grammar of
//! every composite decoder can be stated as a mathematical function of the
//! buffer alone.

use vstd::prelude::*;

use crate::error::{spec_err, DecodeError, DecodeErrorKind};

verus! {

/// A byte buffer with a strictly advancing read position.
#[derive(Debug)]
pub struct ByteCode {
    bytes: Vec<u8>,
    idx: usize,
}

/// Reads the byte at `pos`, advancing by one.
pub open spec fn spec_read_u8(bytes: Seq<u8>, pos: int) -> Result<(u8, int), DecodeError> {
    if 0 <= pos && pos + 1 <= bytes.len() {
        Ok((bytes[pos], pos + 1))
    } else {
        Err(spec_err(DecodeErrorKind::Truncated, pos))
    }
}

/// Reads two bytes at `pos` as a little-endian unsigned integer.
pub open spec fn spec_read_u16(bytes: Seq<u8>, pos: int) -> Result<(u16, int), DecodeError> {
    if 0 <= pos && pos + 2 <= bytes.len() {
        Ok(
            (
                ((bytes[pos] as int) + (bytes[pos + 1] as int) * 0x100) as u16,
                pos + 2,
            ),
        )
    } else {
        Err(spec_err(DecodeErrorKind::Truncated, pos))
    }
}

/// Reads four bytes at `pos` as a little-endian unsigned integer.
pub open spec fn spec_read_u32(bytes: Seq<u8>, pos: int) -> Result<(u32, int), DecodeError> {
    if 0 <= pos && pos + 4 <= bytes.len() {
        Ok(
            (
                ((bytes[pos] as int) + (bytes[pos + 1] as int) * 0x100 + (bytes[pos + 2] as int)
                    * 0x1_0000 + (bytes[pos + 3] as int) * 0x100_0000) as u32,
                pos + 4,
            ),
        )
    } else {
        Err(spec_err(DecodeErrorKind::Truncated, pos))
    }
}

/// Reads eight bytes at `pos` as a little-endian unsigned integer.
pub open spec fn spec_read_u64(bytes: Seq<u8>, pos: int) -> Result<(u64, int), DecodeError> {
    if 0 <= pos && pos + 8 <= bytes.len() {
        Ok(
            (
                ((bytes[pos] as int) + (bytes[pos + 1] as int) * 0x100 + (bytes[pos + 2] as int)
                    * 0x1_0000 + (bytes[pos + 3] as int) * 0x100_0000 + (bytes[pos + 4] as int)
                    * 0x1_0000_0000 + (bytes[pos + 5] as int) * 0x100_0000_0000 + (bytes[pos
                    + 6] as int) * 0x1_0000_0000_0000 + (bytes[pos + 7] as int)
                    * 0x100_0000_0000_0000) as u64,
                pos + 8,
            ),
        )
    } else {
        Err(spec_err(DecodeErrorKind::Truncated, pos))
    }
}

/// Reads sixteen bytes at `pos` as a little-endian unsigned integer.
pub open spec fn spec_read_u128(bytes: Seq<u8>, pos: int) -> Result<(u128, int), DecodeError> {
    if 0 <= pos && pos + 16 <= bytes.len() {
        Ok(
            (
                ((bytes[pos] as int) + (bytes[pos + 1] as int) * 0x100 + (bytes[pos + 2] as int)
                    * 0x1_0000 + (bytes[pos + 3] as int) * 0x100_0000 + (bytes[pos + 4] as int)
                    * 0x1_0000_0000 + (bytes[pos + 5] as int) * 0x100_0000_0000 + (bytes[pos
                    + 6] as int) * 0x1_0000_0000_0000 + (bytes[pos + 7] as int)
                    * 0x100_0000_0000_0000 + (bytes[pos + 8] as int) * 0x1_0000_0000_0000_0000 + (
                bytes[pos + 9] as int) * 0x100_0000_0000_0000_0000 + (bytes[pos + 10] as int)
                    * 0x1_0000_0000_0000_0000_0000 + (bytes[pos + 11] as int)
                    * 0x100_0000_0000_0000_0000_0000 + (bytes[pos + 12] as int)
                    * 0x1_0000_0000_0000_0000_0000_0000 + (bytes[pos + 13] as int)
                    * 0x100_0000_0000_0000_0000_0000_0000 + (bytes[pos + 14] as int)
                    * 0x1_0000_0000_0000_0000_0000_0000_0000 + (bytes[pos + 15] as int)
                    * 0x100_0000_0000_0000_0000_0000_0000_0000) as u128,
                pos + 16,
            ),
        )
    } else {
        Err(spec_err(DecodeErrorKind::Truncated, pos))
    }
}

/// The two's-complement reading of an 8-bit unsigned value.
pub open spec fn spec_to_i8(v: u8) -> i8 {
    if v < 0x80 {
        v as i8
    } else {
        (v - 0x100) as i8
    }
}

/// The two's-complement reading of a 16-bit unsigned value.
pub open spec fn spec_to_i16(v: u16) -> i16 {
    if v < 0x8000 {
        v as i16
    } else {
        (v - 0x1_0000) as i16
    }
}

/// The two's-complement reading of a 32-bit unsigned value.
pub open spec fn spec_to_i32(v: u32) -> i32 {
    if v < 0x8000_0000 {
        v as i32
    } else {
        (v - 0x1_0000_0000) as i32
    }
}

/// The two's-complement reading of a 64-bit unsigned value.
pub open spec fn spec_to_i64(v: u64) -> i64 {
    if v < 0x8000_0000_0000_0000 {
        v as i64
    } else {
        (v - 0x1_0000_0000_0000_0000) as i64
    }
}

/// The two's-complement reading of a 128-bit unsigned value.
pub open spec fn spec_to_i128(v: u128) -> i128 {
    if v < 0x8000_0000_0000_0000_0000_0000_0000_0000 {
        v as i128
    } else {
        (v - 0x1_0000_0000_0000_0000_0000_0000_0000_0000) as i128
    }
}

/// Reads one byte at `pos` as a signed integer.
pub open spec fn spec_read_i8(bytes: Seq<u8>, pos: int) -> Result<(i8, int), DecodeError> {
    match spec_read_u8(bytes, pos) {
        Ok(vp) => Ok((spec_to_i8(vp.0), vp.1)),
        Err(e) => Err(e),
    }
}

/// Reads two bytes at `pos` as a little-endian signed integer.
pub open spec fn spec_read_i16(bytes: Seq<u8>, pos: int) -> Result<(i16, int), DecodeError> {
    match spec_read_u16(bytes, pos) {
        Ok(vp) => Ok((spec_to_i16(vp.0), vp.1)),
        Err(e) => Err(e),
    }
}

/// Reads four bytes at `pos` as a little-endian signed integer.
pub open spec fn spec_read_i32(bytes: Seq<u8>, pos: int) -> Result<(i32, int), DecodeError> {
    match spec_read_u32(bytes, pos) {
        Ok(vp) => Ok((spec_to_i32(vp.0), vp.1)),
        Err(e) => Err(e),
    }
}

/// Reads eight bytes at `pos` as a little-endian signed integer.
pub open spec fn spec_read_i64(bytes: Seq<u8>, pos: int) -> Result<(i64, int), DecodeError> {
    match spec_read_u64(bytes, pos) {
        Ok(vp) => Ok((spec_to_i64(vp.0), vp.1)),
        Err(e) => Err(e),
    }
}

/// Reads sixteen bytes at `pos` as a little-endian signed integer.
pub open spec fn spec_read_i128(bytes: Seq<u8>, pos: int) -> Result<(i128, int), DecodeError> {
    match spec_read_u128(bytes, pos) {
        Ok(vp) => Ok((spec_to_i128(vp.0), vp.1)),
        Err(e) => Err(e),
    }
}

/// Reads `n` bytes starting at `pos`.
pub open spec fn spec_read_n(bytes: Seq<u8>, pos: int, n: int) -> Result<
    (Seq<u8>, int),
    DecodeError,
> {
    if 0 <= pos && 0 <= n && pos + n <= bytes.len() {
        Ok((bytes.subrange(pos, pos + n), pos + n))
    } else {
        Err(spec_err(DecodeErrorKind::Truncated, pos))
    }
}

/// The byte at `pos`, without advancing.
pub open spec fn spec_peek(bytes: Seq<u8>, pos: int) -> Result<u8, DecodeError> {
    if 0 <= pos && pos + 1 <= bytes.len() {
        Ok(bytes[pos])
    } else {
        Err(spec_err(DecodeErrorKind::Truncated, pos))
    }
}

impl ByteCode {
    /// The underlying byte sequence; it never changes after construction.
    pub closed spec fn data(&self) -> Seq<u8> {
        self.bytes@
    }

    /// The current read position.
    pub closed spec fn pos(&self) -> int {
        self.idx as int
    }

    /// The position never runs past the end of the buffer.
    pub open spec fn wf(&self) -> bool {
        0 <= self.pos() <= self.data().len()
    }

    /// A fresh cursor over `bytes`, positioned at the start.
    pub fn new(bytes: Vec<u8>) -> (r: Self)
        ensures
            r.wf(),
            r.data() == bytes@,
            r.pos() == 0,
    {
        Self { bytes, idx: 0 }
    }

    /// The current read position as a byte offset.
    pub fn position(&self) -> (r: usize)
        ensures
            r as int == self.pos(),
    {
        self.idx
    }

    /// The next unread byte, without advancing.
    pub fn peek(&self) -> (r: Result<u8, DecodeError>)
        requires
            self.wf(),
        ensures
            r == spec_peek(self.data(), self.pos()),
    {
        if self.idx < self.bytes.len() {
            Ok(self.bytes[self.idx])
        } else {
            Err(DecodeError { kind: DecodeErrorKind::Truncated, offset: self.idx })
        }
    }

    /// Reads one byte as an unsigned integer.
    pub fn read_u8(&mut self) -> (r: Result<u8, DecodeError>)
        requires
            old(self).wf(),
        ensures
            final(self).wf(),
            final(self).data() == old(self).data(),
            match spec_read_u8(old(self).data(), old(self).pos()) {
                Ok(vp) => r == Ok::<u8, DecodeError>(vp.0) && final(self).pos() == vp.1,
                Err(e) => r == Err::<u8, DecodeError>(e) && final(self).pos() == old(self).pos(),
            },
    {
        if self.bytes.len() - self.idx >= 1 {
            let b = self.bytes[self.idx];
            self.idx = self.idx + 1;
            Ok(b)
        } else {
            Err(DecodeError { kind: DecodeErrorKind::Truncated, offset: self.idx })
        }
    }

    /// Reads two bytes as an unsigned integer in little-endian order.
    pub fn read_u16(&mut self) -> (r: Result<u16, DecodeError>)
        requires
            old(self).wf(),
        ensures
            final(self).wf(),
            final(self).data() == old(self).data(),
            match spec_read_u16(old(self).data(), old(self).pos()) {
                Ok(vp) => r == Ok::<u16, DecodeError>(vp.0) && final(self).pos() == vp.1,
                Err(e) => r == Err::<u16, DecodeError>(e) && final(self).pos() == old(self).pos(),
            },
    {
        if self.bytes.len() - self.idx >= 2 {
            let b0 = self.bytes[self.idx];
            let b1 = self.bytes[self.idx + 1];
            self.idx = self.idx + 2;
            Ok((b0 as u16) + (b1 as u16) * 0x100)
        } else {
            Err(DecodeError { kind: DecodeErrorKind::Truncated, offset: self.idx })
        }
    }

    /// Reads four bytes as an unsigned integer in little-endian order.
    pub fn read_u32(&mut self) -> (r: Result<u32, DecodeError>)
        requires
            old(self).wf(),
        ensures
            final(self).wf(),
            final(self).data() == old(self).data(),
            match spec_read_u32(old(self).data(), old(self).pos()) {
                Ok(vp) => r == Ok::<u32, DecodeError>(vp.0) && final(self).pos() == vp.1,
                Err(e) => r == Err::<u32, DecodeError>(e) && final(self).pos() == old(self).pos(),
            },
    {
        if self.bytes.len() - self.idx >= 4 {
            let b0 = self.bytes[self.idx];
            let b1 = self.bytes[self.idx + 1];
            let b2 = self.bytes[self.idx + 2];
            let b3 = self.bytes[self.idx + 3];
            self.idx = self.idx + 4;
            Ok((b0 as u32) + (b1 as u32) * 0x100 + (b2 as u32) * 0x1_0000 + (b3 as u32)
                * 0x100_0000)
        } else {
            Err(DecodeError { kind: DecodeErrorKind::Truncated, offset: self.idx })
        }
    }

    /// Reads eight bytes as an unsigned integer in little-endian order.
    pub fn read_u64(&mut self) -> (r: Result<u64, DecodeError>)
        requires
            old(self).wf(),
        ensures
            final(self).wf(),
            final(self).data() == old(self).data(),
            match spec_read_u64(old(self).data(), old(self).pos()) {
                Ok(vp) => r == Ok::<u64, DecodeError>(vp.0) && final(self).pos() == vp.1,
                Err(e) => r == Err::<u64, DecodeError>(e) && final(self).pos() == old(self).pos(),
            },
    {
        if self.bytes.len() - self.idx >= 8 {
            let b0 = self.bytes[self.idx];
            let b1 = self.bytes[self.idx + 1];
            let b2 = self.bytes[self.idx + 2];
            let b3 = self.bytes[self.idx + 3];
            let b4 = self.bytes[self.idx + 4];
            let b5 = self.bytes[self.idx + 5];
            let b6 = self.bytes[self.idx + 6];
            let b7 = self.bytes[self.idx + 7];
            self.idx = self.idx + 8;
            Ok((b0 as u64) + (b1 as u64) * 0x100 + (b2 as u64) * 0x1_0000 + (b3 as u64)
                * 0x100_0000 + (b4 as u64) * 0x1_0000_0000 + (b5 as u64) * 0x100_0000_0000 + (
            b6 as u64) * 0x1_0000_0000_0000 + (b7 as u64) * 0x100_0000_0000_0000)
        } else {
            Err(DecodeError { kind: DecodeErrorKind::Truncated, offset: self.idx })
        }
    }

    /// Reads sixteen bytes as an unsigned integer in little-endian order.
    pub fn read_u128(&mut self) -> (r: Result<u128, DecodeError>)
        requires
            old(self).wf(),
        ensures
            final(self).wf(),
            final(self).data() == old(self).data(),
            match spec_read_u128(old(self).data(), old(self).pos()) {
                Ok(vp) => r == Ok::<u128, DecodeError>(vp.0) && final(self).pos() == vp.1,
                Err(e) => r == Err::<u128, DecodeError>(e) && final(self).pos() == old(self).pos(),
            },
    {
        if self.bytes.len() - self.idx >= 16 {
            let b0 = self.bytes[self.idx];
            let b1 = self.bytes[self.idx + 1];
            let b2 = self.bytes[self.idx + 2];
            let b3 = self.bytes[self.idx + 3];
            let b4 = self.bytes[self.idx + 4];
            let b5 = self.bytes[self.idx + 5];
            let b6 = self.bytes[self.idx + 6];
            let b7 = self.bytes[self.idx + 7];
            let b8 = self.bytes[self.idx + 8];
            let b9 = self.bytes[self.idx + 9];
            let b10 = self.bytes[self.idx + 10];
            let b11 = self.bytes[self.idx + 11];
            let b12 = self.bytes[self.idx + 12];
            let b13 = self.bytes[self.idx + 13];
            let b14 = self.bytes[self.idx + 14];
            let b15 = self.bytes[self.idx + 15];
            self.idx = self.idx + 16;
            Ok((b0 as u128) + (b1 as u128) * 0x100 + (b2 as u128) * 0x1_0000 + (b3 as u128)
                * 0x100_0000 + (b4 as u128) * 0x1_0000_0000 + (b5 as u128) * 0x100_0000_0000 + (
            b6 as u128) * 0x1_0000_0000_0000 + (b7 as u128) * 0x100_0000_0000_0000 + (b8 as u128)
                * 0x1_0000_0000_0000_0000 + (b9 as u128) * 0x100_0000_0000_0000_0000 + (
            b10 as u128) * 0x1_0000_0000_0000_0000_0000 + (b11 as u128)
                * 0x100_0000_0000_0000_0000_0000 + (b12 as u128)
                * 0x1_0000_0000_0000_0000_0000_0000 + (b13 as u128)
                * 0x100_0000_0000_0000_0000_0000_0000 + (b14 as u128)
                * 0x1_0000_0000_0000_0000_0000_0000_0000 + (b15 as u128)
                * 0x100_0000_0000_0000_0000_0000_0000_0000)
        } else {
            Err(DecodeError { kind: DecodeErrorKind::Truncated, offset: self.idx })
        }
    }

    /// Reads one byte as a signed integer.
    pub fn read_i8(&mut self) -> (r: Result<i8, DecodeError>)
        requires
            old(self).wf(),
        ensures
            final(self).wf(),
            final(self).data() == old(self).data(),
            match spec_read_i8(old(self).data(), old(self).pos()) {
                Ok(vp) => r == Ok::<i8, DecodeError>(vp.0) && final(self).pos() == vp.1,
                Err(e) => r == Err::<i8, DecodeError>(e) && final(self).pos() == old(self).pos(),
            },
    {
        match self.read_u8() {
            Ok(v) => Ok(to_i8(v)),
            Err(e) => Err(e),
        }
    }

    /// Reads two bytes as a signed integer in little-endian order.
    pub fn read_i16(&mut self) -> (r: Result<i16, DecodeError>)
        requires
            old(self).wf(),
        ensures
            final(self).wf(),
            final(self).data() == old(self).data(),
            match spec_read_i16(old(self).data(), old(self).pos()) {
                Ok(vp) => r == Ok::<i16, DecodeError>(vp.0) && final(self).pos() == vp.1,
                Err(e) => r == Err::<i16, DecodeError>(e) && final(self).pos() == old(self).pos(),
            },
    {
        match self.read_u16() {
            Ok(v) => Ok(to_i16(v)),
            Err(e) => Err(e),
        }
    }

    /// Reads four bytes as a signed integer in little-endian order.
    pub fn read_i32(&mut self) -> (r: Result<i32, DecodeError>)
        requires
            old(self).wf(),
        ensures
            final(self).wf(),
            final(self).data() == old(self).data(),
            match spec_read_i32(old(self).data(), old(self).pos()) {
                Ok(vp) => r == Ok::<i32, DecodeError>(vp.0) && final(self).pos() == vp.1,
                Err(e) => r == Err::<i32, DecodeError>(e) && final(self).pos() == old(self).pos(),
            },
    {
        match self.read_u32() {
            Ok(v) => Ok(to_i32(v)),
            Err(e) => Err(e),
        }
    }

    /// Reads eight bytes as a signed integer in little-endian order.
    pub fn read_i64(&mut self) -> (r: Result<i64, DecodeError>)
        requires
            old(self).wf(),
        ensures
            final(self).wf(),
            final(self).data() == old(self).data(),
            match spec_read_i64(old(self).data(), old(self).pos()) {
                Ok(vp) => r == Ok::<i64, DecodeError>(vp.0) && final(self).pos() == vp.1,
                Err(e) => r == Err::<i64, DecodeError>(e) && final(self).pos() == old(self).pos(),
            },
    {
        match self.read_u64() {
            Ok(v) => Ok(to_i64(v)),
            Err(e) => Err(e),
        }
    }

    /// Reads sixteen bytes as a signed integer in little-endian order.
    pub fn read_i128(&mut self) -> (r: Result<i128, DecodeError>)
        requires
            old(self).wf(),
        ensures
            final(self).wf(),
            final(self).data() == old(self).data(),
            match spec_read_i128(old(self).data(), old(self).pos()) {
                Ok(vp) => r == Ok::<i128, DecodeError>(vp.0) && final(self).pos() == vp.1,
                Err(e) => r == Err::<i128, DecodeError>(e) && final(self).pos() == old(self).pos(),
            },
    {
        match self.read_u128() {
            Ok(v) => Ok(to_i128(v)),
            Err(e) => Err(e),
        }
    }

    /// Reads exactly `n` bytes.
    pub fn read_n(&mut self, n: usize) -> (r: Result<Vec<u8>, DecodeError>)
        requires
            old(self).wf(),
        ensures
            final(self).wf(),
            final(self).data() == old(self).data(),
            match spec_read_n(old(self).data(), old(self).pos(), n as int) {
                Ok(vp) => r matches Ok(v) && v@ == vp.0 && final(self).pos() == vp.1,
                Err(e) => r == Err::<Vec<u8>, DecodeError>(e) && final(self).pos() == old(self).pos(),
            },
    {
        if self.bytes.len() - self.idx >= n {
            let mut v: Vec<u8> = Vec::new();
            let mut i: usize = 0;
            while i < n
                invariant
                    self.wf(),
                    i <= n,
                    self.pos() + n <= self.data().len(),
                    self.pos() + n <= usize::MAX,
                    v@ =~= self.data().subrange(self.pos(), self.pos() + i),
                decreases n - i,
            {
                v.push(self.bytes[self.idx + i]);
                i = i + 1;
            }
            proof {
                assert(v@ =~= self.data().subrange(self.pos(), self.pos() + n as int));
            }
            self.idx = self.idx + n;
            Ok(v)
        } else {
            Err(DecodeError { kind: DecodeErrorKind::Truncated, offset: self.idx })
        }
    }
}

/// The two's-complement reinterpretation of an 8-bit unsigned value.
fn to_i8(v: u8) -> (r: i8)
    ensures
        r == spec_to_i8(v),
{
    if v < 0x80 {
        v as i8
    } else {
        -((0xff - v) as i8) - 1
    }
}

/// The two's-complement reinterpretation of a 16-bit unsigned value.
fn to_i16(v: u16) -> (r: i16)
    ensures
        r == spec_to_i16(v),
{
    if v < 0x8000 {
        v as i16
    } else {
        -((0xffff - v) as i16) - 1
    }
}

/// The two's-complement reinterpretation of a 32-bit unsigned value.
fn to_i32(v: u32) -> (r: i32)
    ensures
        r == spec_to_i32(v),
{
    if v < 0x8000_0000 {
        v as i32
    } else {
        -((0xffff_ffff - v) as i32) - 1
    }
}

/// The two's-complement reinterpretation of a 64-bit unsigned value.
fn to_i64(v: u64) -> (r: i64)
    ensures
        r == spec_to_i64(v),
{
    if v < 0x8000_0000_0000_0000 {
        v as i64
    } else {
        -((0xffff_ffff_ffff_ffff - v) as i64) - 1
    }
}

/// The two's-complement reinterpretation of a 128-bit unsigned value.
fn to_i128(v: u128) -> (r: i128)
    ensures
        r == spec_to_i128(v),
{
    if v < 0x8000_0000_0000_0000_0000_0000_0000_0000 {
        v as i128
    } else {
        -((0xffff_ffff_ffff_ffff_ffff_ffff_ffff_ffff - v) as i128) - 1
    }
}

} // verus!
