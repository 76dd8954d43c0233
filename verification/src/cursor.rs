//! Byte cursor over a complete in-memory document.
//!
//! All multi-byte integers in the format are little-endian.  The spec
//! functions [`le16`] and [`le32`] give the mathematical value of a field,
//! and [`can_read`] says when a field lies inside the buffer; every read
//! method is exact with respect to them.

use vstd::prelude::*;

use crate::error::FormatError;

verus! {

/// True when `n` bytes starting at `pos` lie inside the buffer `b`.
pub open spec fn can_read(b: Seq<u8>, pos: int, n: int) -> bool {
    0 <= pos && pos + n <= b.len()
}

/// Value of the little-endian 16-bit field at `pos`.
pub open spec fn le16(b: Seq<u8>, pos: int) -> int {
    b[pos] + 0x100 * b[pos + 1]
}

/// Value of the little-endian 32-bit field at `pos`.
pub open spec fn le32(b: Seq<u8>, pos: int) -> int {
    b[pos] + 0x100 * b[pos + 1] + 0x10000 * b[pos + 2] + 0x1000000 * b[pos + 3]
}

/// A position within an in-memory byte buffer, advanced by reads.
///
/// Reads past the end of the buffer fail with
/// [`FormatError::TruncatedInput`] and leave the cursor where it was.
pub struct AxmlCursor {
    pub data: Vec<u8>,
    pub pos: usize,
}

impl AxmlCursor {
    /// Wrap a complete document, positioned at its first byte.
    pub fn new(data: Vec<u8>) -> (c: Self)
        ensures
            c.data == data,
            c.pos == 0,
    {
        AxmlCursor { data, pos: 0 }
    }

    /// Current position in the buffer.
    pub fn position(&self) -> (p: usize)
        ensures
            p == self.pos,
    {
        self.pos
    }

    /// Move to an absolute position (which may lie past the end; reads
    /// there simply fail).
    pub fn set_position(&mut self, p: usize)
        ensures
            final(self).data == old(self).data,
            final(self).pos == p,
    {
        self.pos = p;
    }

    /// Number of bytes between the current position and the end of the
    /// buffer, or zero when the position lies past the end.
    pub fn remaining(&self) -> (n: usize)
        ensures
            n == if self.pos <= self.data.len() {
                self.data.len() - self.pos
            } else {
                0
            },
    {
        if self.pos <= self.data.len() {
            self.data.len() - self.pos
        } else {
            0
        }
    }

    /// Read one byte and advance.
    pub fn read_u8(&mut self) -> (r: Result<u8, FormatError>)
        ensures
            final(self).data == old(self).data,
            can_read(old(self).data@, old(self).pos as int, 1) ==> {
                &&& r == Ok::<u8, FormatError>(old(self).data@[old(self).pos as int])
                &&& final(self).pos == old(self).pos + 1
            },
            !can_read(old(self).data@, old(self).pos as int, 1) ==> {
                &&& r == Err::<u8, FormatError>(FormatError::TruncatedInput)
                &&& final(self).pos == old(self).pos
            },
    {
        if self.pos < self.data.len() {
            let b: u8 = self.data[self.pos];
            self.pos = self.pos + 1;
            Ok(b)
        } else {
            Err(FormatError::TruncatedInput)
        }
    }

    /// Read a little-endian 16-bit integer and advance.
    pub fn read_u16(&mut self) -> (r: Result<u16, FormatError>)
        ensures
            final(self).data == old(self).data,
            can_read(old(self).data@, old(self).pos as int, 2) ==> {
                &&& r == Ok::<u16, FormatError>(le16(old(self).data@, old(self).pos as int) as u16)
                &&& final(self).pos == old(self).pos + 2
            },
            !can_read(old(self).data@, old(self).pos as int, 2) ==> {
                &&& r == Err::<u16, FormatError>(FormatError::TruncatedInput)
                &&& final(self).pos == old(self).pos
            },
    {
        if self.pos < self.data.len() && self.data.len() - self.pos >= 2 {
            let b0: u8 = self.data[self.pos];
            let b1: u8 = self.data[self.pos + 1];
            self.pos = self.pos + 2;
            Ok((b0 as u16) + 0x100 * (b1 as u16))
        } else {
            Err(FormatError::TruncatedInput)
        }
    }

    /// Read a little-endian 32-bit integer and advance.
    pub fn read_u32(&mut self) -> (r: Result<u32, FormatError>)
        ensures
            final(self).data == old(self).data,
            can_read(old(self).data@, old(self).pos as int, 4) ==> {
                &&& r == Ok::<u32, FormatError>(le32(old(self).data@, old(self).pos as int) as u32)
                &&& final(self).pos == old(self).pos + 4
            },
            !can_read(old(self).data@, old(self).pos as int, 4) ==> {
                &&& r == Err::<u32, FormatError>(FormatError::TruncatedInput)
                &&& final(self).pos == old(self).pos
            },
    {
        if self.pos < self.data.len() && self.data.len() - self.pos >= 4 {
            let b0: u8 = self.data[self.pos];
            let b1: u8 = self.data[self.pos + 1];
            let b2: u8 = self.data[self.pos + 2];
            let b3: u8 = self.data[self.pos + 3];
            self.pos = self.pos + 4;
            Ok((b0 as u32) + 0x100 * (b1 as u32) + 0x10000 * (b2 as u32) + 0x1000000 * (b3 as u32))
        } else {
            Err(FormatError::TruncatedInput)
        }
    }
}

} // verus!
