//! Fixed-width unsigned integers in a byte sequence, and a reader that takes
//! fields from a byte slice one after the other.

use crate::error::ZipError;
use vstd::prelude::*;
use vstd::slice::*;

verus! {

/// The 16-bit value whose little-endian bytes stand at `i` and `i + 1`.
pub open spec fn le16_at(s: Seq<u8>, i: int) -> u16 {
    (s[i] as int + 256 * (s[i + 1] as int)) as u16
}

/// The 32-bit value whose little-endian bytes stand at `i` to `i + 3`.
pub open spec fn le32_at(s: Seq<u8>, i: int) -> u32 {
    (s[i] as int + 256 * (s[i + 1] as int) + 65536 * (s[i + 2] as int) + 16777216 * (s[i
        + 3] as int)) as u32
}

/// The 32-bit value whose big-endian bytes stand at `i` to `i + 3`.
pub open spec fn be32_at(s: Seq<u8>, i: int) -> u32 {
    (16777216 * (s[i] as int) + 65536 * (s[i + 1] as int) + 256 * (s[i + 2] as int) + s[i
        + 3] as int) as u32
}

/// Reads the first two bytes as a little-endian value.
pub fn u16_le(bytes: &[u8]) -> (r: Result<u16, ZipError>)
    ensures
        bytes@.len() >= 2 ==> r == Ok::<u16, ZipError>(le16_at(bytes@, 0)),
        bytes@.len() < 2 ==> r == Err::<u16, ZipError>(ZipError::TruncatedInput),
{
    if bytes.len() < 2 {
        return Err(ZipError::TruncatedInput);
    }
    let b0: u16 = bytes[0] as u16;
    let b1: u16 = bytes[1] as u16;
    Ok(b0 + 256 * b1)
}

/// Reads the first four bytes as a little-endian value.
pub fn u32_le(bytes: &[u8]) -> (r: Result<u32, ZipError>)
    ensures
        bytes@.len() >= 4 ==> r == Ok::<u32, ZipError>(le32_at(bytes@, 0)),
        bytes@.len() < 4 ==> r == Err::<u32, ZipError>(ZipError::TruncatedInput),
{
    if bytes.len() < 4 {
        return Err(ZipError::TruncatedInput);
    }
    let b0: u32 = bytes[0] as u32;
    let b1: u32 = bytes[1] as u32;
    let b2: u32 = bytes[2] as u32;
    let b3: u32 = bytes[3] as u32;
    Ok(b0 + 256 * b1 + 65536 * b2 + 16777216 * b3)
}

/// Reads the first four bytes as a big-endian value.
pub fn u32_be(bytes: &[u8]) -> (r: Result<u32, ZipError>)
    ensures
        bytes@.len() >= 4 ==> r == Ok::<u32, ZipError>(be32_at(bytes@, 0)),
        bytes@.len() < 4 ==> r == Err::<u32, ZipError>(ZipError::TruncatedInput),
{
    if bytes.len() < 4 {
        return Err(ZipError::TruncatedInput);
    }
    let b0: u32 = bytes[0] as u32;
    let b1: u32 = bytes[1] as u32;
    let b2: u32 = bytes[2] as u32;
    let b3: u32 = bytes[3] as u32;
    Ok(16777216 * b0 + 65536 * b1 + 256 * b2 + b3)
}

/// A position in a byte slice. Every read takes the bytes at the position and
/// moves it forward; a read that fails leaves it where it was.
pub struct Reader<'a> {
    pub bytes: &'a [u8],
    pub pos: usize,
}

impl<'a> Reader<'a> {
    /// The position lies within the slice or at its end.
    pub open spec fn wf(&self) -> bool {
        self.pos <= self.bytes@.len()
    }

    /// A reader at the start of `bytes`.
    pub fn new(bytes: &'a [u8]) -> (r: Reader<'a>)
        ensures
            r.bytes == bytes,
            r.pos == 0,
            r.wf(),
    {
        Reader { bytes, pos: 0 }
    }

    /// The bytes from the position to the end.
    fn rest(&self) -> (r: &[u8])
        requires
            self.wf(),
        ensures
            r@ == self.bytes@.skip(self.pos as int),
            r@.len() == self.bytes@.len() - self.pos,
    {
        slice_subrange(self.bytes, self.pos, self.bytes.len())
    }

    /// Takes a 16-bit little-endian value.
    pub fn take_u16_le(&mut self) -> (r: Result<u16, ZipError>)
        requires
            old(self).wf(),
        ensures
            final(self).wf(),
            final(self).bytes == old(self).bytes,
            old(self).pos + 2 <= old(self).bytes@.len() ==> r == Ok::<u16, ZipError>(
                le16_at(old(self).bytes@, old(self).pos as int),
            ) && final(self).pos == old(self).pos + 2,
            old(self).pos + 2 > old(self).bytes@.len() ==> r == Err::<u16, ZipError>(
                ZipError::TruncatedInput,
            ) && final(self).pos == old(self).pos,
    {
        let r = u16_le(self.rest());
        if self.bytes.len() - self.pos >= 2 {
            self.pos = self.pos + 2;
        }
        r
    }

    /// Takes a 32-bit little-endian value.
    pub fn take_u32_le(&mut self) -> (r: Result<u32, ZipError>)
        requires
            old(self).wf(),
        ensures
            final(self).wf(),
            final(self).bytes == old(self).bytes,
            old(self).pos + 4 <= old(self).bytes@.len() ==> r == Ok::<u32, ZipError>(
                le32_at(old(self).bytes@, old(self).pos as int),
            ) && final(self).pos == old(self).pos + 4,
            old(self).pos + 4 > old(self).bytes@.len() ==> r == Err::<u32, ZipError>(
                ZipError::TruncatedInput,
            ) && final(self).pos == old(self).pos,
    {
        let r = u32_le(self.rest());
        if self.bytes.len() - self.pos >= 4 {
            self.pos = self.pos + 4;
        }
        r
    }

    /// Takes a 32-bit big-endian value.
    pub fn take_u32_be(&mut self) -> (r: Result<u32, ZipError>)
        requires
            old(self).wf(),
        ensures
            final(self).wf(),
            final(self).bytes == old(self).bytes,
            old(self).pos + 4 <= old(self).bytes@.len() ==> r == Ok::<u32, ZipError>(
                be32_at(old(self).bytes@, old(self).pos as int),
            ) && final(self).pos == old(self).pos + 4,
            old(self).pos + 4 > old(self).bytes@.len() ==> r == Err::<u32, ZipError>(
                ZipError::TruncatedInput,
            ) && final(self).pos == old(self).pos,
    {
        let r = u32_be(self.rest());
        if self.bytes.len() - self.pos >= 4 {
            self.pos = self.pos + 4;
        }
        r
    }

    /// Takes the next `n` bytes.
    pub fn take_bytes(&mut self, n: usize) -> (r: Result<Vec<u8>, ZipError>)
        requires
            old(self).wf(),
        ensures
            final(self).wf(),
            final(self).bytes == old(self).bytes,
            old(self).pos + n <= old(self).bytes@.len() ==> r is Ok && r.unwrap()@
                == old(self).bytes@.subrange(old(self).pos as int, old(self).pos + n)
                && final(self).pos == old(self).pos + n,
            old(self).pos + n > old(self).bytes@.len() ==> r == Err::<Vec<u8>, ZipError>(
                ZipError::TruncatedInput,
            ) && final(self).pos == old(self).pos,
    {
        if self.bytes.len() - self.pos < n {
            return Err(ZipError::TruncatedInput);
        }
        let v = slice_to_vec(slice_subrange(self.bytes, self.pos, self.pos + n));
        self.pos = self.pos + n;
        Ok(v)
    }
}

} // verus!
