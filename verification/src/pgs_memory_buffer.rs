//! An in-memory byte buffer with sequential reads of 8/16/24/32-bit
//! unsigned integers in a chosen byte order.

use vstd::prelude::*;

use crate::pgs_error::{Error, PgsResult};
use crate::pgs_read::{PgsRead, PgsSeek};

verus! {

/// The value of two bytes read as a big-endian 16-bit integer.
pub open spec fn spec_u16_be(b: Seq<u8>) -> u16 {
    ((b[0] as int) * 0x100 + (b[1] as int)) as u16
}

/// The value of three bytes read as a big-endian 24-bit integer.
pub open spec fn spec_u24_be(b: Seq<u8>) -> u32 {
    ((b[0] as int) * 0x10000 + (b[1] as int) * 0x100 + (b[2] as int)) as u32
}

/// The value of four bytes read as a big-endian 32-bit integer.
pub open spec fn spec_u32_be(b: Seq<u8>) -> u32 {
    ((b[0] as int) * 0x1000000 + (b[1] as int) * 0x10000 + (b[2] as int) * 0x100 + (
    b[3] as int)) as u32
}

/// The value of two bytes read as a little-endian 16-bit integer.
pub open spec fn spec_u16_le(b: Seq<u8>) -> u16 {
    ((b[1] as int) * 0x100 + (b[0] as int)) as u16
}

/// The value of three bytes read as a little-endian 24-bit integer.
pub open spec fn spec_u24_le(b: Seq<u8>) -> u32 {
    ((b[2] as int) * 0x10000 + (b[1] as int) * 0x100 + (b[0] as int)) as u32
}

/// The value of four bytes read as a little-endian 32-bit integer.
pub open spec fn spec_u32_le(b: Seq<u8>) -> u32 {
    ((b[3] as int) * 0x1000000 + (b[2] as int) * 0x10000 + (b[1] as int) * 0x100 + (
    b[0] as int)) as u32
}

/// A byte order: how a run of bytes is assembled into an unsigned integer.
pub trait ByteOrder {
    /// The 16-bit value denoted by the first two bytes of `b`.
    spec fn spec_u16(b: Seq<u8>) -> u16;

    /// The 24-bit value denoted by the first three bytes of `b`.
    spec fn spec_u24(b: Seq<u8>) -> u32;

    /// The 32-bit value denoted by the first four bytes of `b`.
    spec fn spec_u32(b: Seq<u8>) -> u32;

    /// Assembles a 16-bit integer from the first two bytes of `buf`.
    fn read_u16(buf: &[u8]) -> (r: PgsResult<u16>)
        requires
            buf@.len() >= 2,
        ensures
            r == Ok::<u16, Error>(Self::spec_u16(buf@)),
    ;

    /// Assembles a 24-bit integer from the first three bytes of `buf`.
    fn read_u24(buf: &[u8]) -> (r: PgsResult<u32>)
        requires
            buf@.len() >= 3,
        ensures
            r == Ok::<u32, Error>(Self::spec_u24(buf@)),
    ;

    /// Assembles a 32-bit integer from the first four bytes of `buf`.
    fn read_u32(buf: &[u8]) -> (r: PgsResult<u32>)
        requires
            buf@.len() >= 4,
        ensures
            r == Ok::<u32, Error>(Self::spec_u32(buf@)),
    ;
}

/// The big-endian byte order: most significant byte first. PGS uses it for
/// every multi-byte field.
pub struct BigEndian;

/// The little-endian byte order: least significant byte first.
pub struct LittleEndian;

impl ByteOrder for BigEndian {
    open spec fn spec_u16(b: Seq<u8>) -> u16 {
        spec_u16_be(b)
    }

    open spec fn spec_u24(b: Seq<u8>) -> u32 {
        spec_u24_be(b)
    }

    open spec fn spec_u32(b: Seq<u8>) -> u32 {
        spec_u32_be(b)
    }

    fn read_u16(buf: &[u8]) -> (r: PgsResult<u16>) {
        Ok((buf[0] as u16) * 0x100 + (buf[1] as u16))
    }

    fn read_u24(buf: &[u8]) -> (r: PgsResult<u32>) {
        Ok((buf[0] as u32) * 0x10000 + (buf[1] as u32) * 0x100 + (buf[2] as u32))
    }

    fn read_u32(buf: &[u8]) -> (r: PgsResult<u32>) {
        Ok(
            (buf[0] as u32) * 0x1000000 + (buf[1] as u32) * 0x10000 + (buf[2] as u32) * 0x100 + (
            buf[3] as u32),
        )
    }
}

impl ByteOrder for LittleEndian {
    open spec fn spec_u16(b: Seq<u8>) -> u16 {
        spec_u16_le(b)
    }

    open spec fn spec_u24(b: Seq<u8>) -> u32 {
        spec_u24_le(b)
    }

    open spec fn spec_u32(b: Seq<u8>) -> u32 {
        spec_u32_le(b)
    }

    fn read_u16(buf: &[u8]) -> (r: PgsResult<u16>) {
        Ok((buf[1] as u16) * 0x100 + (buf[0] as u16))
    }

    fn read_u24(buf: &[u8]) -> (r: PgsResult<u32>) {
        Ok((buf[2] as u32) * 0x10000 + (buf[1] as u32) * 0x100 + (buf[0] as u32))
    }

    fn read_u32(buf: &[u8]) -> (r: PgsResult<u32>) {
        Ok(
            (buf[3] as u32) * 0x1000000 + (buf[2] as u32) * 0x10000 + (buf[1] as u32) * 0x100 + (
            buf[0] as u32),
        )
    }
}

/// Sequential reads of unsigned integers from a seekable byte source.
///
/// A read that would pass the end of the stream fails with
/// [`Error::EndOfData`] and leaves the cursor where it was.
pub trait ReadBytes: PgsSeek {
    /// Reads one byte.
    fn read_u8(&mut self) -> (r: PgsResult<u8>)
        ensures
            final(self).stream() == old(self).stream(),
            old(self).cursor() + 1 <= old(self).stream().len() ==> {
                &&& r == Ok::<u8, Error>(old(self).stream()[old(self).cursor()])
                &&& final(self).cursor() == old(self).cursor() + 1
            },
            old(self).cursor() + 1 > old(self).stream().len() ==> {
                &&& r == Err::<u8, Error>(Error::EndOfData)
                &&& final(self).cursor() == old(self).cursor()
            },
    ;

    /// Reads two bytes as a 16-bit integer in byte order `T`.
    fn read_u16<T: ByteOrder>(&mut self) -> (r: PgsResult<u16>)
        ensures
            final(self).stream() == old(self).stream(),
            old(self).cursor() + 2 <= old(self).stream().len() ==> {
                &&& r == Ok::<u16, Error>(
                    T::spec_u16(
                        old(self).stream().subrange(old(self).cursor(), old(self).cursor() + 2),
                    ),
                )
                &&& final(self).cursor() == old(self).cursor() + 2
            },
            old(self).cursor() + 2 > old(self).stream().len() ==> {
                &&& r == Err::<u16, Error>(Error::EndOfData)
                &&& final(self).cursor() == old(self).cursor()
            },
    ;

    /// Reads three bytes as a 24-bit integer in byte order `T`.
    fn read_u24<T: ByteOrder>(&mut self) -> (r: PgsResult<u32>)
        ensures
            final(self).stream() == old(self).stream(),
            old(self).cursor() + 3 <= old(self).stream().len() ==> {
                &&& r == Ok::<u32, Error>(
                    T::spec_u24(
                        old(self).stream().subrange(old(self).cursor(), old(self).cursor() + 3),
                    ),
                )
                &&& final(self).cursor() == old(self).cursor() + 3
            },
            old(self).cursor() + 3 > old(self).stream().len() ==> {
                &&& r == Err::<u32, Error>(Error::EndOfData)
                &&& final(self).cursor() == old(self).cursor()
            },
    ;

    /// Reads four bytes as a 32-bit integer in byte order `T`.
    fn read_u32<T: ByteOrder>(&mut self) -> (r: PgsResult<u32>)
        ensures
            final(self).stream() == old(self).stream(),
            old(self).cursor() + 4 <= old(self).stream().len() ==> {
                &&& r == Ok::<u32, Error>(
                    T::spec_u32(
                        old(self).stream().subrange(old(self).cursor(), old(self).cursor() + 4),
                    ),
                )
                &&& final(self).cursor() == old(self).cursor() + 4
            },
            old(self).cursor() + 4 > old(self).stream().len() ==> {
                &&& r == Err::<u32, Error>(Error::EndOfData)
                &&& final(self).cursor() == old(self).cursor()
            },
    ;
}

/// An in-memory byte buffer that supports reading and seeking.
pub struct PgsMemoryBuffer {
    buffer: Vec<u8>,
    position: usize,
}

impl PgsMemoryBuffer {
    /// Creates an empty buffer with the cursor at the start.
    pub fn new() -> (r: Self)
        ensures
            r.stream() == Seq::<u8>::empty(),
            r.cursor() == 0,
    {
        PgsMemoryBuffer { buffer: Vec::new(), position: 0 }
    }

    /// Creates a buffer that owns `buffer`, with the cursor at the start.
    pub fn from_vec(buffer: Vec<u8>) -> (r: Self)
        ensures
            r.stream() == buffer@,
            r.cursor() == 0,
    {
        PgsMemoryBuffer { buffer, position: 0 }
    }

    /// Creates a buffer holding a copy of `data`, with the cursor at the
    /// start.
    pub fn from_slice(data: &[u8]) -> (r: Self)
        ensures
            r.stream() == data@,
            r.cursor() == 0,
    {
        PgsMemoryBuffer { buffer: vstd::slice::slice_to_vec(data), position: 0 }
    }

    /// Reads exactly `N` bytes into a fixed-size array, or fails with
    /// [`Error::EndOfData`] leaving the cursor unmoved.
    pub fn read_bytes<const N: usize>(&mut self) -> (r: PgsResult<[u8; N]>)
        ensures
            final(self).stream() == old(self).stream(),
            old(self).cursor() + N <= old(self).stream().len() ==> {
                &&& r matches Ok(a) && a@ == old(self).stream().subrange(
                    old(self).cursor(),
                    old(self).cursor() + N,
                )
                &&& final(self).cursor() == old(self).cursor() + N
            },
            old(self).cursor() + N > old(self).stream().len() ==> {
                &&& r == Err::<[u8; N], Error>(Error::EndOfData)
                &&& final(self).cursor() == old(self).cursor()
            },
    {
        if self.buffer.len() >= N && self.position <= self.buffer.len() - N {
            let ghost start = self.position as int;
            let mut out: [u8; N] = vstd::array::array_fill_for_copy_types(0u8);
            let mut i: usize = 0;
            while i < N
                invariant
                    i <= N,
                    self.position == start,
                    start + N <= self.buffer@.len(),
                    self.buffer@.len() <= usize::MAX,
                    out@.len() == N,
                    forall|j: int| 0 <= j < i ==> out@[j] == self.buffer@[start + j],
                decreases N - i,
            {
                let b = self.buffer[self.position + i];
                out[i] = b;
                i = i + 1;
            }
            assert(out@ =~= self.buffer@.subrange(start, start + N));
            self.position = self.position + N;
            Ok(out)
        } else {
            Err(Error::EndOfData)
        }
    }

    /// Reads exactly `length` bytes into a vector, or fails with
    /// [`Error::EndOfData`] leaving the cursor unmoved.
    pub fn read_into_vec(&mut self, length: u32) -> (r: PgsResult<Vec<u8>>)
        ensures
            final(self).stream() == old(self).stream(),
            old(self).cursor() + length <= old(self).stream().len() ==> {
                &&& r matches Ok(v) && v@ == old(self).stream().subrange(
                    old(self).cursor(),
                    old(self).cursor() + length,
                )
                &&& final(self).cursor() == old(self).cursor() + length
            },
            old(self).cursor() + length > old(self).stream().len() ==> {
                &&& r == Err::<Vec<u8>, Error>(Error::EndOfData)
                &&& final(self).cursor() == old(self).cursor()
            },
    {
        let n = length as usize;
        if self.buffer.len() >= n && self.position <= self.buffer.len() - n {
            let ghost start = self.position as int;
            let mut out: Vec<u8> = Vec::new();
            let mut i: usize = 0;
            while i < n
                invariant
                    i <= n,
                    self.position == start,
                    start + n <= self.buffer@.len(),
                    self.buffer@.len() <= usize::MAX,
                    out@.len() == i,
                    forall|j: int| 0 <= j < i ==> out@[j] == self.buffer@[start + j],
                decreases n - i,
            {
                let b = self.buffer[self.position + i];
                out.push(b);
                i = i + 1;
            }
            assert(out@ =~= self.buffer@.subrange(start, start + n));
            self.position = self.position + n;
            Ok(out)
        } else {
            Err(Error::EndOfData)
        }
    }

    /// The bytes between the cursor and the end of the buffer; empty when
    /// the cursor sits at or past the end.
    pub fn remaining_slice(&self) -> (r: &[u8])
        ensures
            r@ == self.stream().subrange(
                vstd::math::min(self.cursor(), self.stream().len() as int),
                self.stream().len() as int,
            ),
    {
        let start = if self.position < self.buffer.len() {
            self.position
        } else {
            self.buffer.len()
        };
        vstd::slice::slice_subrange(self.buffer.as_slice(), start, self.buffer.len())
    }
}

impl Default for PgsMemoryBuffer {
    /// The empty buffer with the cursor at the start.
    fn default() -> (r: Self)
        ensures
            r.stream() == Seq::<u8>::empty(),
            r.cursor() == 0,
    {
        PgsMemoryBuffer::new()
    }
}

impl PgsSeek for PgsMemoryBuffer {
    closed spec fn stream(&self) -> Seq<u8> {
        self.buffer@
    }

    closed spec fn cursor(&self) -> int {
        self.position as int
    }

    fn seek(&mut self, to: usize) -> (r: PgsResult<usize>) {
        self.position = to;
        Ok(to)
    }

    fn pos(&mut self) -> (r: PgsResult<usize>) {
        Ok(self.position)
    }

    fn len(&self) -> (r: PgsResult<usize>) {
        Ok(self.buffer.len())
    }
}

impl ReadBytes for PgsMemoryBuffer {
    fn read_u8(&mut self) -> (r: PgsResult<u8>) {
        if self.position < self.buffer.len() {
            let b = self.buffer[self.position];
            self.position = self.position + 1;
            Ok(b)
        } else {
            Err(Error::EndOfData)
        }
    }

    fn read_u16<T: ByteOrder>(&mut self) -> (r: PgsResult<u16>) {
        if self.buffer.len() >= 2 && self.position <= self.buffer.len() - 2 {
            let sub = vstd::slice::slice_subrange(
                self.buffer.as_slice(),
                self.position,
                self.position + 2,
            );
            self.position = self.position + 2;
            T::read_u16(sub)
        } else {
            Err(Error::EndOfData)
        }
    }

    fn read_u24<T: ByteOrder>(&mut self) -> (r: PgsResult<u32>) {
        if self.buffer.len() >= 3 && self.position <= self.buffer.len() - 3 {
            let sub = vstd::slice::slice_subrange(
                self.buffer.as_slice(),
                self.position,
                self.position + 3,
            );
            self.position = self.position + 3;
            T::read_u24(sub)
        } else {
            Err(Error::EndOfData)
        }
    }

    fn read_u32<T: ByteOrder>(&mut self) -> (r: PgsResult<u32>) {
        if self.buffer.len() >= 4 && self.position <= self.buffer.len() - 4 {
            let sub = vstd::slice::slice_subrange(
                self.buffer.as_slice(),
                self.position,
                self.position + 4,
            );
            self.position = self.position + 4;
            T::read_u32(sub)
        } else {
            Err(Error::EndOfData)
        }
    }
}

impl PgsRead for PgsMemoryBuffer {

}

} // verus!
