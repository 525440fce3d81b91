//! The cursors of sequential buffers.
//!
//! A ring lives in a doubled address range: for a ring of `N` bytes, the
//! addresses `0..N` after its start name the same memory as `N..2*N`. So
//! every stretch of up to `N` bytes that starts below `N` is one contiguous
//! range of addresses, also where it runs over the end of the buffer. A
//! `Ring` can be written to only as far as what was written has been read;
//! an `InfiniteRing` can always be written to and overwrites what has not
//! been read.

use crate::slice::ByteRange;
use vstd::prelude::*;

pub mod buffer;
pub mod memory;
pub mod ring;

pub use crate::io::buffer::{
    BufReader, BufWriter, Flushing, IntoInnerError, Reading, WriterPanicked, Writing, Written,
};
pub use crate::io::memory::{is_doubled, stored};
pub use crate::io::ring::{InfiniteRing, InfiniteView, Ring, RingView, Step};

verus! {

/// The lesser of two lengths.
pub open spec fn least(a: int, b: int) -> int {
    if a <= b {
        a
    } else {
        b
    }
}

/// The lesser of two lengths.
pub fn shorter(a: usize, b: usize) -> (m: usize)
    ensures
        m == least(a as int, b as int),
{
    if a <= b {
        a
    } else {
        b
    }
}

/// Common input side of all buffers.
pub trait SeqRead: Sized {
    /// The address that the buffer is mapped at.
    spec fn read_ptr(&self) -> usize;

    /// The number of bytes that the buffer holds when it is full.
    spec fn read_capacity(&self) -> usize;

    /// The offset of the next byte to read.
    spec fn read_start(&self) -> usize;

    /// The number of bytes that can be read.
    spec fn readable(&self) -> usize;

    /// The buffer after `len` bytes were taken from it.
    spec fn consumed(self, len: usize) -> Self;

    /// The mapped readable address without any offset.
    fn as_read_ptr(&self) -> (p: usize)
        ensures
            p == self.read_ptr(),
            self.read_ptr() + 2 * self.read_capacity() <= usize::MAX,
    ;

    /// The offset from the read address of the current read position.
    fn read_offset(&self) -> (off: usize)
        ensures
            off == self.read_start(),
            self.read_capacity() > 0,
            off < self.read_capacity(),
    ;

    /// The total number of readable bytes after the read offset.
    fn read_len(&self) -> (n: usize)
        ensures
            n == self.readable(),
            n <= self.read_capacity(),
    ;

    /// Moves the read position on after reading, by `len` bytes or by all
    /// that can be read if that is less.
    fn consume(&mut self, len: usize)
        ensures
            *final(self) == old(self).consumed(len),
    ;

    /// Whether all bytes have been read.
    fn is_empty(&self) -> (b: bool)
        ensures
            b == (self.readable() == 0),
    {
        self.read_len() == 0
    }

    /// The offsets, from the read address, of the bytes to read: at most
    /// `max` of them, in one stretch within the doubled range.
    fn as_read_slice(&self, max: usize) -> (r: ByteRange)
        ensures
            r.start == self.read_start(),
            r.end == self.read_start() + least(self.readable() as int, max as int),
            r.end <= 2 * self.read_capacity(),
    {
        let start = self.read_offset();
        let len = shorter(self.read_len(), max);
        let _ = self.as_read_ptr();
        ByteRange { start, end: start + len }
    }

    /// Reads into a destination of `into` bytes: the offsets of the bytes
    /// to copy there, which are then taken from the buffer.
    fn read_from(&mut self, into: usize) -> (r: ByteRange)
        ensures
            r.start == old(self).read_start(),
            r.end == old(self).read_start() + least(old(self).readable() as int, into as int),
            r.end <= 2 * old(self).read_capacity(),
            *final(self) == old(self).consumed((r.end - r.start) as usize),
    {
        let src = self.as_read_slice(into);
        self.consume(src.end - src.start);
        src
    }
}

/// Common output side of all buffers.
pub trait SeqWrite: Sized {
    /// The address that the buffer is mapped at.
    spec fn write_ptr(&self) -> usize;

    /// The number of bytes that the buffer holds when it is full.
    spec fn capacity(&self) -> usize;

    /// The offset of the next byte to write.
    spec fn write_start(&self) -> usize;

    /// The number of bytes that can be written.
    spec fn writable(&self) -> usize;

    /// The buffer after `len` bytes were put into it.
    spec fn fed(self, len: usize) -> Self;

    /// Whether the write position can move on by `len` bytes.
    spec fn can_feed(&self, len: usize) -> bool;

    /// The mapped writable address without any offset.
    fn as_write_ptr(&mut self) -> (p: usize)
        ensures
            p == old(self).write_ptr(),
            *final(self) == *old(self),
            old(self).write_ptr() + 2 * old(self).capacity() <= usize::MAX,
    ;

    /// The offset from the write address of the current write position.
    fn write_offset(&self) -> (off: usize)
        ensures
            off == self.write_start(),
            self.capacity() > 0,
            off < self.capacity(),
    ;

    /// The total number of bytes that may be written after the write offset.
    fn write_len(&self) -> (n: usize)
        ensures
            n == self.writable(),
            n <= self.capacity(),
    ;

    /// The number of bytes that the buffer has space for in all.
    fn write_capacity(&self) -> (n: usize)
        ensures
            n == self.capacity(),
    ;

    /// Moves the write position on after writing, by `len` bytes or by all
    /// that can be written if that is less.
    fn feed(&mut self, len: usize)
        requires
            old(self).can_feed(len),
        ensures
            *final(self) == old(self).fed(len),
    ;

    /// A position that can move on by `len` bytes can move on by fewer.
    proof fn lemma_can_feed_less(&self, len: usize, less: usize)
        requires
            self.can_feed(len),
            less <= len,
        ensures
            self.can_feed(less),
    ;

    /// Whether there is no room for further writes.
    fn is_full(&self) -> (b: bool)
        ensures
            b == (self.writable() == 0),
    {
        self.write_len() == 0
    }

    /// The offsets, from the write address, of the bytes to write: at most
    /// `max` of them, in one stretch within the doubled range.
    fn as_write_slice(&mut self, max: usize) -> (r: ByteRange)
        ensures
            *final(self) == *old(self),
            r.start == old(self).write_start(),
            r.end == old(self).write_start() + least(old(self).writable() as int, max as int),
            r.end <= 2 * old(self).capacity(),
    {
        let start = self.write_offset();
        let len = shorter(self.write_len(), max);
        let _ = self.as_write_ptr();
        ByteRange { start, end: start + len }
    }

    /// Writes from a source of `from` bytes: the offsets to copy its first
    /// bytes to, which are then part of the buffer.
    fn write_into(&mut self, from: usize) -> (r: ByteRange)
        requires
            old(self).can_feed(from),
        ensures
            r.start == old(self).write_start(),
            r.end == old(self).write_start() + least(old(self).writable() as int, from as int),
            r.end <= 2 * old(self).capacity(),
            *final(self) == old(self).fed((r.end - r.start) as usize),
    {
        let dst = self.as_write_slice(from);
        proof {
            self.lemma_can_feed_less(from, (dst.end - dst.start) as usize);
        }
        self.feed(dst.end - dst.start);
        dst
    }
}

} // verus!
