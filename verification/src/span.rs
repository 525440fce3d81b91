//! Spans: contiguous regions of memory, known by address and length.

use vstd::layout::{align_of, size_of};
use vstd::prelude::*;

verus! {

/// A contiguous region of memory.
pub trait Span: Sized {
    /// The address of the first byte.
    spec fn addr(&self) -> usize;

    /// The number of bytes.
    spec fn size(&self) -> usize;

    /// The length of the region.
    fn len(&self) -> (n: usize)
        ensures
            n == self.size(),
            self.addr() + self.size() <= usize::MAX,
    ;

    /// The address of the start of the region.
    fn as_ptr(&self) -> (p: usize)
        ensures
            p == self.addr(),
            self.addr() + self.size() <= usize::MAX,
    ;

    /// Whether the span covers zero bytes.
    fn is_empty(&self) -> (b: bool)
        ensures
            b == (self.size() == 0),
    {
        self.len() == 0
    }
}

/// A contiguous region of memory that may be written to.
pub trait SpanMut: Span {
    /// The address of the start of the region, for writing.
    fn as_mut_ptr(&mut self) -> (p: usize)
        ensures
            p == old(self).addr(),
            final(self).addr() == old(self).addr(),
            final(self).size() == old(self).size(),
    ;
}

/// A span that can be made of a mapped range.
pub trait FromPtr: Span {
    /// The span of `len` bytes at the address `ptr`.
    fn from_ptr(ptr: usize, len: usize) -> (s: Self)
        requires
            ptr + len <= usize::MAX,
        ensures
            s.addr() == ptr,
            s.size() == len,
    ;
}

/// Whether a value of `T` at `offset` lies within `len` bytes.
pub fn assert_capacity<T>(offset: usize, len: usize) -> (ok: bool)
    ensures
        ok == (offset + size_of::<T>() <= len),
{
    let size = core::mem::size_of::<T>();
    size <= len && offset <= len - size
}

/// Whether the address `offset` bytes after `ptr` is aligned for `T`.
pub fn assert_alignment<T>(offset: usize, ptr: usize) -> (ok: bool)
    requires
        ptr + offset <= usize::MAX,
    ensures
        ok == ((ptr + offset) % (align_of::<T>() as int) == 0),
{
    proof {
        broadcast use vstd::layout::align_nonzero;

    }
    (ptr + offset) % core::mem::align_of::<T>() == 0
}

} // verus!
