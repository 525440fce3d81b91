//! A span seen as a value of a type that starts at its first byte.

use crate::slice::{ByteRange, Slice};
use crate::span::{Span, SpanMut};
use core::marker::PhantomData;
use vstd::layout::{align_of, size_of};
use vstd::prelude::*;

verus! {

/// Whether a span of `len` bytes at the address `ptr` can hold a `T` at
/// its start: it is long enough, and its address is aligned for `T`.
pub open spec fn fits<T>(ptr: usize, len: usize) -> bool {
    len >= size_of::<T>() && ptr as int % (align_of::<T>() as int) == 0
}

/// Whether `len` bytes are enough for a `T`.
pub fn is_sized_for<T>(len: usize) -> (b: bool)
    ensures
        b == (len >= size_of::<T>()),
{
    len >= core::mem::size_of::<T>()
}

/// Whether the address `ptr` is aligned for a `T`.
pub fn is_aligned_for<T>(ptr: usize) -> (b: bool)
    ensures
        b == (ptr as int % (align_of::<T>() as int) == 0),
{
    proof {
        broadcast use vstd::layout::align_nonzero;

    }
    ptr % core::mem::align_of::<T>() == 0
}

/// A span that holds a `T` at its start. The span may be longer than the
/// value; what follows the value is its tail.
pub struct AsType<T, S: Span>(S, PhantomData<T>);

impl<T, S: Span> AsType<T, S> {
    #[verifier::type_invariant]
    spec fn wf(&self) -> bool {
        fits::<T>(self.0.addr(), self.0.size())
    }

    /// The span that holds the value.
    pub closed spec fn span(&self) -> S {
        self.0
    }

    /// Takes `span` as a `T` if it can hold one, and gives it back if not.
    pub fn new(span: S) -> (r: Result<Self, S>)
        ensures
            match r {
                Ok(typed) => fits::<T>(span.addr(), span.size()) && typed.span() == span,
                Err(back) => !fits::<T>(span.addr(), span.size()) && back == span,
            },
    {
        if is_sized_for::<T>(span.len()) && is_aligned_for::<T>(span.as_ptr()) {
            Ok(AsType(span, PhantomData))
        } else {
            Err(span)
        }
    }

    /// Gives the span back.
    pub fn unwrap(self) -> (span: S)
        ensures
            span == self.span(),
            fits::<T>(span.addr(), span.size()),
    {
        proof {
            use_type_invariant(&self);
        }
        self.0
    }

    /// The address of the value.
    pub fn as_ptr(&self) -> (p: usize)
        ensures
            p == self.span().addr(),
            fits::<T>(self.span().addr(), self.span().size()),
    {
        proof {
            use_type_invariant(self);
        }
        self.0.as_ptr()
    }

    /// The bytes of the span that hold the value: the first `size_of::<T>()`.
    pub fn type_bytes(&self) -> (r: ByteRange)
        ensures
            r.start == 0,
            r.end == size_of::<T>(),
            r.end <= self.span().size(),
    {
        proof {
            use_type_invariant(self);
        }
        ByteRange { start: 0, end: core::mem::size_of::<T>() }
    }

    /// The bytes of the span that follow the value.
    pub fn tail_bytes(&self) -> (r: ByteRange)
        ensures
            r.start == size_of::<T>(),
            r.end == self.span().size(),
            r.start <= r.end,
    {
        proof {
            use_type_invariant(self);
        }
        ByteRange { start: core::mem::size_of::<T>(), end: self.0.len() }
    }

    /// The tail of the span as a `TT`, if it can hold one.
    pub fn tail_type<'a, TT>(&'a self) -> (r: Option<AsType<TT, Slice<'a, S>>>)
        ensures
            match r {
                Some(typed) => fits::<TT>(
                    (self.span().addr() + size_of::<T>()) as usize,
                    (self.span().size() - size_of::<T>()) as usize,
                ) && typed.span().map() == self.span() && typed.span().range() == (ByteRange {
                    start: size_of::<T>() as usize,
                    end: self.span().size(),
                }),
                None => !fits::<TT>(
                    (self.span().addr() + size_of::<T>()) as usize,
                    (self.span().size() - size_of::<T>()) as usize,
                ),
            },
    {
        let tail = Slice::new(&self.0, self.tail_bytes());
        proof {
            tail.lemma_span();
        }
        match AsType::new(tail) {
            Ok(typed) => Some(typed),
            Err(_) => None,
        }
    }
}

impl<T, S: SpanMut> AsType<T, S> {
    /// The bytes of the span that follow the value, to write to.
    pub fn tail_bytes_mut(&mut self) -> (r: ByteRange)
        ensures
            *final(self) == *old(self),
            r.start == size_of::<T>(),
            r.end == old(self).span().size(),
            r.start <= r.end,
    {
        self.tail_bytes()
    }

    /// The tail of the span as a `TT` that can be written to, if it can
    /// hold one.
    pub fn tail_type_mut<'a, TT>(&'a mut self) -> (r: Option<AsType<TT, Slice<'a, S>>>)
        ensures
            *final(self) == *old(self),
            match r {
                Some(typed) => fits::<TT>(
                    (old(self).span().addr() + size_of::<T>()) as usize,
                    (old(self).span().size() - size_of::<T>()) as usize,
                ) && typed.span().map() == old(self).span(),
                None => !fits::<TT>(
                    (old(self).span().addr() + size_of::<T>()) as usize,
                    (old(self).span().size() - size_of::<T>()) as usize,
                ),
            },
    {
        self.tail_type()
    }
}

} // verus!
