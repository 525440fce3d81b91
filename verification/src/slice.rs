//! Byte ranges and slices of spans.

use crate::span::{Span, SpanMut};
use std::sync::Arc;
use vstd::prelude::*;

verus! {

/// Byte range used by a slice.
pub type ByteRange = core::ops::Range<usize>;

/// The two parts of the range `r` on either side of the point `mid` bytes
/// after its start; a point beyond the end counts as the end.
pub open spec fn split(r: ByteRange, mid: usize) -> (ByteRange, ByteRange) {
    let at = if mid >= r.end - r.start {
        r.end
    } else {
        (r.start + mid) as usize
    };
    (ByteRange { start: r.start, end: at }, ByteRange { start: at, end: r.end })
}

/// The part of the range `r` that lies within the first `len` bytes.
pub open spec fn trimmed(r: ByteRange, len: usize) -> ByteRange {
    if r.start > len {
        ByteRange { start: len, end: len }
    } else if r.end > len {
        ByteRange { start: r.start, end: len }
    } else {
        r
    }
}

/// Splits a byte range at a mid point offset from the start of the range.
/// That is, a mid point of 0 splits the range at the current start position.
pub fn split_range(r: ByteRange, mid: usize) -> (parts: (ByteRange, ByteRange))
    requires
        r.start <= r.end,
    ensures
        parts == split(r, mid),
{
    let s = r.start;
    let e = r.end;
    if mid == 0 {
        (ByteRange { start: s, end: s }, r)
    } else if mid >= e - s {
        (r, ByteRange { start: e, end: e })
    } else {
        (ByteRange { start: s, end: s + mid }, ByteRange { start: s + mid, end: e })
    }
}

/// Cuts a byte range down to the first `len` bytes.
pub fn trim_range(r: ByteRange, len: usize) -> (t: ByteRange)
    ensures
        t == trimmed(r, len),
{
    if r.start > len {
        ByteRange { start: len, end: len }
    } else if r.end > len {
        ByteRange { start: r.start, end: len }
    } else {
        r
    }
}

/// The two parts of a split range lie side by side, and together they are
/// the range.
pub proof fn lemma_split(r: ByteRange, mid: usize)
    requires
        r.start <= r.end,
    ensures
        split(r, mid).0.start == r.start,
        split(r, mid).0.end == split(r, mid).1.start,
        split(r, mid).1.end == r.end,
        r.start <= split(r, mid).0.end <= r.end,
        split(r, mid).0.end - r.start == if mid <= r.end - r.start {
            mid as int
        } else {
            r.end - r.start
        },
{
}

/// A trimmed range lies within the length, and a range that already does
/// stays as it is.
pub proof fn lemma_trimmed(r: ByteRange, len: usize)
    requires
        r.start <= r.end,
    ensures
        trimmed(r, len).start <= trimmed(r, len).end <= len,
        r.end <= len ==> trimmed(r, len) == r,
{
}

/// Slice over a borrowed span.
pub struct Slice<'a, M: Span> {
    map: &'a M,
    rng: ByteRange,
}

impl<'a, M: Span> Slice<'a, M> {
    #[verifier::type_invariant]
    spec fn wf(&self) -> bool {
        self.rng.start <= self.rng.end <= self.map.size() && self.map.addr() + self.map.size()
            <= usize::MAX
    }

    /// The span that the slice is a part of.
    pub closed spec fn map(&self) -> M {
        *self.map
    }

    /// The bytes of the span that the slice holds.
    pub closed spec fn range(&self) -> ByteRange {
        self.rng
    }

    /// The slice of `map` over the part of `rng` that lies in it.
    pub fn new(map: &'a M, rng: ByteRange) -> (s: Self)
        requires
            rng.start <= rng.end,
        ensures
            s.map() == *map,
            s.range() == trimmed(rng, map.size()),
    {
        let len = map.len();
        Slice { map, rng: trim_range(rng, len) }
    }

    /// The slice over the whole of `map`.
    pub fn from(map: &'a M) -> (s: Self)
        ensures
            s.map() == *map,
            s.range() == (ByteRange { start: 0, end: map.size() }),
    {
        let end = map.len();
        Slice { map, rng: ByteRange { start: 0, end } }
    }

    /// The bytes of the span that the slice holds.
    pub fn byte_range(&self) -> (r: ByteRange)
        ensures
            r == self.range(),
            r.start <= r.end <= self.map().size(),
    {
        proof {
            use_type_invariant(self);
        }
        ByteRange { start: self.rng.start, end: self.rng.end }
    }

    /// A slice starts at the start of its range in the span and is as long
    /// as the range.
    pub proof fn lemma_span(&self)
        ensures
            self.addr() == (self.map().addr() + self.range().start) as usize,
            self.size() == (self.range().end - self.range().start) as usize,
    {
    }

    /// Splits the slice in two at `mid` bytes from its start.
    pub fn split_at(self, mid: usize) -> (parts: (Self, Self))
        ensures
            parts.0.map() == self.map(),
            parts.1.map() == self.map(),
            parts.0.range() == split(self.range(), mid).0,
            parts.1.range() == split(self.range(), mid).1,
    {
        proof {
            use_type_invariant(&self);
            lemma_split(self.rng, mid);
        }
        let (l, r) = split_range(self.rng, mid);
        (Slice { map: self.map, rng: l }, Slice { map: self.map, rng: r })
    }
}

impl<'a, M: Span> Span for Slice<'a, M> {
    closed spec fn addr(&self) -> usize {
        (self.map.addr() + self.rng.start) as usize
    }

    closed spec fn size(&self) -> usize {
        (self.rng.end - self.rng.start) as usize
    }

    fn len(&self) -> usize {
        proof {
            use_type_invariant(self);
            assert(self.size() == self.rng.end - self.rng.start);
            assert(self.addr() == self.map.addr() + self.rng.start);
        }
        self.rng.end - self.rng.start
    }

    fn as_ptr(&self) -> usize {
        proof {
            use_type_invariant(self);
            assert(self.size() == self.rng.end - self.rng.start);
        }
        self.map.as_ptr() + self.rng.start
    }
}

impl<'a, M: SpanMut> SpanMut for Slice<'a, M> {
    fn as_mut_ptr(&mut self) -> usize {
        self.as_ptr()
    }
}

/// Slice over a span that is shared by reference count.
pub struct ArcSlice<M: Span> {
    map: Arc<M>,
    rng: ByteRange,
}

impl<M: Span> ArcSlice<M> {
    #[verifier::type_invariant]
    spec fn wf(&self) -> bool {
        self.rng.start <= self.rng.end <= self.map.size() && self.map.addr() + self.map.size()
            <= usize::MAX
    }

    /// The span that the slice is a part of.
    pub closed spec fn map(&self) -> M {
        *self.map
    }

    /// The bytes of the span that the slice holds.
    pub closed spec fn range(&self) -> ByteRange {
        self.rng
    }

    /// The slice of `map` over the part of `rng` that lies in it.
    pub fn new(map: M, rng: ByteRange) -> (s: Self)
        requires
            rng.start <= rng.end,
        ensures
            s.map() == map,
            s.range() == trimmed(rng, map.size()),
    {
        let len = map.len();
        ArcSlice { map: Arc::new(map), rng: trim_range(rng, len) }
    }

    /// The slice over the whole of `map`.
    pub fn from(map: M) -> (s: Self)
        ensures
            s.map() == map,
            s.range() == (ByteRange { start: 0, end: map.size() }),
    {
        let end = map.len();
        ArcSlice { map: Arc::new(map), rng: ByteRange { start: 0, end } }
    }

    /// The bytes of the span that the slice holds.
    pub fn byte_range(&self) -> (r: ByteRange)
        ensures
            r == self.range(),
            r.start <= r.end <= self.map().size(),
    {
        proof {
            use_type_invariant(self);
        }
        ByteRange { start: self.rng.start, end: self.rng.end }
    }

    /// A slice starts at the start of its range in the span and is as long
    /// as the range.
    pub proof fn lemma_span(&self)
        ensures
            self.addr() == (self.map().addr() + self.range().start) as usize,
            self.size() == (self.range().end - self.range().start) as usize,
    {
    }

    /// Splits the slice in two at `mid` bytes from its start; both parts
    /// share the span.
    pub fn split_at(self, mid: usize) -> (parts: (Self, Self))
        ensures
            parts.0.map() == self.map(),
            parts.1.map() == self.map(),
            parts.0.range() == split(self.range(), mid).0,
            parts.1.range() == split(self.range(), mid).1,
    {
        proof {
            use_type_invariant(&self);
            lemma_split(self.rng, mid);
        }
        let (l, r) = split_range(ByteRange { start: self.rng.start, end: self.rng.end }, mid);
        (ArcSlice { map: Arc::clone(&self.map), rng: l }, ArcSlice { map: self.map, rng: r })
    }
}

impl<M: Span> Span for ArcSlice<M> {
    closed spec fn addr(&self) -> usize {
        (self.map.addr() + self.rng.start) as usize
    }

    closed spec fn size(&self) -> usize {
        (self.rng.end - self.rng.start) as usize
    }

    fn len(&self) -> usize {
        proof {
            use_type_invariant(self);
            assert(self.size() == self.rng.end - self.rng.start);
            assert(self.addr() == self.map.addr() + self.rng.start);
        }
        self.rng.end - self.rng.start
    }

    fn as_ptr(&self) -> usize {
        proof {
            use_type_invariant(self);
            assert(self.size() == self.rng.end - self.rng.start);
        }
        self.map.as_ptr() + self.rng.start
    }
}

impl<M: SpanMut> SpanMut for ArcSlice<M> {
    fn as_mut_ptr(&mut self) -> usize {
        self.as_ptr()
    }
}

} // verus!
