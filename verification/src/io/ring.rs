//! The bounded ring and the overwriting ring.

use crate::io::memory::{
    is_doubled, lemma_doubled_congruent, lemma_offset_around, stored,
};
use crate::io::{least, shorter, SeqRead, SeqWrite};
use vstd::arithmetic::div_mod::{
    lemma_mod_add_multiples_vanish, lemma_mod_bound, lemma_mod_twice, lemma_small_mod,
};
use crate::size::Size;
use crate::slice::ByteRange;
use vstd::prelude::*;

verus! {

/// What a bounded ring holds: the address and the capacity of its buffer
/// and the number of bytes read and written since it was made or cleared.
pub struct RingView {
    /// The address of the doubled range.
    pub ptr: usize,
    /// The capacity of the buffer in bytes.
    pub len: usize,
    /// The number of bytes read so far.
    pub rpos: nat,
    /// The number of bytes written so far.
    pub wpos: nat,
}

impl RingView {
    /// What holds of every ring: the doubled range lies in the address
    /// space, nothing is read before it is written, and nothing is written
    /// over what has not been read.
    pub open spec fn inv(&self) -> bool {
        &&& self.len > 0
        &&& self.ptr + 2 * self.len <= usize::MAX
        &&& self.rpos <= self.wpos
        &&& self.wpos - self.rpos <= self.len
    }

    /// The offset of the next byte to read.
    pub open spec fn read_offset(&self) -> int {
        self.rpos as int % self.len as int
    }

    /// The number of bytes that can be read.
    pub open spec fn read_len(&self) -> int {
        self.wpos - self.rpos
    }

    /// The offset of the next byte to write.
    pub open spec fn write_offset(&self) -> int {
        self.wpos as int % self.len as int
    }

    /// The number of bytes that can be written.
    pub open spec fn write_len(&self) -> int {
        self.len - self.read_len()
    }

    /// The ring after a feed of `len` bytes.
    pub open spec fn fed(self, len: int) -> RingView {
        RingView { wpos: (self.wpos + least(len, self.write_len())) as nat, ..self }
    }

    /// The ring after `len` bytes were consumed.
    pub open spec fn consumed(self, len: int) -> RingView {
        RingView { rpos: (self.rpos + least(len, self.read_len())) as nat, ..self }
    }

    /// The ring after it was cleared.
    pub open spec fn cleared(self) -> RingView {
        RingView { rpos: 0, wpos: 0, ..self }
    }
}

/// A feed or a consume of a number of bytes.
pub enum Step {
    /// A feed of this many bytes.
    Feed(usize),
    /// A consume of this many bytes.
    Consume(usize),
}

impl RingView {
    /// The ring after one step.
    pub open spec fn step(self, step: Step) -> RingView {
        match step {
            Step::Feed(len) => self.fed(len as int),
            Step::Consume(len) => self.consumed(len as int),
        }
    }

    /// The ring after a sequence of steps.
    pub open spec fn after(self, steps: Seq<Step>) -> RingView
        decreases steps.len(),
    {
        if steps.len() == 0 {
            self
        } else {
            self.after(steps.drop_last()).step(steps.last())
        }
    }
}

/// In every ring the readable bytes are no more than the capacity, and the
/// stretch to read ends within the doubled range:
/// `0 <= wpos - rpos <= N` and `read_offset + read_len <= 2 * N`.
pub proof fn lemma_ring_bounds(ring: RingView)
    requires
        ring.inv(),
    ensures
        0 <= ring.wpos - ring.rpos <= ring.len,
        0 <= ring.read_offset() < ring.len,
        0 <= ring.write_offset() < ring.len,
        ring.read_offset() + ring.read_len() <= 2 * ring.len,
        ring.write_offset() + ring.write_len() <= 2 * ring.len,
        ring.read_len() + ring.write_len() == ring.len,
{
    lemma_mod_bound(ring.rpos as int, ring.len as int);
    lemma_mod_bound(ring.wpos as int, ring.len as int);
}

/// A feed or a consume leaves a ring a ring.
pub proof fn lemma_ring_step(ring: RingView, step: Step)
    requires
        ring.inv(),
    ensures
        ring.step(step).inv(),
{
}

/// After any finite sequence of feeds and consumes a ring is still a ring:
/// `0 <= wpos - rpos <= N` and `read_offset + read_len <= 2 * N`.
pub proof fn lemma_ring_after(ring: RingView, steps: Seq<Step>)
    requires
        ring.inv(),
    ensures
        ring.after(steps).inv(),
        0 <= ring.after(steps).wpos - ring.after(steps).rpos <= ring.len,
        ring.after(steps).len == ring.len,
        ring.after(steps).read_offset() + ring.after(steps).read_len() <= 2 * ring.len,
    decreases steps.len(),
{
    if steps.len() > 0 {
        lemma_ring_after(ring, steps.drop_last());
        lemma_ring_step(ring.after(steps.drop_last()), steps.last());
    }
    lemma_ring_bounds(ring.after(steps));
}

impl RingView {
    /// The bytes that the ring holds, oldest first, where `mem` is its
    /// memory: the stretch from the read offset on.
    pub open spec fn content(&self, mem: Seq<u8>) -> Seq<u8> {
        mem.subrange(self.read_offset(), self.read_offset() + self.read_len())
    }
}

/// Going on from an offset into the buffer leads to the same offset as
/// going on from the count of bytes that the offset is the remainder of.
proof fn lemma_offset_of(n: int, pos: int, add: int)
    requires
        n > 0,
    ensures
        (pos % n + add) % n == (pos + add) % n,
{
    lemma_mod_twice(pos, n);
    lemma_offset_around(n, pos % n, -add, pos, -add);
}

/// A bounded ring is a queue of bytes: what is written comes behind what
/// the ring holds, and nothing that it holds is lost. The bytes are those
/// of `src`, stored at the write offset, as many as the ring has room for.
pub proof fn lemma_ring_write(ring: RingView, mem: Seq<u8>, src: Seq<u8>)
    requires
        ring.inv(),
        is_doubled(mem, ring.len as nat),
        src.len() <= ring.write_len(),
    ensures
        ring.fed(src.len() as int).content(
            stored(mem, ring.len as int, ring.write_offset(), src),
        ) == ring.content(mem) + src,
{
    let n = ring.len as int;
    let after = stored(mem, n, ring.write_offset(), src);
    let fed = ring.fed(src.len() as int);
    let held = ring.read_len();
    let start = ring.read_offset();
    lemma_ring_bounds(ring);
    lemma_ring_bounds(fed);
    let got = fed.content(after);
    let want = ring.content(mem) + src;
    assert(got.len() == want.len());
    assert forall|j: int| 0 <= j < got.len() implies got[j] == want[j] by {
        let p = start + j;
        lemma_offset_of(n, ring.rpos as int, j);
        lemma_mod_twice(ring.wpos as int, n);
        lemma_offset_around(n, p, ring.write_offset(), ring.rpos + j, ring.wpos as int);
        assert(ring.rpos + j - ring.wpos == j - held);
        if j >= held {
            lemma_small_mod((j - held) as nat, n as nat);
        } else {
            lemma_mod_add_multiples_vanish(j - held, n);
            lemma_small_mod((n + j - held) as nat, n as nat);
        }
    }
    assert(got =~= want);
}

/// A bounded ring is a queue of bytes: what is read is the front of what
/// the ring holds, and what stays is the rest, in the same order.
pub proof fn lemma_ring_read(ring: RingView, mem: Seq<u8>, len: int)
    requires
        ring.inv(),
        is_doubled(mem, ring.len as nat),
        0 <= len <= ring.read_len(),
    ensures
        mem.subrange(ring.read_offset(), ring.read_offset() + len) == ring.content(mem).subrange(
            0,
            len,
        ),
        ring.consumed(len).content(mem) == ring.content(mem).subrange(len, ring.read_len()),
{
    let n = ring.len as int;
    let rest = ring.consumed(len);
    lemma_ring_bounds(ring);
    lemma_ring_bounds(rest);
    let got = rest.content(mem);
    let want = ring.content(mem).subrange(len, ring.read_len());
    assert forall|j: int| 0 <= j < got.len() implies got[j] == want[j] by {
        lemma_offset_of(n, ring.rpos + len, j);
        lemma_offset_of(n, ring.rpos as int, len + j);
        lemma_doubled_congruent(mem, n, rest.read_offset() + j, ring.read_offset() + len + j);
    }
    assert(got =~= want);
    assert(mem.subrange(ring.read_offset(), ring.read_offset() + len) =~= ring.content(
        mem,
    ).subrange(0, len));
}

/// Fixed-size reliable read/write buffer with sequential address mapping.
///
/// Writes fill up the buffer, and when it is full, no further writes may
/// be performed until a read occurs.
#[derive(Debug)]
pub struct Ring {
    ptr: usize,
    len: usize,
    rpos: u64,
    wpos: u64,
}

impl View for Ring {
    type V = RingView;

    closed spec fn view(&self) -> RingView {
        RingView { ptr: self.ptr, len: self.len, rpos: self.rpos as nat, wpos: self.wpos as nat }
    }
}

impl Ring {
    #[verifier::type_invariant]
    spec fn wf(&self) -> bool {
        self@.inv()
    }

    /// The capacity of a ring for at least `hint` bytes: the hint rounded
    /// up to whole units of allocation.
    pub fn size_for(hint: usize, unit: &Size) -> (len: usize)
        requires
            hint + unit.unit() - 1 <= usize::MAX,
        ensures
            len == crate::size::rounded(unit.unit(), hint as int),
    {
        unit.round(hint)
    }

    /// The ring over the doubled range of `2 * len` bytes at `ptr`, with
    /// nothing in it.
    pub fn new(ptr: usize, len: usize) -> (ring: Self)
        requires
            len > 0,
            ptr + 2 * len <= usize::MAX,
        ensures
            ring@ == (RingView { ptr, len, rpos: 0, wpos: 0 }),
    {
        Ring { ptr, len, rpos: 0, wpos: 0 }
    }

    /// Clears the buffer, resetting the filled region to empty. The
    /// contents of the buffer are not touched.
    pub fn clear(&mut self)
        ensures
            final(self)@ == old(self)@.cleared(),
    {
        proof {
            use_type_invariant(&*self);
        }
        *self = Ring { ptr: self.ptr, len: self.len, rpos: 0, wpos: 0 };
    }

    /// The offsets of the bytes to read, at most `max` of them, which are
    /// taken from the buffer at once.
    pub fn read_and_consume(&mut self, max: usize) -> (r: ByteRange)
        ensures
            r.start == old(self)@.read_offset(),
            r.end == old(self)@.read_offset() + least(old(self)@.read_len(), max as int),
            r.end <= 2 * old(self)@.len,
            final(self)@ == old(self)@.consumed(max as int),
    {
        proof {
            use_type_invariant(&*self);
            lemma_ring_bounds(self@);
        }
        let offset = self.read_offset();
        let len = shorter(self.read_len(), max);
        self.rpos = self.rpos + len as u64;
        ByteRange { start: offset, end: offset + len }
    }

    /// The offsets of all the bytes that can be read.
    pub fn fill_buf(&self) -> (r: ByteRange)
        ensures
            r.start == self@.read_offset(),
            r.end == self@.read_offset() + self@.read_len(),
            r.end <= 2 * self@.len,
    {
        proof {
            use_type_invariant(self);
            lemma_ring_bounds(self@);
        }
        self.as_read_slice(usize::MAX)
    }

    /// The positions and lengths of the two sides of a ring are those of
    /// its view.
    pub proof fn lemma_sides(&self)
        ensures
            self.read_ptr() == self@.ptr,
            self.read_capacity() == self@.len,
            self.read_start() == self@.read_offset() as usize,
            self.readable() == self@.read_len() as usize,
            self.write_ptr() == self@.ptr,
            self.capacity() == self@.len,
            self.write_start() == self@.write_offset() as usize,
            self.writable() == self@.write_len() as usize,
            self@.inv() ==> forall|len: usize|
                (#[trigger] self.consumed(len))@ == self@.consumed(len as int),
            self@.inv() ==> forall|len: usize|
                self.can_feed(len) ==> (#[trigger] self.fed(len))@ == self@.fed(len as int),
    {
    }

    /// The number of bytes written since the ring was made or cleared.
    pub fn written(&self) -> (n: u64)
        ensures
            n == self@.wpos,
    {
        self.wpos
    }

    /// Whether the count of written bytes has room for a feed of `len`.
    pub fn has_room(&self, len: usize) -> (b: bool)
        ensures
            b == self.can_feed(len),
    {
        let n = shorter(len, self.write_len());
        u64::MAX - self.wpos >= n as u64
    }
}

impl SeqRead for Ring {
    closed spec fn read_ptr(&self) -> usize {
        self.ptr
    }

    closed spec fn read_capacity(&self) -> usize {
        self.len
    }

    closed spec fn read_start(&self) -> usize {
        self@.read_offset() as usize
    }

    closed spec fn readable(&self) -> usize {
        self@.read_len() as usize
    }

    closed spec fn consumed(self, len: usize) -> Self {
        Ring { rpos: (self.rpos + least(len as int, self.wpos - self.rpos)) as u64, ..self }
    }

    fn as_read_ptr(&self) -> (p: usize)
        ensures
            p == self@.ptr,
    {
        proof {
            use_type_invariant(self);
            self.lemma_sides();
        }
        self.ptr
    }

    fn read_offset(&self) -> (off: usize)
        ensures
            off == self@.read_offset(),
    {
        proof {
            use_type_invariant(self);
            lemma_ring_bounds(self@);
            self.lemma_sides();
        }
        (self.rpos % self.len as u64) as usize
    }

    fn read_len(&self) -> (n: usize)
        ensures
            n == self@.read_len(),
            self@.inv(),
    {
        proof {
            use_type_invariant(self);
            self.lemma_sides();
        }
        (self.wpos - self.rpos) as usize
    }

    fn consume(&mut self, len: usize)
        ensures
            final(self)@ == old(self)@.consumed(len as int),
    {
        proof {
            use_type_invariant(&*self);
            self.lemma_sides();
        }
        let n = shorter(len, self.read_len());
        self.rpos = self.rpos + n as u64;
    }
}

impl SeqWrite for Ring {
    closed spec fn write_ptr(&self) -> usize {
        self.ptr
    }

    closed spec fn capacity(&self) -> usize {
        self.len
    }

    closed spec fn write_start(&self) -> usize {
        self@.write_offset() as usize
    }

    closed spec fn writable(&self) -> usize {
        self@.write_len() as usize
    }

    closed spec fn fed(self, len: usize) -> Self {
        Ring {
            wpos: (self.wpos + least(len as int, self.len - (self.wpos - self.rpos))) as u64,
            ..self
        }
    }

    open spec fn can_feed(&self, len: usize) -> bool {
        self@.wpos + least(len as int, self@.write_len()) <= u64::MAX
    }

    fn as_write_ptr(&mut self) -> (p: usize)
        ensures
            p == old(self)@.ptr,
    {
        proof {
            use_type_invariant(&*self);
            self.lemma_sides();
        }
        self.ptr
    }

    fn write_offset(&self) -> (off: usize)
        ensures
            off == self@.write_offset(),
    {
        proof {
            use_type_invariant(self);
            lemma_ring_bounds(self@);
            self.lemma_sides();
        }
        (self.wpos % self.len as u64) as usize
    }

    fn write_len(&self) -> (n: usize)
        ensures
            n == self@.write_len(),
            self@.inv(),
    {
        proof {
            use_type_invariant(self);
            self.lemma_sides();
        }
        self.len - self.read_len()
    }

    fn write_capacity(&self) -> (n: usize)
        ensures
            n == self@.len,
    {
        proof {
            self.lemma_sides();
        }
        self.len
    }

    fn feed(&mut self, len: usize)
        ensures
            final(self)@ == old(self)@.fed(len as int),
    {
        proof {
            use_type_invariant(&*self);
            self.lemma_sides();
        }
        let n = shorter(len, self.write_len());
        self.wpos = self.wpos + n as u64;
    }

    proof fn lemma_can_feed_less(&self, len: usize, less: usize) {
        self.lemma_sides();
    }
}

/// What an overwriting ring holds: the address and the capacity of its
/// buffer, the number of bytes that are written and not read, and the
/// number of bytes written since it was made.
pub struct InfiniteView {
    /// The address of the doubled range.
    pub ptr: usize,
    /// The capacity of the buffer in bytes.
    pub len: usize,
    /// The number of bytes that can be read.
    pub rlen: nat,
    /// The number of bytes written so far.
    pub wpos: nat,
}

impl InfiniteView {
    /// What holds of every overwriting ring: the doubled range lies in the
    /// address space, and what can be read is no more than the capacity and
    /// no more than what was written.
    pub open spec fn inv(&self) -> bool {
        &&& self.len > 0
        &&& self.ptr + 2 * self.len <= usize::MAX
        &&& self.rlen <= self.len
        &&& self.rlen <= self.wpos
    }

    /// The offset of the next byte to read.
    pub open spec fn read_offset(&self) -> int {
        (self.wpos - self.rlen) % self.len as int
    }

    /// The number of bytes that can be read.
    pub open spec fn read_len(&self) -> int {
        self.rlen as int
    }

    /// The offset of the next byte to write.
    pub open spec fn write_offset(&self) -> int {
        self.wpos as int % self.len as int
    }

    /// The number of bytes that can be written: always the capacity.
    pub open spec fn write_len(&self) -> int {
        self.len as int
    }

    /// The ring after a feed of `len` bytes: the oldest bytes leave where
    /// there are more to read than the buffer holds.
    pub open spec fn fed(self, len: int) -> InfiniteView {
        InfiniteView {
            wpos: (self.wpos + least(len, self.len as int)) as nat,
            rlen: least(self.rlen + len, self.len as int) as nat,
            ..self
        }
    }

    /// The ring after `len` bytes were consumed.
    pub open spec fn consumed(self, len: int) -> InfiniteView {
        InfiniteView { rlen: (self.rlen - least(len, self.rlen as int)) as nat, ..self }
    }

    /// The ring after one step.
    pub open spec fn step(self, step: Step) -> InfiniteView {
        match step {
            Step::Feed(len) => self.fed(len as int),
            Step::Consume(len) => self.consumed(len as int),
        }
    }

    /// The ring after a sequence of steps.
    pub open spec fn after(self, steps: Seq<Step>) -> InfiniteView
        decreases steps.len(),
    {
        if steps.len() == 0 {
            self
        } else {
            self.after(steps.drop_last()).step(steps.last())
        }
    }
}

/// In every overwriting ring the stretch to read and the stretch to write
/// end within the doubled range.
pub proof fn lemma_infinite_bounds(ring: InfiniteView)
    requires
        ring.inv(),
    ensures
        0 <= ring.read_offset() < ring.len,
        0 <= ring.write_offset() < ring.len,
        ring.read_offset() + ring.read_len() <= 2 * ring.len,
        ring.write_offset() + ring.write_len() <= 2 * ring.len,
{
    lemma_mod_bound(ring.wpos - ring.rlen, ring.len as int);
    lemma_mod_bound(ring.wpos as int, ring.len as int);
}

/// After any finite sequence of feeds and consumes an overwriting ring is
/// still one.
pub proof fn lemma_infinite_after(ring: InfiniteView, steps: Seq<Step>)
    requires
        ring.inv(),
    ensures
        ring.after(steps).inv(),
        ring.after(steps).len == ring.len,
        ring.after(steps).read_offset() + ring.after(steps).read_len() <= 2 * ring.len,
    decreases steps.len(),
{
    if steps.len() > 0 {
        lemma_infinite_after(ring, steps.drop_last());
    }
    lemma_infinite_bounds(ring.after(steps));
}

/// Once an overwriting ring is full, the oldest byte to read lies where the
/// next byte is written: a further feed evicts as many bytes as it brings.
pub proof fn lemma_infinite_eviction(ring: InfiniteView, len: int)
    requires
        ring.inv(),
        ring.rlen == ring.len,
        0 <= len <= ring.len,
    ensures
        ring.read_offset() == ring.write_offset(),
        ring.fed(len).rlen == ring.len,
        ring.fed(len).read_offset() == (ring.wpos + len) % ring.len as int,
{
    vstd::arithmetic::div_mod::lemma_mod_sub_multiples_vanish(ring.wpos as int, ring.len as int);
    vstd::arithmetic::div_mod::lemma_mod_sub_multiples_vanish(
        ring.wpos + len,
        ring.len as int,
    );
}

impl InfiniteView {
    /// The bytes that the ring holds, oldest first, where `mem` is its
    /// memory: the stretch from the read offset on.
    pub open spec fn content(&self, mem: Seq<u8>) -> Seq<u8> {
        mem.subrange(self.read_offset(), self.read_offset() + self.read_len())
    }
}

/// An overwriting ring holds the newest bytes: after `src` is stored at
/// the write offset, the ring holds the end of what it held with `src`
/// behind it, as much of that as the buffer has room for.
pub proof fn lemma_infinite_write(ring: InfiniteView, mem: Seq<u8>, src: Seq<u8>)
    requires
        ring.inv(),
        is_doubled(mem, ring.len as nat),
        src.len() <= ring.len,
    ensures
        ({
            let all = ring.content(mem) + src;
            let kept = least(all.len() as int, ring.len as int);
            ring.fed(src.len() as int).content(
                stored(mem, ring.len as int, ring.write_offset(), src),
            ) == all.subrange(all.len() - kept, all.len() as int)
        }),
{
    let n = ring.len as int;
    let after = stored(mem, n, ring.write_offset(), src);
    let fed = ring.fed(src.len() as int);
    let held = ring.rlen as int;
    let all = ring.content(mem) + src;
    let kept = least(all.len() as int, n);
    let gone = all.len() - kept;
    lemma_infinite_bounds(ring);
    lemma_infinite_bounds(fed);
    let got = fed.content(after);
    let want = all.subrange(gone, all.len() as int);
    assert(got.len() == want.len());
    assert forall|j: int| 0 <= j < got.len() implies got[j] == want[j] by {
        let p = fed.read_offset() + j;
        let first = ring.wpos - held;
        assert(fed.wpos - fed.rlen == first + gone);
        lemma_offset_of(n, first + gone, j);
        lemma_mod_twice(ring.wpos as int, n);
        lemma_offset_around(n, p, ring.write_offset(), first + gone + j, ring.wpos as int);
        assert(first + gone + j - ring.wpos == gone + j - held);
        if gone + j >= held {
            lemma_small_mod((gone + j - held) as nat, n as nat);
        } else {
            lemma_mod_add_multiples_vanish(gone + j - held, n);
            lemma_small_mod((n + gone + j - held) as nat, n as nat);
            lemma_offset_of(n, first, gone + j);
            lemma_doubled_congruent(mem, n, p, ring.read_offset() + gone + j);
        }
    }
    assert(got =~= want);
}

/// Writing all of a source to an overwriting ring leaves the ring with the
/// newest bytes of what it held and the whole source, although only the end
/// of a source that is longer than the buffer is stored.
pub proof fn lemma_infinite_write_all(ring: InfiniteView, mem: Seq<u8>, src: Seq<u8>)
    requires
        ring.inv(),
        is_doubled(mem, ring.len as nat),
    ensures
        ({
            let taken = least(src.len() as int, ring.len as int);
            let tail = src.subrange(src.len() - taken, src.len() as int);
            let all = ring.content(mem) + src;
            let kept = least(all.len() as int, ring.len as int);
            ring.fed(taken).content(stored(mem, ring.len as int, ring.write_offset(), tail))
                == all.subrange(all.len() - kept, all.len() as int)
        }),
{
    let n = ring.len as int;
    let taken = least(src.len() as int, n);
    let tail = src.subrange(src.len() - taken, src.len() as int);
    lemma_infinite_write(ring, mem, tail);
    lemma_infinite_bounds(ring);
    let all = ring.content(mem) + src;
    let kept = least(all.len() as int, n);
    let some = ring.content(mem) + tail;
    let some_kept = least(some.len() as int, n);
    assert(some.subrange(some.len() - some_kept, some.len() as int) =~= all.subrange(
        all.len() - kept,
        all.len() as int,
    ));
}

/// What is read from an overwriting ring is the front of what it holds,
/// and what stays is the rest, in the same order.
pub proof fn lemma_infinite_read(ring: InfiniteView, mem: Seq<u8>, len: int)
    requires
        ring.inv(),
        is_doubled(mem, ring.len as nat),
        0 <= len <= ring.read_len(),
    ensures
        mem.subrange(ring.read_offset(), ring.read_offset() + len) == ring.content(mem).subrange(
            0,
            len,
        ),
        ring.consumed(len).content(mem) == ring.content(mem).subrange(len, ring.read_len()),
{
    let n = ring.len as int;
    let rest = ring.consumed(len);
    lemma_infinite_bounds(ring);
    lemma_infinite_bounds(rest);
    let got = rest.content(mem);
    let want = ring.content(mem).subrange(len, ring.read_len());
    let first = ring.wpos - ring.rlen;
    assert(rest.wpos - rest.rlen == first + len);
    assert forall|j: int| 0 <= j < got.len() implies got[j] == want[j] by {
        lemma_offset_of(n, first + len, j);
        lemma_offset_of(n, first, len + j);
        lemma_doubled_congruent(mem, n, rest.read_offset() + j, ring.read_offset() + len + j);
    }
    assert(got =~= want);
    assert(mem.subrange(ring.read_offset(), ring.read_offset() + len) =~= ring.content(
        mem,
    ).subrange(0, len));
}

/// Fixed-size lossy read/write buffer with sequential address mapping.
///
/// Writes to this ring may evict bytes from the read side. The writable
/// length is always the capacity of the buffer.
#[derive(Debug)]
pub struct InfiniteRing {
    ptr: usize,
    len: usize,
    rlen: u64,
    wpos: u64,
}

impl View for InfiniteRing {
    type V = InfiniteView;

    closed spec fn view(&self) -> InfiniteView {
        InfiniteView {
            ptr: self.ptr,
            len: self.len,
            rlen: self.rlen as nat,
            wpos: self.wpos as nat,
        }
    }
}

impl InfiniteRing {
    #[verifier::type_invariant]
    spec fn wf(&self) -> bool {
        self@.inv()
    }

    /// The capacity of a ring for at least `hint` bytes: the hint rounded
    /// up to whole units of allocation.
    pub fn size_for(hint: usize, unit: &Size) -> (len: usize)
        requires
            hint + unit.unit() - 1 <= usize::MAX,
        ensures
            len == crate::size::rounded(unit.unit(), hint as int),
    {
        unit.round(hint)
    }

    /// The ring over the doubled range of `2 * len` bytes at `ptr`, with
    /// nothing in it.
    pub fn new(ptr: usize, len: usize) -> (ring: Self)
        requires
            len > 0,
            ptr + 2 * len <= usize::MAX,
        ensures
            ring@ == (InfiniteView { ptr, len, rlen: 0, wpos: 0 }),
    {
        InfiniteRing { ptr, len, rlen: 0, wpos: 0 }
    }

    /// The positions and lengths of the two sides of a ring are those of
    /// its view.
    pub proof fn lemma_sides(&self)
        ensures
            self.read_ptr() == self@.ptr,
            self.read_capacity() == self@.len,
            self.read_start() == self@.read_offset() as usize,
            self.readable() == self@.read_len() as usize,
            self.write_ptr() == self@.ptr,
            self.capacity() == self@.len,
            self.write_start() == self@.write_offset() as usize,
            self.writable() == self@.write_len() as usize,
            self@.inv() ==> forall|len: usize|
                (#[trigger] self.consumed(len))@ == self@.consumed(len as int),
            self@.inv() ==> forall|len: usize|
                self.can_feed(len) ==> (#[trigger] self.fed(len))@ == self@.fed(len as int),
    {
    }

    /// The offsets of all the bytes that can be read.
    pub fn fill_buf(&self) -> (r: ByteRange)
        ensures
            r.start == self@.read_offset(),
            r.end == self@.read_offset() + self@.read_len(),
            r.end <= 2 * self@.len,
    {
        proof {
            use_type_invariant(self);
            lemma_infinite_bounds(self@);
            self.lemma_sides();
        }
        self.as_read_slice(usize::MAX)
    }

    /// Writes all of a source of `from` bytes: where the source is longer
    /// than the buffer, only its last bytes are written, for the others
    /// would be overwritten at once. Gives the number of bytes at the front
    /// of the source that are left out, and the offsets to copy the rest to.
    pub fn write_all(&mut self, from: usize) -> (r: (usize, ByteRange))
        requires
            old(self).can_feed(from),
        ensures
            r.0 == from - least(from as int, old(self)@.len as int),
            r.1.start == old(self)@.write_offset(),
            r.1.end == old(self)@.write_offset() + least(from as int, old(self)@.len as int),
            r.1.end <= 2 * old(self)@.len,
            final(self)@ == old(self)@.fed(least(from as int, old(self)@.len as int)),
    {
        proof {
            use_type_invariant(&*self);
            self.lemma_sides();
        }
        let dst = self.as_write_slice(from);
        let len = dst.end - dst.start;
        let tail = from - len;
        proof {
            self.lemma_can_feed_less(from, len);
        }
        self.feed(len);
        (tail, dst)
    }

    /// The number of bytes written since the ring was made.
    pub fn written(&self) -> (n: u64)
        ensures
            n == self@.wpos,
    {
        self.wpos
    }

    /// Whether the count of written bytes has room for a feed of `len`.
    pub fn has_room(&self, len: usize) -> (b: bool)
        ensures
            b == self.can_feed(len),
    {
        let n = shorter(len, self.write_len());
        u64::MAX - self.wpos >= n as u64
    }
}

impl SeqRead for InfiniteRing {
    closed spec fn read_ptr(&self) -> usize {
        self.ptr
    }

    closed spec fn read_capacity(&self) -> usize {
        self.len
    }

    closed spec fn read_start(&self) -> usize {
        self@.read_offset() as usize
    }

    closed spec fn readable(&self) -> usize {
        self@.read_len() as usize
    }

    closed spec fn consumed(self, len: usize) -> Self {
        InfiniteRing { rlen: (self.rlen - least(len as int, self.rlen as int)) as u64, ..self }
    }

    fn as_read_ptr(&self) -> (p: usize)
        ensures
            p == self@.ptr,
    {
        proof {
            use_type_invariant(self);
            self.lemma_sides();
        }
        self.ptr
    }

    fn read_offset(&self) -> (off: usize)
        ensures
            off == self@.read_offset(),
    {
        proof {
            use_type_invariant(self);
            lemma_infinite_bounds(self@);
            self.lemma_sides();
        }
        ((self.wpos - self.rlen) % self.len as u64) as usize
    }

    fn read_len(&self) -> (n: usize)
        ensures
            n == self@.read_len(),
            self@.inv(),
    {
        proof {
            use_type_invariant(self);
            self.lemma_sides();
        }
        self.rlen as usize
    }

    fn consume(&mut self, len: usize)
        ensures
            final(self)@ == old(self)@.consumed(len as int),
    {
        proof {
            use_type_invariant(&*self);
            self.lemma_sides();
        }
        let n = shorter(len, self.read_len());
        self.rlen = self.rlen - n as u64;
    }
}

impl SeqWrite for InfiniteRing {
    closed spec fn write_ptr(&self) -> usize {
        self.ptr
    }

    closed spec fn capacity(&self) -> usize {
        self.len
    }

    closed spec fn write_start(&self) -> usize {
        self@.write_offset() as usize
    }

    closed spec fn writable(&self) -> usize {
        self@.write_len() as usize
    }

    closed spec fn fed(self, len: usize) -> Self {
        InfiniteRing {
            wpos: (self.wpos + least(len as int, self.len as int)) as u64,
            rlen: least(self.rlen + len, self.len as int) as u64,
            ..self
        }
    }

    open spec fn can_feed(&self, len: usize) -> bool {
        self@.wpos + least(len as int, self@.len as int) <= u64::MAX
    }

    fn as_write_ptr(&mut self) -> (p: usize)
        ensures
            p == old(self)@.ptr,
    {
        proof {
            use_type_invariant(&*self);
            self.lemma_sides();
        }
        self.ptr
    }

    fn write_offset(&self) -> (off: usize)
        ensures
            off == self@.write_offset(),
    {
        proof {
            use_type_invariant(self);
            lemma_infinite_bounds(self@);
            self.lemma_sides();
        }
        (self.wpos % self.len as u64) as usize
    }

    fn write_len(&self) -> (n: usize)
        ensures
            n == self@.write_len(),
            self@.inv(),
    {
        proof {
            use_type_invariant(self);
            self.lemma_sides();
        }
        self.write_capacity()
    }

    fn write_capacity(&self) -> (n: usize)
        ensures
            n == self@.len,
    {
        proof {
            self.lemma_sides();
        }
        self.len
    }

    fn feed(&mut self, len: usize)
        ensures
            final(self)@ == old(self)@.fed(len as int),
    {
        proof {
            use_type_invariant(&*self);
            self.lemma_sides();
        }
        let n = shorter(len, self.write_len());
        let kept = shorter(self.rlen as usize + n, self.len);
        *self = InfiniteRing {
            ptr: self.ptr,
            len: self.len,
            rlen: kept as u64,
            wpos: self.wpos + n as u64,
        };
    }

    proof fn lemma_can_feed_less(&self, len: usize, less: usize) {
        self.lemma_sides();
    }
}

} // verus!
