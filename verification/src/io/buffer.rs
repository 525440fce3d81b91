//! Buffered readers and writers over a ring: what they keep, and what they
//! decide between two calls of the reader or writer that they wrap.

use crate::error::{io_error_kind, io_error_of};
use crate::io::ring::{Ring, RingView};
use crate::io::{least, SeqRead, SeqWrite};
use crate::slice::ByteRange;
use vstd::prelude::*;

verus! {

/// How a read from a buffered reader goes on.
#[derive(Clone, Copy, Debug, PartialEq, Eq, Structural)]
pub enum Reading {
    /// The buffer is empty and the destination no smaller than it: read
    /// from the inner reader straight into the destination.
    Direct,
    /// Read through the buffer.
    Buffered,
}

/// A buffered reader: a ring in front of an inner reader, with a low-water
/// mark at or below which the ring is filled again.
pub struct BufReader<R> {
    buf: Ring,
    inner: R,
    lowat: usize,
}

impl<R> BufReader<R> {
    /// The ring of the reader.
    pub closed spec fn ring(&self) -> Ring {
        self.buf
    }

    /// The inner reader.
    pub closed spec fn inner(&self) -> R {
        self.inner
    }

    /// The low-water mark.
    pub closed spec fn mark(&self) -> usize {
        self.lowat
    }

    /// A reader over `inner` with an empty ring in the doubled range of
    /// `2 * len` bytes at `ptr`, and a low-water mark of zero.
    pub fn new(inner: R, ptr: usize, len: usize) -> (r: Self)
        requires
            len > 0,
            ptr + 2 * len <= usize::MAX,
        ensures
            r.inner() == inner,
            r.ring()@ == (RingView { ptr, len, rpos: 0, wpos: 0 }),
            r.mark() == 0,
    {
        BufReader { buf: Ring::new(ptr, len), inner, lowat: 0 }
    }

    /// The ring of the reader.
    pub fn as_ring(&self) -> (r: &Ring)
        ensures
            *r == self.ring(),
    {
        &self.buf
    }

    /// The low-water level.
    pub fn lowat(&self) -> (n: usize)
        ensures
            n == self.mark(),
    {
        self.lowat
    }

    /// Sets the low-water level: once the buffer holds this many bytes or
    /// fewer, the next filling asks the inner reader for more.
    pub fn set_lowat(&mut self, val: usize)
        ensures
            final(self).mark() == val,
            final(self).ring() == old(self).ring(),
            final(self).inner() == old(self).inner(),
    {
        self.lowat = val
    }

    /// The inner reader.
    pub fn get_ref(&self) -> (r: &R)
        ensures
            *r == self.inner(),
    {
        &self.inner
    }

    /// The inner reader, to change it.
    pub fn get_mut(&mut self) -> (r: &mut R)
        ensures
            *r == old(self).inner(),
            final(self).inner() == *final(r),
            final(self).ring() == old(self).ring(),
            final(self).mark() == old(self).mark(),
    {
        &mut self.inner
    }

    /// The offsets of the buffered bytes.
    pub fn buffer(&self) -> (r: ByteRange)
        ensures
            r.start == self.ring()@.read_offset(),
            r.end == self.ring()@.read_offset() + self.ring()@.read_len(),
            r.end <= 2 * self.ring()@.len,
    {
        self.buf.fill_buf()
    }

    /// Unwraps the reader and gives the inner reader back.
    pub fn into_inner(self) -> (r: R)
        ensures
            r == self.inner(),
    {
        self.inner
    }

    /// How a read into a destination of `into` bytes goes on.
    pub fn read(&self, into: usize) -> (r: Reading)
        ensures
            r == if self.ring()@.read_len() == 0 && into >= self.ring()@.len {
                Reading::Direct
            } else {
                Reading::Buffered
            },
    {
        if self.buf.read_len() == 0 && into >= self.buf.write_capacity() {
            Reading::Direct
        } else {
            Reading::Buffered
        }
    }

    /// Where the inner reader is to read into before the buffer is used:
    /// the offsets of all the free bytes of the ring, if it holds no more
    /// than the low-water mark, else nothing.
    pub fn fill_buf(&mut self) -> (r: Option<ByteRange>)
        ensures
            *final(self) == *old(self),
            match r {
                Some(dst) => {
                    &&& old(self).ring()@.read_len() <= old(self).mark()
                    &&& dst.start == old(self).ring()@.write_offset()
                    &&& dst.end == dst.start + old(self).ring()@.write_len()
                    &&& dst.end <= 2 * old(self).ring()@.len
                },
                None => old(self).ring()@.read_len() > old(self).mark(),
            },
    {
        proof {
            self.buf.lemma_sides();
        }
        if self.buf.read_len() <= self.lowat {
            let _ = self.buf.write_len();
            Some(self.buf.as_write_slice(usize::MAX))
        } else {
            None
        }
    }

    /// Takes in the `n` bytes that the inner reader has read into the ring.
    pub fn feed(&mut self, n: usize)
        requires
            old(self).ring().can_feed(n),
        ensures
            final(self).ring()@ == old(self).ring()@.fed(n as int),
            final(self).inner() == old(self).inner(),
            final(self).mark() == old(self).mark(),
    {
        self.buf.feed(n);
    }

    /// Reads from the buffer into a destination of `into` bytes: the
    /// offsets of the bytes to copy, which are then consumed.
    pub fn read_from(&mut self, into: usize) -> (r: ByteRange)
        ensures
            r.start == old(self).ring()@.read_offset(),
            r.end == r.start + least(old(self).ring()@.read_len(), into as int),
            r.end <= 2 * old(self).ring()@.len,
            final(self).ring()@ == old(self).ring()@.consumed(into as int),
            final(self).inner() == old(self).inner(),
            final(self).mark() == old(self).mark(),
    {
        self.buf.read_and_consume(into)
    }

    /// Marks `amt` bytes of the buffer as read.
    pub fn consume(&mut self, amt: usize)
        ensures
            final(self).ring()@ == old(self).ring()@.consumed(amt as int),
            final(self).inner() == old(self).inner(),
            final(self).mark() == old(self).mark(),
    {
        self.buf.consume(amt);
    }
}

/// How a write to a buffered writer goes on.
#[derive(Debug)]
pub enum Writing {
    /// The source does not fit the free part of the ring even when it is
    /// flushed: write it to the inner writer directly.
    Direct,
    /// The source went into the ring: copy it to these offsets.
    Buffered(ByteRange),
}

/// How the inner writer answered a write of buffered bytes.
#[derive(Clone, Copy, Debug, PartialEq, Eq, Structural)]
pub enum Written {
    /// It took this many bytes.
    Bytes(usize),
    /// It was interrupted before it took any.
    Interrupted,
    /// It failed.
    Failed,
}

/// How the flushing of a buffered writer goes on after a write.
#[derive(Clone, Copy, Debug, PartialEq, Eq, Structural)]
pub enum Flushing {
    /// Go on with what is left in the buffer.
    Again,
    /// The inner writer took no byte at all: the flush fails as a write of
    /// zero bytes.
    WriteZero,
    /// The inner writer failed: the flush fails with its error.
    Failed,
}

/// A buffered writer: a ring in front of an inner writer.
pub struct BufWriter<W> {
    buf: Ring,
    inner: W,
    panicked: bool,
}

impl<W> BufWriter<W> {
    /// The ring of the writer.
    pub closed spec fn ring(&self) -> Ring {
        self.buf
    }

    /// The inner writer.
    pub closed spec fn inner(&self) -> W {
        self.inner
    }

    /// Whether a call of the inner writer was begun and has not come back.
    pub closed spec fn in_call(&self) -> bool {
        self.panicked
    }

    /// A writer over `inner` with an empty ring in the doubled range of
    /// `2 * len` bytes at `ptr`.
    pub fn new(inner: W, ptr: usize, len: usize) -> (w: Self)
        requires
            len > 0,
            ptr + 2 * len <= usize::MAX,
        ensures
            w.inner() == inner,
            w.ring()@ == (RingView { ptr, len, rpos: 0, wpos: 0 }),
            !w.in_call(),
    {
        BufWriter::from_parts(inner, Ring::new(ptr, len))
    }

    /// A writer over `inner` with the ring `buf`, which may hold bytes
    /// already.
    pub fn from_parts(inner: W, buf: Ring) -> (w: Self)
        ensures
            w.inner() == inner,
            w.ring() == buf,
            !w.in_call(),
    {
        BufWriter { buf, inner, panicked: false }
    }

    /// The ring of the writer.
    pub fn as_ring(&self) -> (r: &Ring)
        ensures
            *r == self.ring(),
    {
        &self.buf
    }

    /// The inner writer.
    pub fn get_ref(&self) -> (r: &W)
        ensures
            *r == self.inner(),
    {
        &self.inner
    }

    /// The inner writer, to change it.
    pub fn get_mut(&mut self) -> (r: &mut W)
        ensures
            *r == old(self).inner(),
            final(self).inner() == *final(r),
            final(self).ring() == old(self).ring(),
            final(self).in_call() == old(self).in_call(),
    {
        &mut self.inner
    }

    /// The offsets of the buffered bytes.
    pub fn buffer(&self) -> (r: ByteRange)
        ensures
            r.start == self.ring()@.read_offset(),
            r.end == self.ring()@.read_offset() + self.ring()@.read_len(),
            r.end <= 2 * self.ring()@.len,
    {
        self.buf.fill_buf()
    }

    /// Whether the buffer is to be flushed when the writer is dropped: not
    /// if a call of the inner writer never came back.
    pub fn flush_on_drop(&self) -> (b: bool)
        ensures
            b == !self.in_call(),
    {
        !self.panicked
    }

    /// Takes the writer apart into the inner writer and the ring with what
    /// is buffered and not written. If a call of the inner writer never
    /// came back, the ring comes as an error: what it holds may or may not
    /// have been written.
    pub fn into_parts(self) -> (r: (W, Result<Ring, WriterPanicked>))
        ensures
            r.0 == self.inner(),
            match r.1 {
                Ok(ring) => !self.in_call() && ring == self.ring(),
                Err(e) => self.in_call() && e.ring() == self.ring(),
            },
    {
        let buf = if self.panicked {
            Err(WriterPanicked(self.buf))
        } else {
            Ok(self.buf)
        };
        (self.inner, buf)
    }

    /// Unwraps the writer, given how the flushing of its buffer ended: the
    /// inner writer, or else the error of the flush with the writer itself.
    pub fn into_inner(self, flushed: Result<(), std::io::Error>) -> (r: Result<
        W,
        IntoInnerError<W>,
    >)
        ensures
            match flushed {
                Ok(_) => r == Ok::<W, IntoInnerError<W>>(self.inner()),
                Err(e) => r matches Err(err) && err.writer() == self && err.cause() == e,
            },
    {
        match flushed {
            Err(e) => Err(IntoInnerError(self, e)),
            Ok(_) => Ok(self.into_parts().0),
        }
    }

    /// One step of flushing the buffer: the offsets of the bytes to hand
    /// to the inner writer next, or nothing once the buffer is empty. From
    /// then until `flushed` is told the answer, a call of the inner writer
    /// counts as begun.
    pub fn flush_buf(&mut self) -> (r: Option<ByteRange>)
        ensures
            final(self).ring() == old(self).ring(),
            final(self).inner() == old(self).inner(),
            match r {
                None => {
                    &&& old(self).ring()@.read_len() == 0
                    &&& final(self).in_call() == old(self).in_call()
                },
                Some(src) => {
                    &&& old(self).ring()@.read_len() > 0
                    &&& final(self).in_call()
                    &&& src.start == old(self).ring()@.read_offset()
                    &&& src.end == src.start + old(self).ring()@.read_len()
                    &&& src.end <= 2 * old(self).ring()@.len
                },
            },
    {
        proof {
            self.buf.lemma_sides();
        }
        if self.buf.read_len() == 0 {
            None
        } else {
            self.panicked = true;
            Some(self.buf.fill_buf())
        }
    }

    /// Takes the answer of the inner writer to the bytes that `flush_buf`
    /// handed out: what it took is consumed, an interruption changes
    /// nothing, and a write of no bytes or a failure ends the flush.
    pub fn flushed(&mut self, answer: Written) -> (r: Flushing)
        ensures
            !final(self).in_call(),
            final(self).inner() == old(self).inner(),
            match answer {
                Written::Bytes(n) => if n == 0 {
                    r == Flushing::WriteZero && final(self).ring() == old(self).ring()
                } else {
                    r == Flushing::Again && final(self).ring()@ == old(self).ring()@.consumed(
                        n as int,
                    )
                },
                Written::Interrupted => {
                    &&& r == Flushing::Again
                    &&& final(self).ring() == old(self).ring()
                },
                Written::Failed => r == Flushing::Failed && final(self).ring() == old(self).ring(),
            },
    {
        self.panicked = false;
        match answer {
            Written::Bytes(n) => {
                if n == 0 {
                    Flushing::WriteZero
                } else {
                    self.buf.consume(n);
                    Flushing::Again
                }
            },
            Written::Interrupted => Flushing::Again,
            Written::Failed => Flushing::Failed,
        }
    }

    /// Takes the result of the inner writer for the bytes that `flush_buf`
    /// handed out, and says how the flush ends if it ends here: nothing
    /// while there is more to do, else the error. An error of the kind
    /// `Interrupted` counts as an interruption, and a write of no bytes
    /// gives an error of the kind `WriteZero`.
    pub fn flush_result(&mut self, result: Result<usize, std::io::Error>) -> (r: Option<
        std::io::Error,
    >)
        ensures
            !final(self).in_call(),
            final(self).inner() == old(self).inner(),
            match result {
                Ok(n) => if n == 0 {
                    r.is_some() && final(self).ring() == old(self).ring()
                } else {
                    r.is_none() && final(self).ring()@ == old(self).ring()@.consumed(n as int)
                },
                Err(e) => final(self).ring() == old(self).ring() && (r.is_none() || r == Some(e)),
            },
    {
        match result {
            Ok(n) => match self.flushed(Written::Bytes(n)) {
                Flushing::Again => None,
                _ => Some(io_error_of(std::io::ErrorKind::WriteZero)),
            },
            Err(e) => {
                let answer = match io_error_kind(&e) {
                    std::io::ErrorKind::Interrupted => Written::Interrupted,
                    _ => Written::Failed,
                };
                match self.flushed(answer) {
                    Flushing::Again => None,
                    _ => Some(e),
                }
            },
        }
    }

    /// Whether the buffer is to be flushed before `len` bytes are written:
    /// they are more than the ring has room for.
    pub fn must_flush(&self, len: usize) -> (b: bool)
        ensures
            b == (len > self.ring()@.write_len()),
    {
        len > self.buf.write_len()
    }

    /// Writes a source of `len` bytes, after the flush that `must_flush`
    /// may have asked for: a source that fills the free part of the ring or
    /// more goes to the inner writer directly, and a call of it counts as
    /// begun until `written` is called; any other goes into the ring.
    pub fn write(&mut self, len: usize) -> (r: Writing)
        requires
            old(self).ring().can_feed(len),
        ensures
            final(self).inner() == old(self).inner(),
            match r {
                Writing::Direct => {
                    &&& len >= old(self).ring()@.write_len()
                    &&& final(self).in_call()
                    &&& final(self).ring() == old(self).ring()
                },
                Writing::Buffered(dst) => {
                    &&& len < old(self).ring()@.write_len()
                    &&& final(self).in_call() == old(self).in_call()
                    &&& dst.start == old(self).ring()@.write_offset()
                    &&& dst.end == dst.start + len
                    &&& dst.end <= 2 * old(self).ring()@.len
                    &&& final(self).ring()@ == old(self).ring()@.fed(len as int)
                },
            },
    {
        proof {
            self.buf.lemma_sides();
        }
        if len >= self.buf.write_len() {
            self.panicked = true;
            Writing::Direct
        } else {
            Writing::Buffered(self.buf.write_into(len))
        }
    }

    /// Notes that the inner writer came back from a direct write.
    pub fn written(&mut self)
        ensures
            !final(self).in_call(),
            final(self).inner() == old(self).inner(),
            final(self).ring() == old(self).ring(),
    {
        self.panicked = false;
    }
}

/// The error of `BufWriter::into_inner`: the error that the flushing of the
/// buffer ended with, and the writer, which may be used to recover.
pub struct IntoInnerError<W>(BufWriter<W>, std::io::Error);

impl<W> IntoInnerError<W> {
    /// The writer that could not be unwrapped.
    pub closed spec fn writer(&self) -> BufWriter<W> {
        self.0
    }

    /// The error that the flush ended with.
    pub closed spec fn cause(&self) -> std::io::Error {
        self.1
    }

    /// The error which caused the call of `into_inner` to fail.
    pub fn error(&self) -> (e: &std::io::Error)
        ensures
            *e == self.cause(),
    {
        &self.1
    }

    /// The buffered writer which received the error.
    pub fn into_inner(self) -> (w: BufWriter<W>)
        ensures
            w == self.writer(),
    {
        self.0
    }

    /// The error which caused the call of `into_inner` to fail, owned.
    pub fn into_error(self) -> (e: std::io::Error)
        ensures
            e == self.cause(),
    {
        self.1
    }

    /// The error which caused the call of `into_inner` to fail, and the
    /// buffered writer.
    pub fn into_parts(self) -> (r: (std::io::Error, BufWriter<W>))
        ensures
            r.0 == self.cause(),
            r.1 == self.writer(),
    {
        (self.1, self.0)
    }
}

/// The ring of a writer whose inner writer never came back from a call: the
/// bytes in it may have been written in part.
pub struct WriterPanicked(Ring);

impl WriterPanicked {
    /// The ring with the bytes that may not have been written.
    pub closed spec fn ring(&self) -> Ring {
        self.0
    }

    /// The ring with the bytes that may not have been written.
    pub fn into_inner(self) -> (ring: Ring)
        ensures
            ring == self.ring(),
    {
        self.0
    }

    /// The words that describe this error.
    pub fn description(&self) -> (s: &'static str)
        ensures
            s@ == "writer panicked, unwritten data may remain"@,
    {
        "writer panicked, unwritten data may remain"
    }
}

} // verus!
