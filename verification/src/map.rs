//! Options for a mapping, and the handles of mapped spans.

use crate::error::{ConvertResult, Error, Input, Operation};
use crate::os::Request;
use crate::size::{bounded, rounded, truncated, lemma_bounded, lemma_rounded, lemma_truncated, Size};
use crate::span::{FromPtr, Span, SpanMut};
use crate::{Advise, Extent, Flush, Protect};
use core::marker::PhantomData;
use vstd::prelude::*;

verus! {

/// The whole pages that cover `len` bytes from `ptr`, as they are handed to
/// the host: the address they start at and the bytes they span.
pub open spec fn pages(page: Size, ptr: int, len: int) -> (usize, usize) {
    (bounded(page.unit(), ptr, len).0 as usize, bounded(page.unit(), ptr, len).1 as usize)
}

/// A mapped span that may be written to: the address it starts at and its
/// length in bytes.
#[derive(Debug)]
pub struct MapMut {
    ptr: usize,
    len: usize,
}

/// A mapped span that may only be read: a `MapMut` whose protection has
/// been narrowed.
#[derive(Debug)]
pub struct ReadMap(MapMut);

impl MapMut {
    #[verifier::type_invariant]
    spec fn wf(&self) -> bool {
        self.ptr + self.len <= usize::MAX
    }

    /// Whether the pages of size `page` that hold this span end within the
    /// address space.
    pub open spec fn within(&self, page: Size) -> bool {
        self.addr() + self.size() + page.unit() - 1 <= usize::MAX
    }

    /// Whether `len` bytes from the byte `off` on lie in this span.
    pub open spec fn holds(&self, off: usize, len: usize) -> bool {
        off + len <= self.size()
    }

    /// Whether the pages of size `page` that hold this span end within the
    /// address space.
    pub fn is_within(&self, page: &Size) -> (b: bool)
        ensures
            b == self.within(*page),
    {
        proof {
            use_type_invariant(self);
        }
        let unit = page.bytes();
        usize::MAX - self.ptr - self.len >= unit - 1
    }

    /// Options for a map that can be written to.
    pub fn with_options() -> (o: Options<MapMut>)
        ensures
            o@ == Settings::initial().written(),
    {
        let mut opts = Options::new();
        opts.write();
        opts
    }

    /// The plan for an anonymous map of at least `hint` bytes.
    pub fn new(hint: usize, page: &Size, unit: &Size) -> (w: Window)
        requires
            Settings::initial().written().sized(Extent::Min(hint)).fits(*page, *unit),
        ensures
            w == Settings::initial().written().sized(Extent::Min(hint)).anonymous(*page, *unit),
    {
        let mut opts = MapMut::with_options();
        opts.settings.len = Extent::Min(hint);
        opts.allocate(page, unit)
    }

    /// The call that narrows this span to reading, to be made before
    /// `into_map`.
    pub fn read_only(&self, page: &Size) -> (r: Request)
        requires
            self.within(*page),
        ensures
            r == (Request::Protect {
                ptr: pages(*page, self.addr() as int, self.size() as int).0,
                len: pages(*page, self.addr() as int, self.size() as int).1,
                protect: Protect::ReadOnly,
            }),
    {
        let (ptr, len) = self.bounds(page, 0, self.len);
        Request::Protect { ptr, len, protect: Protect::ReadOnly }
    }

    /// Turns this map into one that may only be read, given how the host
    /// answered the call of `read_only`. On failure the map comes back
    /// unchanged beside the error.
    pub fn into_map(self, outcome: Result<(), Error>) -> (r: ConvertResult<ReadMap, MapMut>)
        ensures
            match outcome {
                Ok(_) => r matches Ok(m) && m.addr() == self.addr() && m.size() == self.size(),
                Err(e) => r matches Err(pair) && pair.0 == e && pair.1 == self,
            },
    {
        match outcome {
            Ok(_) => Ok(ReadMap(self)),
            Err(e) => Err((e, self)),
        }
    }

    /// The whole pages of size `page` that cover `len` bytes from the byte
    /// `off` of this span on.
    fn bounds(&self, page: &Size, off: usize, len: usize) -> (r: (usize, usize))
        requires
            self.within(*page),
            self.holds(off, len),
        ensures
            r == pages(*page, self.addr() + off, len as int),
    {
        proof {
            use_type_invariant(self);
        }
        let unit = page.bytes();
        proof {
            lemma_truncated(unit as int, self.ptr + off);
            lemma_bounded(unit as int, self.ptr + off, len as int);
        }
        page.bounds(self.ptr + off, len)
    }

    /// Whether `len` bytes from the byte `off` on lie in this span.
    fn in_range(&self, off: usize, len: usize) -> (b: bool)
        ensures
            b == self.holds(off, len),
    {
        off <= self.len && len <= self.len - off
    }

    /// The call that writes the changes of the whole span back to its file.
    pub fn flush(&self, page: &Size, mode: Flush) -> (r: Request)
        requires
            self.within(*page),
        ensures
            r == (Request::Flush {
                ptr: pages(*page, self.addr() as int, self.size() as int).0,
                len: pages(*page, self.addr() as int, self.size() as int).1,
                mode,
            }),
    {
        let (ptr, len) = self.bounds(page, 0, self.len);
        Request::Flush { ptr, len, mode }
    }

    /// The call that writes the changes of `len` bytes from the byte `off`
    /// on back to the file, or the error of a range that is not in the span.
    pub fn flush_range(&self, page: &Size, off: usize, len: usize, mode: Flush) -> (r: Result<
        Request,
        Error,
    >)
        requires
            self.within(*page),
        ensures
            match r {
                Ok(call) => self.holds(off, len) && call == (Request::Flush {
                    ptr: pages(*page, self.addr() + off, len as int).0,
                    len: pages(*page, self.addr() + off, len as int).1,
                    mode,
                }),
                Err(e) => !self.holds(off, len) && e.is_input(
                    Operation::Flush,
                    Input::InvalidRange,
                ),
            },
    {
        if self.in_range(off, len) {
            let (ptr, len) = self.bounds(page, off, len);
            Ok(Request::Flush { ptr, len, mode })
        } else {
            Err(Error::input(Operation::Flush, Input::InvalidRange))
        }
    }

    /// The call that gives advice for the whole span.
    pub fn advise(&self, page: &Size, adv: Advise) -> (r: Request)
        requires
            self.within(*page),
        ensures
            r == (Request::Advise {
                ptr: pages(*page, self.addr() as int, self.size() as int).0,
                len: pages(*page, self.addr() as int, self.size() as int).1,
                advise: adv,
            }),
    {
        let (ptr, len) = self.bounds(page, 0, self.len);
        Request::Advise { ptr, len, advise: adv }
    }

    /// The call that gives advice for `len` bytes from the byte `off` on, or
    /// the error of a range that is not in the span.
    pub fn advise_range(&self, page: &Size, off: usize, len: usize, adv: Advise) -> (r: Result<
        Request,
        Error,
    >)
        requires
            self.within(*page),
        ensures
            match r {
                Ok(call) => self.holds(off, len) && call == (Request::Advise {
                    ptr: pages(*page, self.addr() + off, len as int).0,
                    len: pages(*page, self.addr() + off, len as int).1,
                    advise: adv,
                }),
                Err(e) => !self.holds(off, len) && e.is_input(
                    Operation::Advise,
                    Input::InvalidRange,
                ),
            },
    {
        if self.in_range(off, len) {
            let (ptr, len) = self.bounds(page, off, len);
            Ok(Request::Advise { ptr, len, advise: adv })
        } else {
            Err(Error::input(Operation::Advise, Input::InvalidRange))
        }
    }

    /// The call that locks the pages of the whole span into memory.
    pub fn lock(&self, page: &Size) -> (r: Request)
        requires
            self.within(*page),
        ensures
            r == (Request::Lock {
                ptr: pages(*page, self.addr() as int, self.size() as int).0,
                len: pages(*page, self.addr() as int, self.size() as int).1,
            }),
    {
        let (ptr, len) = self.bounds(page, 0, self.len);
        Request::Lock { ptr, len }
    }

    /// The call that locks the pages of `len` bytes from the byte `off` on
    /// into memory, or the error of a range that is not in the span.
    pub fn lock_range(&self, page: &Size, off: usize, len: usize) -> (r: Result<Request, Error>)
        requires
            self.within(*page),
        ensures
            match r {
                Ok(call) => self.holds(off, len) && call == (Request::Lock {
                    ptr: pages(*page, self.addr() + off, len as int).0,
                    len: pages(*page, self.addr() + off, len as int).1,
                }),
                Err(e) => !self.holds(off, len) && e.is_input(Operation::Lock, Input::InvalidRange),
            },
    {
        if self.in_range(off, len) {
            let (ptr, len) = self.bounds(page, off, len);
            Ok(Request::Lock { ptr, len })
        } else {
            Err(Error::input(Operation::Lock, Input::InvalidRange))
        }
    }

    /// The call that lets the pages of the whole span leave memory again.
    pub fn unlock(&self, page: &Size) -> (r: Request)
        requires
            self.within(*page),
        ensures
            r == (Request::Unlock {
                ptr: pages(*page, self.addr() as int, self.size() as int).0,
                len: pages(*page, self.addr() as int, self.size() as int).1,
            }),
    {
        let (ptr, len) = self.bounds(page, 0, self.len);
        Request::Unlock { ptr, len }
    }

    /// The call that lets the pages of `len` bytes from the byte `off` on
    /// leave memory again, or the error of a range that is not in the span.
    pub fn unlock_range(&self, page: &Size, off: usize, len: usize) -> (r: Result<Request, Error>)
        requires
            self.within(*page),
        ensures
            match r {
                Ok(call) => self.holds(off, len) && call == (Request::Unlock {
                    ptr: pages(*page, self.addr() + off, len as int).0,
                    len: pages(*page, self.addr() + off, len as int).1,
                }),
                Err(e) => !self.holds(off, len) && e.is_input(
                    Operation::Unlock,
                    Input::InvalidRange,
                ),
            },
    {
        if self.in_range(off, len) {
            let (ptr, len) = self.bounds(page, off, len);
            Ok(Request::Unlock { ptr, len })
        } else {
            Err(Error::input(Operation::Unlock, Input::InvalidRange))
        }
    }

    /// The call that gives the span back when its handle is dropped: none
    /// for an empty span, else the whole units of allocation that hold it.
    pub fn unmap(&self, unit: &Size) -> (r: Option<Request>)
        requires
            self.within(*unit),
        ensures
            r == if self.size() == 0 {
                None
            } else {
                Some(
                    Request::Unmap {
                        ptr: pages(*unit, self.addr() as int, self.size() as int).0,
                        len: pages(*unit, self.addr() as int, self.size() as int).1,
                    },
                )
            },
    {
        if self.len > 0 {
            let (ptr, len) = self.bounds(unit, 0, self.len);
            Some(Request::Unmap { ptr, len })
        } else {
            None
        }
    }
}

impl Span for MapMut {
    closed spec fn addr(&self) -> usize {
        self.ptr
    }

    closed spec fn size(&self) -> usize {
        self.len
    }

    fn len(&self) -> usize {
        proof {
            use_type_invariant(self);
            assert(self.addr() == self.ptr);
        }
        self.len
    }

    fn as_ptr(&self) -> usize {
        proof {
            use_type_invariant(self);
            assert(self.addr() == self.ptr);
        }
        self.ptr
    }
}

impl SpanMut for MapMut {
    fn as_mut_ptr(&mut self) -> usize {
        self.ptr
    }
}

impl FromPtr for MapMut {
    fn from_ptr(ptr: usize, len: usize) -> Self {
        MapMut { ptr, len }
    }
}

impl ReadMap {
    /// Whether the pages of size `page` that hold this span end within the
    /// address space.
    pub open spec fn within(&self, page: Size) -> bool {
        self.addr() + self.size() + page.unit() - 1 <= usize::MAX
    }

    /// Whether `len` bytes from the byte `off` on lie in this span.
    pub open spec fn holds(&self, off: usize, len: usize) -> bool {
        off + len <= self.size()
    }

    /// Whether the pages of size `page` that hold this span end within the
    /// address space.
    pub fn is_within(&self, page: &Size) -> (b: bool)
        ensures
            b == self.within(*page),
    {
        proof {
            assert(self.addr() == self.0.addr());
            assert(self.size() == self.0.size());
        }
        self.0.is_within(page)
    }

    /// Options for a map that is only read.
    pub fn with_options() -> (o: Options<ReadMap>)
        ensures
            o@ == Settings::initial(),
    {
        Options::new()
    }

    /// The call that widens this span to writing, to be made before
    /// `into_map_mut`.
    pub fn read_write(&self, page: &Size) -> (r: Request)
        requires
            self.within(*page),
        ensures
            r == (Request::Protect {
                ptr: pages(*page, self.addr() as int, self.size() as int).0,
                len: pages(*page, self.addr() as int, self.size() as int).1,
                protect: Protect::ReadWrite,
            }),
    {
        let (ptr, len) = self.0.bounds(page, 0, self.0.len);
        Request::Protect { ptr, len, protect: Protect::ReadWrite }
    }

    /// Turns this map into one that may be written to, given how the host
    /// answered the call of `read_write`. On failure the map comes back
    /// unchanged beside the error.
    pub fn into_map_mut(self, outcome: Result<(), Error>) -> (r: ConvertResult<MapMut, ReadMap>)
        ensures
            match outcome {
                Ok(_) => r matches Ok(m) && m.addr() == self.addr() && m.size() == self.size(),
                Err(e) => r matches Err(pair) && pair.0 == e && pair.1 == self,
            },
    {
        match outcome {
            Ok(_) => Ok(self.0),
            Err(e) => Err((e, self)),
        }
    }

    /// The call that gives advice for the whole span.
    pub fn advise(&self, page: &Size, adv: Advise) -> (r: Request)
        requires
            self.within(*page),
        ensures
            r == (Request::Advise {
                ptr: pages(*page, self.addr() as int, self.size() as int).0,
                len: pages(*page, self.addr() as int, self.size() as int).1,
                advise: adv,
            }),
    {
        self.0.advise(page, adv)
    }

    /// The call that gives advice for `len` bytes from the byte `off` on, or
    /// the error of a range that is not in the span.
    pub fn advise_range(&self, page: &Size, off: usize, len: usize, adv: Advise) -> (r: Result<
        Request,
        Error,
    >)
        requires
            self.within(*page),
        ensures
            match r {
                Ok(call) => self.holds(off, len) && call == (Request::Advise {
                    ptr: pages(*page, self.addr() + off, len as int).0,
                    len: pages(*page, self.addr() + off, len as int).1,
                    advise: adv,
                }),
                Err(e) => !self.holds(off, len) && e.is_input(
                    Operation::Advise,
                    Input::InvalidRange,
                ),
            },
    {
        self.0.advise_range(page, off, len, adv)
    }

    /// The call that locks the pages of the whole span into memory.
    pub fn lock(&self, page: &Size) -> (r: Request)
        requires
            self.within(*page),
        ensures
            r == (Request::Lock {
                ptr: pages(*page, self.addr() as int, self.size() as int).0,
                len: pages(*page, self.addr() as int, self.size() as int).1,
            }),
    {
        self.0.lock(page)
    }

    /// The call that locks the pages of `len` bytes from the byte `off` on
    /// into memory, or the error of a range that is not in the span.
    pub fn lock_range(&self, page: &Size, off: usize, len: usize) -> (r: Result<Request, Error>)
        requires
            self.within(*page),
        ensures
            match r {
                Ok(call) => self.holds(off, len) && call == (Request::Lock {
                    ptr: pages(*page, self.addr() + off, len as int).0,
                    len: pages(*page, self.addr() + off, len as int).1,
                }),
                Err(e) => !self.holds(off, len) && e.is_input(Operation::Lock, Input::InvalidRange),
            },
    {
        self.0.lock_range(page, off, len)
    }

    /// The call that lets the pages of the whole span leave memory again.
    pub fn unlock(&self, page: &Size) -> (r: Request)
        requires
            self.within(*page),
        ensures
            r == (Request::Unlock {
                ptr: pages(*page, self.addr() as int, self.size() as int).0,
                len: pages(*page, self.addr() as int, self.size() as int).1,
            }),
    {
        self.0.unlock(page)
    }

    /// The call that lets the pages of `len` bytes from the byte `off` on
    /// leave memory again, or the error of a range that is not in the span.
    pub fn unlock_range(&self, page: &Size, off: usize, len: usize) -> (r: Result<Request, Error>)
        requires
            self.within(*page),
        ensures
            match r {
                Ok(call) => self.holds(off, len) && call == (Request::Unlock {
                    ptr: pages(*page, self.addr() + off, len as int).0,
                    len: pages(*page, self.addr() + off, len as int).1,
                }),
                Err(e) => !self.holds(off, len) && e.is_input(
                    Operation::Unlock,
                    Input::InvalidRange,
                ),
            },
    {
        self.0.unlock_range(page, off, len)
    }

    /// The call that gives the span back when its handle is dropped: none
    /// for an empty span, else the whole units of allocation that hold it.
    pub fn unmap(&self, unit: &Size) -> (r: Option<Request>)
        requires
            self.within(*unit),
        ensures
            r == if self.size() == 0 {
                None
            } else {
                Some(
                    Request::Unmap {
                        ptr: pages(*unit, self.addr() as int, self.size() as int).0,
                        len: pages(*unit, self.addr() as int, self.size() as int).1,
                    },
                )
            },
    {
        self.0.unmap(unit)
    }
}

impl Span for ReadMap {
    closed spec fn addr(&self) -> usize {
        self.0.ptr
    }

    closed spec fn size(&self) -> usize {
        self.0.len
    }

    fn len(&self) -> usize {
        proof {
            assert(self.addr() == self.0.addr());
        }
        self.0.len()
    }

    fn as_ptr(&self) -> usize {
        proof {
            assert(self.addr() == self.0.addr());
        }
        self.0.as_ptr()
    }
}

impl FromPtr for ReadMap {
    fn from_ptr(ptr: usize, len: usize) -> Self {
        ReadMap(MapMut::from_ptr(ptr, len))
    }
}

/// How a file is to be opened.
#[derive(Clone, Copy, Debug, PartialEq, Eq, Structural)]
pub struct OpenFlags {
    /// Open for reading.
    pub read: bool,
    /// Open for writing.
    pub write: bool,
    /// Create the file if it is missing.
    pub create: bool,
    /// Create the file, and fail if it is there already.
    pub create_new: bool,
    /// Cut the file to no bytes when it is opened.
    pub truncate: bool,
}

/// What the options of a mapping hold.
#[derive(Clone, Copy, Debug, PartialEq, Eq, Structural)]
pub struct Settings {
    /// How the file is opened.
    pub open: OpenFlags,
    /// The length that the file is brought to before it is mapped.
    pub resize: Extent,
    /// The length of the map.
    pub len: Extent,
    /// The byte of the file, or of the first page, at which the map starts.
    pub offset: usize,
    /// The protection of the mapped pages.
    pub protect: Protect,
    /// Whether the file is cut to no bytes first.
    pub truncate: bool,
}

/// What the host is asked for, and where in what it returns the map lies.
#[derive(Clone, Copy, Debug, PartialEq, Eq, Structural)]
pub struct Window {
    /// The call that maps the pages.
    pub request: Request,
    /// The bytes between the start of the pages and the start of the map.
    pub skip: usize,
    /// The length of the map.
    pub len: usize,
}

/// What is to be done with a file before it is mapped, and the map to make
/// of it then.
#[derive(Debug)]
pub struct FilePlan<V> {
    /// Whether the file is cut to no bytes first.
    pub truncate: bool,
    /// The length that the file is set to after that, if any.
    pub resize: Option<usize>,
    /// The map of the file as it is then.
    pub window: V,
}

impl Settings {
    /// The settings that options start with: the whole of a file that is
    /// opened for reading.
    pub open spec fn initial() -> Settings {
        Settings {
            open: OpenFlags {
                read: true,
                write: false,
                create: false,
                create_new: false,
                truncate: false,
            },
            resize: Extent::End,
            len: Extent::End,
            offset: 0,
            protect: Protect::ReadOnly,
            truncate: false,
        }
    }

    /// These settings with write access.
    pub open spec fn written(self) -> Settings {
        Settings {
            open: OpenFlags { write: true, ..self.open },
            protect: Protect::ReadWrite,
            ..self
        }
    }

    /// These settings with copy-on-write access.
    pub open spec fn copied(self) -> Settings {
        Settings {
            open: OpenFlags { write: false, ..self.open },
            protect: Protect::ReadCopy,
            ..self
        }
    }

    /// These settings with the length `len`.
    pub open spec fn sized(self, len: Extent) -> Settings {
        Settings { len, ..self }
    }

    /// The length of a file of `flen` bytes once it is cut, if these
    /// settings say so.
    pub open spec fn cut(&self, flen: usize) -> usize {
        if self.truncate {
            0
        } else {
            flen
        }
    }

    /// The length that a cut file is set to, if it is set at all.
    pub open spec fn resize_to(&self, flen: usize) -> Option<usize> {
        match self.resize {
            Extent::End => None,
            Extent::Exact(s) => Some(s),
            Extent::Min(s) => if s > self.cut(flen) {
                Some(s)
            } else {
                None
            },
            Extent::Max(s) => if s < self.cut(flen) {
                Some(s)
            } else {
                None
            },
        }
    }

    /// The length of a file of `flen` bytes once it is cut and resized as
    /// these settings say.
    pub open spec fn resized(&self, flen: usize) -> usize {
        match self.resize_to(flen) {
            Some(s) => s,
            None => self.cut(flen),
        }
    }

    /// The length of the map in a file of `flen` bytes, none where the
    /// offset or the length asked for lies outside the file.
    pub open spec fn span(&self, flen: usize) -> Option<usize> {
        if flen < self.offset {
            None
        } else {
            let max = (flen - self.offset) as usize;
            match self.len {
                Extent::End => Some(max),
                Extent::Min(l) => if l <= max {
                    Some(max)
                } else {
                    None
                },
                Extent::Max(l) => if l <= max {
                    Some(l)
                } else {
                    Some(max)
                },
                Extent::Exact(l) => if l <= max {
                    Some(l)
                } else {
                    None
                },
            }
        }
    }

    /// The window of `len` bytes at the offset of these settings in a file:
    /// the pages start at the offset rounded down to the granularity `unit`.
    pub open spec fn framed(&self, unit: Size, len: usize) -> Window {
        let start = truncated(unit.unit(), self.offset as int);
        Window {
            request: Request::MapFile {
                offset: start as usize,
                len: (len + (self.offset - start)) as usize,
                protect: self.protect,
            },
            skip: (self.offset - start) as usize,
            len,
        }
    }

    /// The map of a file that is `flen` bytes long after cutting and resizing.
    pub open spec fn window(&self, unit: Size, flen: usize) -> Option<Window> {
        match self.span(flen) {
            Some(len) => Some(self.framed(unit, len)),
            None => None,
        }
    }

    /// The length of an anonymous map: one unit of allocation less the
    /// offset in its page unless a length is given.
    pub open spec fn anonymous_len(&self, page: Size, unit: Size) -> int {
        let off = self.offset as int % page.unit();
        match self.len {
            Extent::End => rounded(unit.unit(), off + 1) - off,
            Extent::Min(l) => rounded(unit.unit(), off + l) - off,
            Extent::Max(l) => l as int,
            Extent::Exact(l) => l as int,
        }
    }

    /// Whether the anonymous map of these settings fits the address space.
    pub open spec fn fits(&self, page: Size, unit: Size) -> bool {
        let off = self.offset as int % page.unit();
        match self.len {
            Extent::End => off + unit.unit() <= usize::MAX,
            Extent::Min(l) => off + l + unit.unit() - 1 <= usize::MAX,
            Extent::Max(l) => off + l <= usize::MAX,
            Extent::Exact(l) => off + l <= usize::MAX,
        }
    }

    /// The anonymous map of these settings: the offset counts within its
    /// page, and the pages hold the offset and the length.
    pub open spec fn anonymous(&self, page: Size, unit: Size) -> Window {
        let off = self.offset as int % page.unit();
        let len = self.anonymous_len(page, unit);
        Window {
            request: Request::MapAnon { len: (off + len) as usize, protect: self.protect },
            skip: off as usize,
            len: len as usize,
        }
    }
}

/// The window on a file starts on a unit of allocation, ends where the map
/// ends, and lies in the file; the map starts less than one unit into it.
pub proof fn lemma_window_in_file(settings: Settings, unit: Size, flen: usize)
    requires
        unit.unit() > 0,
        settings.window(unit, flen).is_some(),
    ensures
        ({
            let w = settings.window(unit, flen).unwrap();
            &&& w.request matches Request::MapFile { offset, len, protect }
            &&& protect == settings.protect
            &&& offset as int % unit.unit() == 0
            &&& offset + w.skip == settings.offset
            &&& w.skip < unit.unit()
            &&& len == w.skip + w.len
            &&& settings.offset + w.len <= flen
            &&& Some(w.len) == settings.span(flen)
        }),
{
    lemma_truncated(unit.unit(), settings.offset as int);
    vstd::arithmetic::div_mod::lemma_mod_bound(settings.offset as int, unit.unit());
}

/// The length of a map is what the extent asks for: all that the file
/// holds from the offset on, an exact length, no less than a minimum, or
/// no more than a maximum.
pub proof fn lemma_span_meets_extent(settings: Settings, flen: usize)
    ensures
        match settings.span(flen) {
            Some(len) => settings.offset + len <= flen && match settings.len {
                Extent::End => settings.offset + len == flen,
                Extent::Exact(l) => len == l,
                Extent::Min(l) => len >= l && settings.offset + len == flen,
                Extent::Max(l) => len <= l && (len == l || settings.offset + len == flen),
            },
            None => flen < settings.offset || match settings.len {
                Extent::Exact(l) => settings.offset + l > flen,
                Extent::Min(l) => settings.offset + l > flen,
                _ => false,
            },
        },
{
}

/// An anonymous window holds the offset within its page and the map behind
/// it, and the map is as long as the extent asks for.
pub proof fn lemma_anonymous_window(settings: Settings, page: Size, unit: Size)
    requires
        page.unit() > 0,
        unit.unit() > 0,
        settings.fits(page, unit),
    ensures
        ({
            let w = settings.anonymous(page, unit);
            &&& w.request matches Request::MapAnon { len, protect }
            &&& protect == settings.protect
            &&& w.skip == settings.offset as int % page.unit()
            &&& len == w.skip + w.len
            &&& match settings.len {
                Extent::End => w.len >= 1 && len as int % unit.unit() == 0,
                Extent::Min(l) => w.len >= l && len as int % unit.unit() == 0,
                Extent::Max(l) => w.len == l,
                Extent::Exact(l) => w.len == l,
            }
        }),
{
    let off = settings.offset as int % page.unit();
    vstd::arithmetic::div_mod::lemma_mod_bound(settings.offset as int, page.unit());
    lemma_rounded(unit.unit(), off + 1);
    if let Extent::Min(l) = settings.len {
        lemma_rounded(unit.unit(), off + l);
    }
}

impl Window {
    /// The map that lies in the pages that the host returned at `base`.
    pub fn place<T: FromPtr>(&self, base: usize) -> (map: T)
        requires
            base + self.skip + self.len <= usize::MAX,
        ensures
            map.addr() == base + self.skip,
            map.size() == self.len,
    {
        T::from_ptr(base + self.skip, self.len)
    }
}

/// Options to configure how a map is made of a file or of anonymous memory.
/// `T` is the kind of map that comes out, `ReadMap` or `MapMut`.
pub struct Options<T> {
    settings: Settings,
    _marker: PhantomData<T>,
}

impl<T> View for Options<T> {
    type V = Settings;

    closed spec fn view(&self) -> Settings {
        self.settings
    }
}

impl<T> Options<T> {
    /// Options in their default state: the whole of a file, read only.
    pub fn new() -> (o: Self)
        ensures
            o@ == Settings::initial(),
    {
        Options {
            settings: Settings {
                open: OpenFlags {
                    read: true,
                    write: false,
                    create: false,
                    create_new: false,
                    truncate: false,
                },
                resize: Extent::End,
                len: Extent::End,
                offset: 0,
                protect: Protect::ReadOnly,
                truncate: false,
            },
            _marker: PhantomData,
        }
    }

    /// What these options hold.
    pub fn settings(&self) -> (s: Settings)
        ensures
            s == self@,
    {
        self.settings
    }

    /// Sets the option for write access.
    pub fn write(&mut self) -> (r: &mut Self)
        ensures
            r@ == old(self)@.written(),
            *final(self) == *final(r),
    {
        self.settings.open.write = true;
        self.settings.protect = Protect::ReadWrite;
        self
    }

    /// Sets the option for copy-on-write access.
    pub fn copy(&mut self) -> (r: &mut Self)
        ensures
            r@ == old(self)@.copied(),
            *final(self) == *final(r),
    {
        self.settings.open.write = false;
        self.settings.protect = Protect::ReadCopy;
        self
    }

    /// Sets the option to create a new file, or open it if it already exists.
    pub fn create(&mut self, create: bool) -> (r: &mut Self)
        ensures
            r@ == (Settings { open: OpenFlags { create, ..old(self)@.open }, ..old(self)@ }),
            *final(self) == *final(r),
    {
        self.settings.open.create = create;
        self
    }

    /// Sets the option to create a new file, failing if it already exists.
    pub fn create_new(&mut self, create_new: bool) -> (r: &mut Self)
        ensures
            r@ == (Settings { open: OpenFlags { create_new, ..old(self)@.open }, ..old(self)@ }),
            *final(self) == *final(r),
    {
        self.settings.open.create_new = create_new;
        self
    }

    /// Sets the option for truncating a previous file.
    pub fn truncate(&mut self, truncate: bool) -> (r: &mut Self)
        ensures
            r@ == (Settings {
                open: OpenFlags { truncate, ..old(self)@.open },
                truncate,
                ..old(self)@
            }),
            *final(self) == *final(r),
    {
        self.settings.open.truncate = truncate;
        self.settings.truncate = truncate;
        self
    }

    /// Sets the byte offset into the mapping.
    pub fn offset(&mut self, offset: usize) -> (r: &mut Self)
        ensures
            r@ == (Settings { offset, ..old(self)@ }),
            *final(self) == *final(r),
    {
        self.settings.offset = offset;
        self
    }

    /// Sets the byte length extent of the mapping. A plain number is an
    /// exact length.
    pub fn len<E: Into<Extent>>(&mut self, value: E) -> (r: &mut Self)
        ensures
            call_ensures(<E as Into<Extent>>::into, (value,), r@.len),
            r@ == old(self)@.sized(r@.len),
            *final(self) == *final(r),
    {
        self.settings.len = value.into();
        self
    }

    /// Sets the option to resize the file prior to mapping. A plain number
    /// is an exact length.
    pub fn resize<E: Into<Extent>>(&mut self, value: E) -> (r: &mut Self)
        ensures
            call_ensures(<E as Into<Extent>>::into, (value,), r@.resize),
            r@ == (Settings { resize: r@.resize, ..old(self)@ }),
            *final(self) == *final(r),
    {
        self.settings.resize = value.into();
        self
    }

    /// How the file is to be opened.
    pub fn open_flags(&self) -> (f: OpenFlags)
        ensures
            f == self@.open,
    {
        self.settings.open
    }

    /// What to do with an open file of `flen` bytes before it is mapped, and
    /// the map to make of it then, none where the range asked for lies
    /// outside the file as it is after that.
    pub fn map_if(&self, flen: usize, unit: &Size) -> (plan: FilePlan<Option<Window>>)
        ensures
            plan.truncate == (self@.truncate && flen > 0),
            plan.resize == self@.resize_to(flen),
            plan.window == self@.window(*unit, self@.resized(flen)),
    {
        let s = &self.settings;
        let off = s.offset;
        let mut flen = flen;
        let truncate = s.truncate && flen > 0;
        if truncate {
            flen = 0;
        }
        let resize = match s.resize {
            Extent::Exact(sz) => Some(sz),
            Extent::Min(sz) => if sz > flen {
                Some(sz)
            } else {
                None
            },
            Extent::Max(sz) => if sz < flen {
                Some(sz)
            } else {
                None
            },
            Extent::End => None,
        };
        if let Some(sz) = resize {
            flen = sz;
        }
        if flen < off {
            return FilePlan { truncate, resize, window: None };
        }
        let max = flen - off;
        let len = match s.len {
            Extent::Min(l) => if l > max {
                return FilePlan { truncate, resize, window: None };
            } else {
                max
            },
            Extent::Exact(l) => if l > max {
                return FilePlan { truncate, resize, window: None };
            } else {
                l
            },
            Extent::End => max,
            Extent::Max(l) => if l < max {
                l
            } else {
                max
            },
        };
        let unit_bytes = unit.bytes();
        proof {
            lemma_truncated(unit_bytes as int, off as int);
        }
        let mapoff = unit.truncate(off);
        let maplen = len + (off - mapoff);
        FilePlan {
            truncate,
            resize,
            window: Some(
                Window {
                    request: Request::MapFile { offset: mapoff, len: maplen, protect: s.protect },
                    skip: off - mapoff,
                    len,
                },
            ),
        }
    }

    /// What to do with an open file of `flen` bytes before it is mapped, and
    /// the map to make of it then, or the error of a range that lies outside
    /// the file as it is after that.
    pub fn map(&self, flen: usize, unit: &Size) -> (plan: FilePlan<Result<Window, Error>>)
        ensures
            plan.truncate == (self@.truncate && flen > 0),
            plan.resize == self@.resize_to(flen),
            match plan.window {
                Ok(w) => self@.window(*unit, self@.resized(flen)) == Some(w),
                Err(e) => self@.window(*unit, self@.resized(flen)).is_none() && e.is_input(
                    Operation::MapFile,
                    Input::InvalidRange,
                ),
            },
    {
        let plan = self.map_if(flen, unit);
        let window = match plan.window {
            Some(w) => Ok(w),
            None => Err(Error::input(Operation::MapFile, Input::InvalidRange)),
        };
        FilePlan { truncate: plan.truncate, resize: plan.resize, window }
    }

    /// Whether the anonymous allocation that these options ask for fits the
    /// address space.
    pub fn can_allocate(&self, page: &Size, unit: &Size) -> (b: bool)
        ensures
            b == self@.fits(*page, *unit),
    {
        let off = page.offset(self.settings.offset);
        let unit_bytes = unit.bytes();
        let room = usize::MAX - off;
        match self.settings.len {
            Extent::End => unit_bytes <= room,
            Extent::Min(l) => l <= room && unit_bytes - 1 <= room - l,
            Extent::Max(l) => l <= room,
            Extent::Exact(l) => l <= room,
        }
    }

    /// The anonymous allocation that these options ask for.
    pub fn allocate(&self, page: &Size, unit: &Size) -> (w: Window)
        requires
            self@.fits(*page, *unit),
        ensures
            w == self@.anonymous(*page, *unit),
    {
        let s = &self.settings;
        let page_bytes = page.bytes();
        let unit_bytes = unit.bytes();
        let off = page.offset(s.offset);
        proof {
            lemma_rounded(unit_bytes as int, off + 1);
            if let Extent::Min(l) = s.len {
                lemma_rounded(unit_bytes as int, off + l);
            }
        }
        let len = match s.len {
            Extent::End => unit.round(off + 1) - off,
            Extent::Min(l) => unit.round(off + l) - off,
            Extent::Max(l) => l,
            Extent::Exact(l) => l,
        };
        Window { request: Request::MapAnon { len: off + len, protect: s.protect }, skip: off, len }
    }
}

impl<T> Default for Options<T> {
    fn default() -> (o: Self)
        ensures
            o@ == Settings::initial(),
    {
        Options::new()
    }
}

} // verus!
