//! The calls of a Windows host: file mapping objects and their views, and
//! the mapping of a ring by reserving a range and mapping two views into it.

use crate::error::Operation;
use crate::os::{Answer, Progress, RingEnd};
use crate::{Flush, Protect};
use vstd::prelude::*;

verus! {

/// The protection of the pages of a file mapping object.
#[derive(Clone, Copy, Debug, PartialEq, Eq, Structural)]
pub enum Page {
    /// `PAGE_READONLY`
    ReadOnly,
    /// `PAGE_READWRITE`
    ReadWrite,
    /// `PAGE_WRITECOPY`
    WriteCopy,
}

/// The access of a view: `FILE_MAP_READ`, `FILE_MAP_WRITE` and
/// `FILE_MAP_COPY`, each set or not.
#[derive(Clone, Copy, Debug, PartialEq, Eq, Structural)]
pub struct Access {
    pub read: bool,
    pub write: bool,
    pub copy: bool,
}

/// What a file mapping object is made of.
#[derive(Clone, Copy, Debug, PartialEq, Eq, Structural)]
pub enum Backing {
    /// The file that is mapped.
    File,
    /// The paging file: `INVALID_HANDLE_VALUE`.
    Paging,
}

/// One system call.
#[derive(Clone, Copy, Debug, PartialEq, Eq, Structural)]
pub enum Call {
    /// `CreateFileMappingW` with no attributes and no name; a size of zero
    /// is the size of the file.
    CreateFileMapping { file: Backing, protect: Page, size_high: u32, size_low: u32 },
    /// `MapViewOfFileEx`; the address 0 leaves the choice to the host.
    MapViewOfFile {
        map: usize,
        access: Access,
        offset_high: u32,
        offset_low: u32,
        len: usize,
        at: usize,
    },
    /// `UnmapViewOfFile`
    UnmapViewOfFile { ptr: usize },
    /// `CloseHandle`
    CloseHandle { handle: usize },
    /// `VirtualAlloc` at no address, with `MEM_RESERVE` and `PAGE_NOACCESS`.
    Reserve { len: usize },
    /// `VirtualFree` of the whole reservation, with `MEM_RELEASE`.
    Release { ptr: usize },
    /// `VirtualProtect`
    VirtualProtect { ptr: usize, len: usize, protect: Page },
    /// `FlushViewOfFile`
    FlushViewOfFile { ptr: usize, len: usize },
    /// `FlushFileBuffers` on the file that is mapped.
    FlushFileBuffers,
    /// `VirtualLock`
    VirtualLock { ptr: usize, len: usize },
    /// `VirtualUnlock`
    VirtualUnlock { ptr: usize, len: usize },
}

/// The number of times that a ring is tried again at another address.
pub const RETRIES: u32 = 5;

/// The upper and the lower 32 bits of a length or an offset.
pub open spec fn halves(n: usize) -> (u32, u32) {
    ((n as int / 0x1_0000_0000) as u32, (n as int % 0x1_0000_0000) as u32)
}

/// The upper and the lower 32 bits of a length or an offset.
pub fn split(n: usize) -> (r: (u32, u32))
    ensures
        r == halves(n),
{
    let wide = n as u64;
    assert(wide >> 32 == wide / 0x1_0000_0000) by (bit_vector);
    assert(wide & 0xffff_ffff == wide % 0x1_0000_0000) by (bit_vector);
    assert(wide >> 32 <= 0xffff_ffff) by (bit_vector);
    ((wide >> 32) as u32, (wide & 0xffff_ffff) as u32)
}

/// The protection of the pages and the access of the view for a map under
/// a protection. Pages cannot be mapped for execution here.
pub open spec fn access_of(protect: Protect) -> Option<(Page, Access)> {
    match protect {
        Protect::ReadOnly => Some((Page::ReadOnly, Access { read: true, write: false, copy: false })),
        Protect::ReadWrite => Some(
            (Page::ReadWrite, Access { read: true, write: true, copy: false }),
        ),
        Protect::ReadCopy => Some(
            (Page::WriteCopy, Access { read: false, write: false, copy: true }),
        ),
        Protect::ReadExec => None,
    }
}

/// The protection of the pages and the access of the view for a map under
/// a protection.
pub fn access(protect: Protect) -> (r: Option<(Page, Access)>)
    ensures
        r == access_of(protect),
{
    match protect {
        Protect::ReadOnly => Some((Page::ReadOnly, Access { read: true, write: false, copy: false })),
        Protect::ReadWrite => Some(
            (Page::ReadWrite, Access { read: true, write: true, copy: false }),
        ),
        Protect::ReadCopy => Some(
            (Page::WriteCopy, Access { read: false, write: false, copy: true }),
        ),
        Protect::ReadExec => None,
    }
}

/// Reading and writing through a view.
pub open spec fn read_write() -> Access {
    Access { read: true, write: true, copy: false }
}

/// A file mapping object, by its handle.
#[derive(Clone, Copy, Debug, PartialEq, Eq, Structural)]
pub struct MapHandle {
    /// The handle of the object.
    pub map: usize,
}

impl MapHandle {
    /// The call that makes a file mapping object of `len` bytes.
    pub fn new(file: Backing, protect: Page, len: usize) -> (call: Call)
        ensures
            call == (Call::CreateFileMapping {
                file,
                protect,
                size_high: halves(len).0,
                size_low: halves(len).1,
            }),
    {
        let (size_high, size_low) = split(len);
        Call::CreateFileMapping { file, protect, size_high, size_low }
    }

    /// The call that maps a view of `len` bytes of the object from the
    /// byte `off` on, at the address `at`.
    pub fn view_ptr(&self, access: Access, off: usize, len: usize, at: usize) -> (call: Call)
        ensures
            call == (Call::MapViewOfFile {
                map: self.map,
                access,
                offset_high: halves(off).0,
                offset_low: halves(off).1,
                len,
                at,
            }),
    {
        let (offset_high, offset_low) = split(off);
        Call::MapViewOfFile { map: self.map, access, offset_high, offset_low, len, at }
    }

    /// The address of a view under the operation `op`, given what the call
    /// of `view_ptr` returned and the code that the host left: a null
    /// address is a failure.
    pub fn view(op: Operation, pg: usize, code: i32) -> (r: RingEnd)
        ensures
            r == if pg == 0 {
                RingEnd::Failed(op, code)
            } else {
                RingEnd::Mapped(pg)
            },
    {
        if pg == 0 {
            RingEnd::Failed(op, code)
        } else {
            RingEnd::Mapped(pg)
        }
    }
}

/// The call that makes the file mapping object for the map of a file,
/// none for a protection that has no map here. The object covers the file.
pub fn map_file(protect: Protect) -> (call: Option<Call>)
    ensures
        call == match access_of(protect) {
            Some(pair) => Some(
                Call::CreateFileMapping {
                    file: Backing::File,
                    protect: pair.0,
                    size_high: 0,
                    size_low: 0,
                },
            ),
            None => None,
        },
{
    match access(protect) {
        Some(pair) => Some(MapHandle::new(Backing::File, pair.0, 0)),
        None => None,
    }
}

/// The call that maps `len` bytes from the byte `off` of a file through
/// its mapping object, wherever the host likes.
pub fn map_file_view(map: &MapHandle, off: usize, len: usize, protect: Protect) -> (call: Option<
    Call,
>)
    ensures
        call == match access_of(protect) {
            Some(pair) => Some(
                Call::MapViewOfFile {
                    map: map.map,
                    access: pair.1,
                    offset_high: halves(off).0,
                    offset_low: halves(off).1,
                    len,
                    at: 0,
                },
            ),
            None => None,
        },
{
    match access(protect) {
        Some(pair) => Some(map.view_ptr(pair.1, off, len, 0)),
        None => None,
    }
}

/// The call that makes the file mapping object for an anonymous map of
/// `len` bytes, none for a protection that has no map here.
pub fn map_anon(len: usize, protect: Protect) -> (call: Option<Call>)
    ensures
        call == match access_of(protect) {
            Some(pair) => Some(
                Call::CreateFileMapping {
                    file: Backing::Paging,
                    protect: pair.0,
                    size_high: halves(len).0,
                    size_low: halves(len).1,
                },
            ),
            None => None,
        },
{
    match access(protect) {
        Some(pair) => Some(MapHandle::new(Backing::Paging, pair.0, len)),
        None => None,
    }
}

/// The call that maps the `len` bytes of an anonymous mapping object,
/// wherever the host likes.
pub fn map_anon_view(map: &MapHandle, len: usize, protect: Protect) -> (call: Option<Call>)
    ensures
        call == match access_of(protect) {
            Some(pair) => Some(
                Call::MapViewOfFile {
                    map: map.map,
                    access: pair.1,
                    offset_high: 0,
                    offset_low: 0,
                    len,
                    at: 0,
                },
            ),
            None => None,
        },
{
    match access(protect) {
        Some(pair) => Some(map.view_ptr(pair.1, 0, len, 0)),
        None => None,
    }
}

/// The call that unmaps the view at `pg`.
pub fn unmap(pg: usize) -> (call: Call)
    ensures
        call == (Call::UnmapViewOfFile { ptr: pg }),
{
    Call::UnmapViewOfFile { ptr: pg }
}

/// The call that changes the protection of a range of pages, none for a
/// protection that pages cannot have here. Pages of a copy-on-write map
/// are set to reading and writing.
pub fn protect(pg: usize, len: usize, level: Protect) -> (call: Option<Call>)
    ensures
        call == match level {
            Protect::ReadOnly => Some(Call::VirtualProtect { ptr: pg, len, protect: Page::ReadOnly }),
            Protect::ReadWrite => Some(
                Call::VirtualProtect { ptr: pg, len, protect: Page::ReadWrite },
            ),
            Protect::ReadCopy => Some(
                Call::VirtualProtect { ptr: pg, len, protect: Page::ReadWrite },
            ),
            Protect::ReadExec => None,
        },
{
    match level {
        Protect::ReadOnly => Some(Call::VirtualProtect { ptr: pg, len, protect: Page::ReadOnly }),
        Protect::ReadWrite => Some(Call::VirtualProtect { ptr: pg, len, protect: Page::ReadWrite }),
        Protect::ReadCopy => Some(Call::VirtualProtect { ptr: pg, len, protect: Page::ReadWrite }),
        Protect::ReadExec => None,
    }
}

/// The calls that write changed pages back to the file: the view is
/// flushed, and for a synchronous flush the buffers of the file after it.
pub fn flush(pg: usize, len: usize, mode: Flush) -> (calls: (Call, Option<Call>))
    ensures
        calls.0 == (Call::FlushViewOfFile { ptr: pg, len }),
        calls.1 == if mode == Flush::Sync {
            Some(Call::FlushFileBuffers)
        } else {
            None
        },
{
    let file = match mode {
        Flush::Sync => Some(Call::FlushFileBuffers),
        Flush::Async => None,
    };
    (Call::FlushViewOfFile { ptr: pg, len }, file)
}

/// The call that gives advice for a range of pages: there is none, and
/// the advice counts as taken.
pub fn advise(pg: usize, len: usize, hint: crate::Advise) -> (call: Option<Call>)
    ensures
        call.is_none(),
{
    None
}

/// The call that locks physical pages into memory.
pub fn lock(pg: usize, len: usize) -> (call: Call)
    ensures
        call == (Call::VirtualLock { ptr: pg, len }),
{
    Call::VirtualLock { ptr: pg, len }
}

/// The call that unlocks physical pages from memory.
pub fn unlock(pg: usize, len: usize) -> (call: Call)
    ensures
        call == (Call::VirtualUnlock { ptr: pg, len }),
{
    Call::VirtualUnlock { ptr: pg, len }
}

/// Where the mapping of a ring stands. `tries` counts the addresses that
/// were tried and failed.
#[derive(Clone, Copy, Debug, PartialEq, Eq, Structural)]
pub enum Stage {
    /// The file mapping object of twice the length is being made.
    Creating,
    /// A range of twice the length is being reserved, to find an address.
    Reserving { map: usize, tries: u32 },
    /// The reservation is being released again.
    Releasing { map: usize, tries: u32, pg: usize },
    /// The first view is being mapped at the address.
    Primary { map: usize, tries: u32, pg: usize },
    /// The second view is being mapped behind the first.
    Secondary { map: usize, tries: u32, view: usize },
    /// The first view is being unmapped, the second having failed.
    Retreating { map: usize, tries: u32, code: i32 },
    /// The handle of the mapping object is being closed.
    Closing { end: RingEnd },
}

/// The mapping of a ring of `len` bytes, under way.
#[derive(Clone, Copy, Debug, PartialEq, Eq, Structural)]
pub struct MapRing {
    /// The length of the ring.
    pub len: usize,
    /// Where the mapping stands.
    pub stage: Stage,
}

/// The call that maps one view of a ring of `len` bytes at `at`.
pub open spec fn half_call(map: usize, len: usize, at: usize) -> Call {
    Call::MapViewOfFile {
        map,
        access: read_write(),
        offset_high: 0,
        offset_low: 0,
        len,
        at,
    }
}

impl MapRing {
    /// Whether the host can have given `answer` at this stage: an address
    /// for twice the length leaves room for it.
    pub open spec fn admits(&self, answer: Answer) -> bool {
        match (self.stage, answer) {
            (Stage::Reserving { .. }, Answer::Done(pg)) => pg + 2 * self.len <= usize::MAX,
            _ => true,
        }
    }

    /// Whether the host can have given `answer` at this stage.
    pub fn accepts(&self, answer: &Answer) -> (b: bool)
        requires
            2 * self.len <= usize::MAX,
        ensures
            b == self.admits(*answer),
    {
        match (self.stage, *answer) {
            (Stage::Reserving { .. }, Answer::Done(pg)) => pg <= usize::MAX - 2 * self.len,
            _ => true,
        }
    }

    /// What holds of a mapping at every stage: twice the length fits, so
    /// does the doubled range once an address is tried, and no more
    /// addresses were tried than may be.
    pub open spec fn inv(&self) -> bool {
        2 * self.len <= usize::MAX && match self.stage {
            Stage::Creating => true,
            Stage::Reserving { map: _, tries } => tries <= RETRIES,
            Stage::Releasing { map: _, tries, pg } => tries <= RETRIES && pg + 2 * self.len
                <= usize::MAX,
            Stage::Primary { map: _, tries, pg } => tries <= RETRIES && pg + 2 * self.len
                <= usize::MAX,
            Stage::Secondary { map: _, tries, view: _ } => tries <= RETRIES,
            Stage::Retreating { map: _, tries, code: _ } => tries <= RETRIES,
            Stage::Closing { .. } => true,
        }
    }

    /// The mapping at another stage.
    pub open spec fn at(&self, stage: Stage) -> MapRing {
        MapRing { len: self.len, stage }
    }

    /// The first step of the mapping of a ring of `len` bytes.
    pub open spec fn begin(len: usize) -> (MapRing, Call) {
        (
            MapRing { len, stage: Stage::Creating },
            Call::CreateFileMapping {
                file: Backing::Paging,
                protect: Page::ReadWrite,
                size_high: halves((2 * len) as usize).0,
                size_low: halves((2 * len) as usize).1,
            },
        )
    }

    /// How the mapping ends: the handle of the mapping object is closed
    /// first.
    pub open spec fn close(&self, map: usize, end: RingEnd) -> Progress<MapRing, Call> {
        Progress::Next(self.at(Stage::Closing { end }), Call::CloseHandle { handle: map })
    }

    /// How the mapping goes on after a view failed at an address: another
    /// address is tried, unless as many were tried as may be.
    pub open spec fn retry(&self, map: usize, tries: u32, op: Operation, code: i32) -> Progress<
        MapRing,
        Call,
    > {
        if tries >= RETRIES {
            self.close(map, RingEnd::Failed(op, code))
        } else {
            Progress::Next(
                self.at(Stage::Reserving { map, tries: (tries + 1) as u32 }),
                Call::Reserve { len: (2 * self.len) as usize },
            )
        }
    }

    /// How the mapping goes on once the host has answered the call of the
    /// stage it stands at.
    pub open spec fn after(&self, answer: Answer) -> Progress<MapRing, Call> {
        match self.stage {
            Stage::Creating => match answer {
                Answer::Done(map) => Progress::Next(
                    self.at(Stage::Reserving { map, tries: 0 }),
                    Call::Reserve { len: (2 * self.len) as usize },
                ),
                Answer::Failed(code) => Progress::Done(
                    RingEnd::Failed(Operation::RingAllocate, code),
                ),
            },
            Stage::Reserving { map, tries } => match answer {
                Answer::Done(pg) => Progress::Next(
                    self.at(Stage::Releasing { map, tries, pg }),
                    Call::Release { ptr: pg },
                ),
                Answer::Failed(code) => self.close(
                    map,
                    RingEnd::Failed(Operation::RingAllocate, code),
                ),
            },
            Stage::Releasing { map, tries, pg } => Progress::Next(
                self.at(Stage::Primary { map, tries, pg }),
                half_call(map, self.len, pg),
            ),
            Stage::Primary { map, tries, pg } => match answer {
                Answer::Done(view) => Progress::Next(
                    self.at(Stage::Secondary { map, tries, view }),
                    half_call(map, self.len, (pg + self.len) as usize),
                ),
                Answer::Failed(code) => self.retry(map, tries, Operation::RingPrimary, code),
            },
            Stage::Secondary { map, tries, view } => match answer {
                Answer::Done(_) => self.close(map, RingEnd::Mapped(view)),
                Answer::Failed(code) => Progress::Next(
                    self.at(Stage::Retreating { map, tries, code }),
                    Call::UnmapViewOfFile { ptr: view },
                ),
            },
            Stage::Retreating { map, tries, code } => self.retry(
                map,
                tries,
                Operation::RingSecondary,
                code,
            ),
            Stage::Closing { end } => Progress::Done(end),
        }
    }

    /// Goes on with the mapping, given how the host answered the call of
    /// the stage it stands at.
    pub fn next(self, answer: Answer) -> (p: Progress<MapRing, Call>)
        requires
            self.inv(),
            self.admits(answer),
        ensures
            p == self.after(answer),
            p matches Progress::Next(ring, _) ==> ring.inv(),
    {
        let len = self.len;
        match self.stage {
            Stage::Creating => match answer {
                Answer::Done(map) => Progress::Next(
                    MapRing { len, stage: Stage::Reserving { map, tries: 0 } },
                    reserve(2 * len),
                ),
                Answer::Failed(code) => Progress::Done(
                    RingEnd::Failed(Operation::RingAllocate, code),
                ),
            },
            Stage::Reserving { map, tries } => match answer {
                Answer::Done(pg) => Progress::Next(
                    MapRing { len, stage: Stage::Releasing { map, tries, pg } },
                    Call::Release { ptr: pg },
                ),
                Answer::Failed(code) => self.finish(
                    map,
                    RingEnd::Failed(Operation::RingAllocate, code),
                ),
            },
            Stage::Releasing { map, tries, pg } => Progress::Next(
                MapRing { len, stage: Stage::Primary { map, tries, pg } },
                map_ring_handle(map, len, pg),
            ),
            Stage::Primary { map, tries, pg } => match answer {
                Answer::Done(view) => Progress::Next(
                    MapRing { len, stage: Stage::Secondary { map, tries, view } },
                    map_ring_handle(map, len, pg + len),
                ),
                Answer::Failed(code) => self.again(map, tries, Operation::RingPrimary, code),
            },
            Stage::Secondary { map, tries, view } => match answer {
                Answer::Done(_) => self.finish(map, RingEnd::Mapped(view)),
                Answer::Failed(code) => Progress::Next(
                    MapRing { len, stage: Stage::Retreating { map, tries, code } },
                    unmap(view),
                ),
            },
            Stage::Retreating { map, tries, code } => self.again(
                map,
                tries,
                Operation::RingSecondary,
                code,
            ),
            Stage::Closing { end } => Progress::Done(end),
        }
    }

    /// Closes the handle of the mapping object before the mapping ends.
    fn finish(&self, map: usize, end: RingEnd) -> (p: Progress<MapRing, Call>)
        requires
            self.inv(),
        ensures
            p == self.close(map, end),
            p matches Progress::Next(ring, _) && ring.inv(),
    {
        Progress::Next(
            MapRing { len: self.len, stage: Stage::Closing { end } },
            Call::CloseHandle { handle: map },
        )
    }

    /// Tries another address, unless as many were tried as may be.
    fn again(&self, map: usize, tries: u32, op: Operation, code: i32) -> (p: Progress<
        MapRing,
        Call,
    >)
        requires
            self.inv(),
            tries <= RETRIES,
        ensures
            p == self.retry(map, tries, op, code),
            p matches Progress::Next(ring, _) && ring.inv(),
    {
        if tries >= RETRIES {
            self.finish(map, RingEnd::Failed(op, code))
        } else {
            Progress::Next(
                MapRing { len: self.len, stage: Stage::Reserving { map, tries: tries + 1 } },
                reserve(2 * self.len),
            )
        }
    }
}

/// An upper bound on the calls that a mapping still makes before it ends.
pub open spec fn remaining(stage: Stage) -> nat {
    match stage {
        Stage::Creating => 32,
        Stage::Reserving { map: _, tries } => (1 + (RETRIES - tries) * 5 + 5) as nat,
        Stage::Releasing { map: _, tries, pg: _ } => (1 + (RETRIES - tries) * 5 + 4) as nat,
        Stage::Primary { map: _, tries, pg: _ } => (1 + (RETRIES - tries) * 5 + 3) as nat,
        Stage::Secondary { map: _, tries, view: _ } => (1 + (RETRIES - tries) * 5 + 2) as nat,
        Stage::Retreating { map: _, tries, code: _ } => (1 + (RETRIES - tries) * 5 + 1) as nat,
        Stage::Closing { .. } => 0,
    }
}

/// The mapping of a ring ends: whatever the host answers, every step
/// leaves fewer calls to make, and no more than 32 remain at the start.
/// So a view that fails is tried again at most `RETRIES` times.
pub proof fn lemma_mapping_ends(ring: MapRing, answer: Answer)
    requires
        ring.inv(),
        ring.admits(answer),
    ensures
        remaining(ring.stage) <= 32,
        match ring.after(answer) {
            Progress::Next(next, _) => next.inv() && remaining(next.stage) < remaining(
                ring.stage,
            ),
            Progress::Done(_) => true,
        },
{
}

/// A ring is mapped only where both views were: the mapping turns to end
/// in the address of the first view only after the second view was mapped,
/// and a failure of the second view unmaps the first before anything else.
pub proof fn lemma_second_view_decides(ring: MapRing, answer: Answer)
    ensures
        match ring.after(answer) {
            Progress::Next(next, call) => match next.stage {
                Stage::Closing { end: RingEnd::Mapped(view) } => ring.stage is Secondary
                    && ring.stage->Secondary_view == view && answer is Done,
                Stage::Retreating { .. } => ring.stage is Secondary && call == (
                Call::UnmapViewOfFile { ptr: ring.stage->Secondary_view }),
                _ => true,
            },
            Progress::Done(end) => ring.stage == (Stage::Closing { end }) || (ring.stage is Creating
                && answer is Failed),
        },
{
}

/// The call that reserves `len` bytes to find an address for them.
fn reserve(len: usize) -> (call: Call)
    ensures
        call == (Call::Reserve { len }),
{
    Call::Reserve { len }
}

/// The call that maps one view of a ring of `len` bytes at `pg`, for
/// reading and writing.
fn map_ring_handle(map: usize, len: usize, pg: usize) -> (call: Call)
    ensures
        call == half_call(map, len, pg),
{
    let handle = MapHandle { map };
    handle.view_ptr(Access { read: true, write: true, copy: false }, 0, len, pg)
}

/// The first call of the mapping of a ring of `len` bytes, and the state
/// to come back in with its answer.
pub fn map_ring(len: usize) -> (r: (MapRing, Call))
    requires
        2 * len <= usize::MAX,
    ensures
        r == MapRing::begin(len),
        r.0.inv(),
{
    let full = 2 * len;
    (MapRing { len, stage: Stage::Creating }, MapHandle::new(Backing::Paging, Page::ReadWrite, full))
}

/// The calls that unmap the two views of a ring of `len` bytes: the
/// second view first, and the first view only if that went through.
pub fn unmap_ring(pg: usize, len: usize) -> (calls: (Call, Call))
    requires
        pg + len <= usize::MAX,
    ensures
        calls.0 == (Call::UnmapViewOfFile { ptr: (pg + len) as usize }),
        calls.1 == (Call::UnmapViewOfFile { ptr: pg }),
{
    (unmap(pg + len), unmap(pg))
}

} // verus!
