//! The calls of a POSIX host: `mmap` and its kin, and the mapping of a ring
//! by way of a descriptor of anonymous memory.

use crate::error::Operation;
use crate::os::{Answer, Progress, Request, RingEnd};
use crate::{Advise, Flush, Protect};
use vstd::prelude::*;

verus! {

/// The access that mapped pages allow: `PROT_READ`, `PROT_WRITE` and
/// `PROT_EXEC`, each set or not.
#[derive(Clone, Copy, Debug, PartialEq, Eq, Structural)]
pub struct Prot {
    pub read: bool,
    pub write: bool,
    pub execute: bool,
}

/// The flags of a mapping: `MAP_SHARED`, `MAP_PRIVATE`, `MAP_ANON` and
/// `MAP_FIXED`, each set or not.
#[derive(Clone, Copy, Debug, PartialEq, Eq, Structural)]
pub struct MapFlags {
    pub shared: bool,
    pub private: bool,
    pub anon: bool,
    pub fixed: bool,
}

/// The descriptor that a mapping is made of.
#[derive(Clone, Copy, Debug, PartialEq, Eq, Structural)]
pub enum Fd {
    /// No descriptor: `-1`.
    Detached,
    /// The descriptor of the file that is mapped.
    File,
    /// This descriptor.
    Open(i32),
}

/// The advice of `madvise`.
#[derive(Clone, Copy, Debug, PartialEq, Eq, Structural)]
pub enum Madvice {
    /// `MADV_NORMAL`
    Normal,
    /// `MADV_SEQUENTIAL`
    Sequential,
    /// `MADV_RANDOM`
    Random,
    /// `MADV_WILLNEED`
    WillNeed,
    /// `MADV_DONTNEED`
    DontNeed,
}

/// How a descriptor of anonymous memory is had on a host.
#[derive(Clone, Copy, Debug, PartialEq, Eq, Structural)]
pub enum MemFd {
    /// By `memfd_create` with close-on-exec.
    Create,
    /// By `shm_open` of `SHM_ANON`.
    Anonymous,
    /// By `shm_open` of a name that no object has yet, with `O_CREAT`,
    /// `O_EXCL` and `O_CLOEXEC`; the name is unlinked at once. `exists` is
    /// the code with which the host refuses a name that is taken.
    Named { exists: i32 },
}

/// One system call.
#[allow(inconsistent_fields)]
#[derive(Clone, Copy, Debug, PartialEq, Eq, Structural)]
pub enum Call {
    /// `mmap(addr, len, prot, flags, fd, offset)`; the address 0 is null.
    Mmap { addr: usize, len: usize, prot: Prot, flags: MapFlags, fd: Fd, offset: usize },
    /// `munmap(addr, len)`
    Munmap { addr: usize, len: usize },
    /// `mprotect(addr, len, prot)`
    Mprotect { addr: usize, len: usize, prot: Prot },
    /// `msync(addr, len, flags)`, with `MS_SYNC` if `sync`, else `MS_ASYNC`.
    Msync { addr: usize, len: usize, sync: bool },
    /// `madvise(addr, len, advice)`
    Madvise { addr: usize, len: usize, advice: Madvice },
    /// `mlock(addr, len)`
    Mlock { addr: usize, len: usize },
    /// `munlock(addr, len)`
    Munlock { addr: usize, len: usize },
    /// `memfd_create("vmap", MFD_CLOEXEC)`
    MemfdCreate,
    /// `shm_open(SHM_ANON, O_RDWR, 0o600)`
    ShmOpenAnon,
    /// `shm_open(name, O_RDWR | O_CREAT | O_EXCL | O_CLOEXEC, 0o600)`, the
    /// name being `shm_name(index)`.
    ShmOpen { index: u32 },
    /// `shm_unlink(name)`, the name being `shm_name(index)`.
    ShmUnlink { index: u32 },
    /// `ftruncate(fd, len)`
    Ftruncate { fd: i32, len: usize },
    /// `close(fd)`
    Close { fd: i32 },
}

/// Reading only.
pub open spec fn read_only() -> Prot {
    Prot { read: true, write: false, execute: false }
}

/// Reading and writing.
pub open spec fn read_write() -> Prot {
    Prot { read: true, write: true, execute: false }
}

/// Reading and executing.
pub open spec fn read_exec() -> Prot {
    Prot { read: true, write: false, execute: true }
}

/// The access that a protection comes to. A copy-on-write map is written
/// to like any other; that its changes stay private is a flag of the map.
pub open spec fn prot_of(protect: Protect) -> Prot {
    match protect {
        Protect::ReadOnly => read_only(),
        Protect::ReadWrite => read_write(),
        Protect::ReadCopy => read_write(),
        Protect::ReadExec => read_exec(),
    }
}

/// Whether the changes of a map under a protection stay private.
pub open spec fn is_private(protect: Protect) -> bool {
    protect == Protect::ReadCopy || protect == Protect::ReadExec
}

/// The flags of the map of a file under a protection.
pub open spec fn file_flags(protect: Protect) -> MapFlags {
    MapFlags {
        shared: !is_private(protect),
        private: is_private(protect),
        anon: false,
        fixed: false,
    }
}

/// The flags of an anonymous map under a protection. A map that is only
/// read is shared and not marked anonymous.
pub open spec fn anon_flags(protect: Protect) -> MapFlags {
    MapFlags {
        shared: !is_private(protect),
        private: is_private(protect),
        anon: protect != Protect::ReadOnly,
        fixed: false,
    }
}

/// The advice that a hint comes to.
pub open spec fn advice_of(advise: Advise) -> Madvice {
    match advise {
        Advise::Normal => Madvice::Normal,
        Advise::Sequential => Madvice::Sequential,
        Advise::Random => Madvice::Random,
        Advise::WillNeed => Madvice::WillNeed,
        Advise::WillNotNeed => Madvice::DontNeed,
    }
}

/// The system call that a request comes to.
pub open spec fn call_of(request: Request) -> Call {
    match request {
        Request::MapFile { offset, len, protect } => Call::Mmap {
            addr: 0,
            len,
            prot: prot_of(protect),
            flags: file_flags(protect),
            fd: Fd::File,
            offset,
        },
        Request::MapAnon { len, protect } => Call::Mmap {
            addr: 0,
            len,
            prot: prot_of(protect),
            flags: anon_flags(protect),
            fd: Fd::Detached,
            offset: 0,
        },
        Request::Unmap { ptr, len } => Call::Munmap { addr: ptr, len },
        Request::Protect { ptr, len, protect } => Call::Mprotect {
            addr: ptr,
            len,
            prot: prot_of(protect),
        },
        Request::Flush { ptr, len, mode } => Call::Msync { addr: ptr, len, sync: mode == Flush::Sync },
        Request::Advise { ptr, len, advise } => Call::Madvise {
            addr: ptr,
            len,
            advice: advice_of(advise),
        },
        Request::Lock { ptr, len } => Call::Mlock { addr: ptr, len },
        Request::Unlock { ptr, len } => Call::Munlock { addr: ptr, len },
    }
}

/// The page size and the allocation granularity of a host whose
/// `sysconf(_SC_PAGESIZE)` gave `pagesize`: the two are the same.
pub fn system_info(pagesize: i64) -> (info: (u32, u32))
    requires
        0 <= pagesize <= u32::MAX,
    ensures
        info.0 == pagesize,
        info.1 == pagesize,
{
    let size = pagesize as u32;
    (size, size)
}

/// The access that a protection comes to.
fn prot(protect: Protect) -> (p: Prot)
    ensures
        p == prot_of(protect),
{
    match protect {
        Protect::ReadOnly => Prot { read: true, write: false, execute: false },
        Protect::ReadWrite => Prot { read: true, write: true, execute: false },
        Protect::ReadCopy => Prot { read: true, write: true, execute: false },
        Protect::ReadExec => Prot { read: true, write: false, execute: true },
    }
}

/// The call that maps `len` bytes of a file from the byte `off` on.
pub fn map_file(off: usize, len: usize, protect: Protect) -> (call: Call)
    ensures
        call == call_of(Request::MapFile { offset: off, len, protect }),
{
    let private = match protect {
        Protect::ReadOnly => false,
        Protect::ReadWrite => false,
        Protect::ReadCopy => true,
        Protect::ReadExec => true,
    };
    Call::Mmap {
        addr: 0,
        len,
        prot: prot(protect),
        flags: MapFlags { shared: !private, private, anon: false, fixed: false },
        fd: Fd::File,
        offset: off,
    }
}

/// The call that maps `len` bytes of anonymous memory.
pub fn map_anon(len: usize, protect: Protect) -> (call: Call)
    ensures
        call == call_of(Request::MapAnon { len, protect }),
{
    let (private, anon) = match protect {
        Protect::ReadOnly => (false, false),
        Protect::ReadWrite => (false, true),
        Protect::ReadCopy => (true, true),
        Protect::ReadExec => (true, true),
    };
    Call::Mmap {
        addr: 0,
        len,
        prot: prot(protect),
        flags: MapFlags { shared: !private, private, anon, fixed: false },
        fd: Fd::Detached,
        offset: 0,
    }
}

/// The call that unmaps a range of pages.
pub fn unmap(pg: usize, len: usize) -> (call: Call)
    ensures
        call == call_of(Request::Unmap { ptr: pg, len }),
{
    Call::Munmap { addr: pg, len }
}

/// The call that changes the protection of a range of pages.
pub fn protect(pg: usize, len: usize, level: Protect) -> (call: Call)
    ensures
        call == call_of(Request::Protect { ptr: pg, len, protect: level }),
{
    Call::Mprotect { addr: pg, len, prot: prot(level) }
}

/// The call that writes changed pages back to the file.
pub fn flush(pg: usize, len: usize, mode: Flush) -> (call: Call)
    ensures
        call == call_of(Request::Flush { ptr: pg, len, mode }),
{
    let sync = match mode {
        Flush::Sync => true,
        Flush::Async => false,
    };
    Call::Msync { addr: pg, len, sync }
}

/// The call that gives advice for a range of pages.
pub fn advise(pg: usize, len: usize, hint: Advise) -> (call: Call)
    ensures
        call == call_of(Request::Advise { ptr: pg, len, advise: hint }),
{
    let advice = match hint {
        Advise::Normal => Madvice::Normal,
        Advise::Sequential => Madvice::Sequential,
        Advise::Random => Madvice::Random,
        Advise::WillNeed => Madvice::WillNeed,
        Advise::WillNotNeed => Madvice::DontNeed,
    };
    Call::Madvise { addr: pg, len, advice }
}

/// The call that locks physical pages into memory.
pub fn lock(pg: usize, len: usize) -> (call: Call)
    ensures
        call == call_of(Request::Lock { ptr: pg, len }),
{
    Call::Mlock { addr: pg, len }
}

/// The call that unlocks physical pages from memory.
pub fn unlock(pg: usize, len: usize) -> (call: Call)
    ensures
        call == call_of(Request::Unlock { ptr: pg, len }),
{
    Call::Munlock { addr: pg, len }
}

/// The system call that a request comes to.
pub fn call(request: Request) -> (c: Call)
    ensures
        c == call_of(request),
{
    match request {
        Request::MapFile { offset, len, protect } => map_file(offset, len, protect),
        Request::MapAnon { len, protect } => map_anon(len, protect),
        Request::Unmap { ptr, len } => unmap(ptr, len),
        Request::Protect { ptr, len, protect: p } => protect(ptr, len, p),
        Request::Flush { ptr, len, mode } => flush(ptr, len, mode),
        Request::Advise { ptr, len, advise: a } => advise(ptr, len, a),
        Request::Lock { ptr, len } => lock(ptr, len),
        Request::Unlock { ptr, len } => unlock(ptr, len),
    }
}

/// The number of names that `shm_name` has.
pub const SHM_NAMES: u32 = 10000000;

/// The digit that stands at the place `k` of the seven digits of `index`,
/// the first place being 0.
pub open spec fn digit(index: u32, k: int) -> u8 {
    let div: int = if k == 0 {
        1000000
    } else if k == 1 {
        100000
    } else if k == 2 {
        10000
    } else if k == 3 {
        1000
    } else if k == 4 {
        100
    } else if k == 5 {
        10
    } else {
        1
    };
    (48 + (index as int / div) % 10) as u8
}

/// The name of the shared memory object with the number `index`:
/// `/vmap-` and the seven digits of the number, with a zero byte at its end.
pub open spec fn name_of(index: u32) -> Seq<u8> {
    seq![
        47u8,
        118u8,
        109u8,
        97u8,
        112u8,
        45u8,
        digit(index, 0),
        digit(index, 1),
        digit(index, 2),
        digit(index, 3),
        digit(index, 4),
        digit(index, 5),
        digit(index, 6),
        0u8,
    ]
}

/// The name of the shared memory object with the number `index`.
pub fn shm_name(index: u32) -> (name: Vec<u8>)
    requires
        index < SHM_NAMES,
    ensures
        name@ == name_of(index),
{
    let mut name: Vec<u8> = Vec::with_capacity(14);
    name.push(47u8);
    name.push(118u8);
    name.push(109u8);
    name.push(97u8);
    name.push(112u8);
    name.push(45u8);
    name.push(48u8 + ((index / 1000000) % 10) as u8);
    name.push(48u8 + ((index / 100000) % 10) as u8);
    name.push(48u8 + ((index / 10000) % 10) as u8);
    name.push(48u8 + ((index / 1000) % 10) as u8);
    name.push(48u8 + ((index / 100) % 10) as u8);
    name.push(48u8 + ((index / 10) % 10) as u8);
    name.push(48u8 + (index % 10) as u8);
    name.push(0u8);
    assert(name@ =~= name_of(index));
    name
}

/// The number that is tried after `index`: the next one, and the first one
/// again after the last.
pub open spec fn following(index: u32) -> u32 {
    if index + 1 >= SHM_NAMES {
        0
    } else {
        (index + 1) as u32
    }
}

/// Where the mapping of a ring stands.
#[derive(Clone, Copy, Debug, PartialEq, Eq, Structural)]
pub enum Stage {
    /// A descriptor of anonymous memory is being opened.
    Opening,
    /// The name with this number is being opened.
    Naming { index: u32, exists: i32 },
    /// The name with this number is being unlinked.
    Unlinking { fd: i32 },
    /// The memory behind the descriptor is being sized.
    Sizing { fd: i32 },
    /// Twice the length is being reserved.
    Reserving { fd: i32 },
    /// The first half is being mapped.
    Primary { fd: i32, base: usize },
    /// The second half is being mapped.
    Secondary { fd: i32, base: usize },
    /// What was reserved is being unmapped after a failure.
    Unmapping { fd: i32, op: Operation, code: i32 },
    /// The descriptor is being closed.
    Closing { end: RingEnd },
}

/// The mapping of a ring of `len` bytes, under way.
#[derive(Clone, Copy, Debug, PartialEq, Eq, Structural)]
pub struct MapRing {
    /// The length of the ring.
    pub len: usize,
    /// Where the mapping stands.
    pub stage: Stage,
}

/// The flags of the halves of a ring: shared and at a fixed address.
pub open spec fn half_flags() -> MapFlags {
    MapFlags { shared: true, private: false, anon: false, fixed: true }
}

/// The flags of the reservation for a ring: private and anonymous.
pub open spec fn reserve_flags() -> MapFlags {
    MapFlags { shared: false, private: true, anon: true, fixed: false }
}

/// The call that maps one half of a ring of `len` bytes at `addr`.
pub open spec fn half_call(addr: usize, len: usize, fd: i32) -> Call {
    Call::Mmap {
        addr,
        len,
        prot: read_write(),
        flags: half_flags(),
        fd: Fd::Open(fd),
        offset: 0,
    }
}

impl MapRing {
    /// Whether the host can have given `answer` at this stage: a
    /// descriptor is a small number, and an address for twice the length
    /// leaves room for it.
    pub open spec fn admits(&self, answer: Answer) -> bool {
        match (self.stage, answer) {
            (Stage::Opening, Answer::Done(fd)) => fd <= i32::MAX,
            (Stage::Naming { .. }, Answer::Done(fd)) => fd <= i32::MAX,
            (Stage::Reserving { .. }, Answer::Done(base)) => base + 2 * self.len <= usize::MAX,
            _ => true,
        }
    }

    /// Whether the host can have given `answer` at this stage.
    pub fn accepts(&self, answer: &Answer) -> (b: bool)
        requires
            2 * self.len <= usize::MAX,
        ensures
            b == self.admits(*answer),
    {
        match (self.stage, *answer) {
            (Stage::Opening, Answer::Done(fd)) => fd <= i32::MAX as usize,
            (Stage::Naming { .. }, Answer::Done(fd)) => fd <= i32::MAX as usize,
            (Stage::Reserving { .. }, Answer::Done(base)) => base <= usize::MAX - 2 * self.len,
            _ => true,
        }
    }

    /// The mapping at another stage.
    pub open spec fn at(&self, stage: Stage) -> MapRing {
        MapRing { len: self.len, stage }
    }

    /// The first step of the mapping of a ring of `len` bytes.
    pub open spec fn begin(len: usize, memfd: MemFd) -> (MapRing, Call) {
        match memfd {
            MemFd::Create => (MapRing { len, stage: Stage::Opening }, Call::MemfdCreate),
            MemFd::Anonymous => (MapRing { len, stage: Stage::Opening }, Call::ShmOpenAnon),
            MemFd::Named { exists } => (
                MapRing { len, stage: Stage::Naming { index: 0, exists } },
                Call::ShmOpen { index: 0 },
            ),
        }
    }

    /// How the mapping goes on after a failure at a stage that holds the
    /// descriptor `fd`: the descriptor is closed before the end.
    pub open spec fn give_up(&self, fd: i32, op: Operation, code: i32) -> Progress<MapRing, Call> {
        Progress::Next(
            self.at(Stage::Closing { end: RingEnd::Failed(op, code) }),
            Call::Close { fd },
        )
    }

    /// How the mapping goes on after a half failed to map: the reserved
    /// range is unmapped, then the descriptor is closed.
    pub open spec fn back_out(&self, fd: i32, base: usize, op: Operation, code: i32) -> Progress<
        MapRing,
        Call,
    > {
        Progress::Next(
            self.at(Stage::Unmapping { fd, op, code }),
            Call::Munmap { addr: base, len: (2 * self.len) as usize },
        )
    }

    /// How the mapping goes on once the host has answered the call of the
    /// stage it stands at.
    pub open spec fn after(&self, answer: Answer) -> Progress<MapRing, Call> {
        match self.stage {
            Stage::Opening => match answer {
                Answer::Done(fd) => Progress::Next(
                    self.at(Stage::Sizing { fd: fd as i32 }),
                    Call::Ftruncate { fd: fd as i32, len: self.len },
                ),
                Answer::Failed(code) => Progress::Done(RingEnd::Failed(Operation::MemoryFd, code)),
            },
            Stage::Naming { index, exists } => match answer {
                Answer::Done(fd) => Progress::Next(
                    self.at(Stage::Unlinking { fd: fd as i32 }),
                    Call::ShmUnlink { index },
                ),
                Answer::Failed(code) => if code == exists {
                    Progress::Next(
                        self.at(Stage::Naming { index: following(index), exists }),
                        Call::ShmOpen { index: following(index) },
                    )
                } else {
                    Progress::Done(RingEnd::Failed(Operation::MemoryFd, code))
                },
            },
            Stage::Unlinking { fd } => Progress::Next(
                self.at(Stage::Sizing { fd }),
                Call::Ftruncate { fd, len: self.len },
            ),
            Stage::Sizing { fd } => match answer {
                Answer::Done(_) => Progress::Next(
                    self.at(Stage::Reserving { fd }),
                    Call::Mmap {
                        addr: 0,
                        len: (2 * self.len) as usize,
                        prot: read_write(),
                        flags: reserve_flags(),
                        fd: Fd::Detached,
                        offset: 0,
                    },
                ),
                Answer::Failed(code) => self.give_up(fd, Operation::MemoryFd, code),
            },
            Stage::Reserving { fd } => match answer {
                Answer::Done(base) => Progress::Next(
                    self.at(Stage::Primary { fd, base }),
                    half_call(base, self.len, fd),
                ),
                Answer::Failed(code) => self.give_up(fd, Operation::RingAllocate, code),
            },
            Stage::Primary { fd, base } => match answer {
                Answer::Done(_) => Progress::Next(
                    self.at(Stage::Secondary { fd, base }),
                    half_call((base + self.len) as usize, self.len, fd),
                ),
                Answer::Failed(code) => self.back_out(fd, base, Operation::RingPrimary, code),
            },
            Stage::Secondary { fd, base } => match answer {
                Answer::Done(_) => Progress::Next(
                    self.at(Stage::Closing { end: RingEnd::Mapped(base) }),
                    Call::Close { fd },
                ),
                Answer::Failed(code) => self.back_out(fd, base, Operation::RingSecondary, code),
            },
            Stage::Unmapping { fd, op, code } => self.give_up(fd, op, code),
            Stage::Closing { end } => Progress::Done(end),
        }
    }

    /// What holds of a mapping at every stage that `begin` and `after` lead
    /// to: twice the length fits, and so does the doubled range once its
    /// address is known.
    pub open spec fn inv(&self) -> bool {
        2 * self.len <= usize::MAX && match self.stage {
            Stage::Primary { fd: _, base } => base + 2 * self.len <= usize::MAX,
            Stage::Secondary { fd: _, base } => base + 2 * self.len <= usize::MAX,
            Stage::Naming { index, exists: _ } => index < SHM_NAMES,
            _ => true,
        }
    }

    /// Goes on with the mapping, given how the host answered the call of
    /// the stage it stands at.
    pub fn next(self, answer: Answer) -> (p: Progress<MapRing, Call>)
        requires
            self.inv(),
            self.admits(answer),
        ensures
            p == self.after(answer),
            p matches Progress::Next(ring, _) ==> ring.inv(),
    {
        let len = self.len;
        match self.stage {
            Stage::Opening => match answer {
                Answer::Done(fd) => Progress::Next(
                    MapRing { len, stage: Stage::Sizing { fd: fd as i32 } },
                    Call::Ftruncate { fd: fd as i32, len },
                ),
                Answer::Failed(code) => Progress::Done(RingEnd::Failed(Operation::MemoryFd, code)),
            },
            Stage::Naming { index, exists } => match answer {
                Answer::Done(fd) => Progress::Next(
                    MapRing { len, stage: Stage::Unlinking { fd: fd as i32 } },
                    Call::ShmUnlink { index },
                ),
                Answer::Failed(code) => if code == exists {
                    let index = if index + 1 >= SHM_NAMES {
                        0
                    } else {
                        index + 1
                    };
                    Progress::Next(
                        MapRing { len, stage: Stage::Naming { index, exists } },
                        Call::ShmOpen { index },
                    )
                } else {
                    Progress::Done(RingEnd::Failed(Operation::MemoryFd, code))
                },
            },
            Stage::Unlinking { fd } => Progress::Next(
                MapRing { len, stage: Stage::Sizing { fd } },
                Call::Ftruncate { fd, len },
            ),
            Stage::Sizing { fd } => match answer {
                Answer::Done(_) => Progress::Next(
                    MapRing { len, stage: Stage::Reserving { fd } },
                    Call::Mmap {
                        addr: 0,
                        len: 2 * len,
                        prot: Prot { read: true, write: true, execute: false },
                        flags: MapFlags { shared: false, private: true, anon: true, fixed: false },
                        fd: Fd::Detached,
                        offset: 0,
                    },
                ),
                Answer::Failed(code) => self.fail(fd, Operation::MemoryFd, code),
            },
            Stage::Reserving { fd } => match answer {
                Answer::Done(base) => Progress::Next(
                    MapRing { len, stage: Stage::Primary { fd, base } },
                    map(base, len, fd),
                ),
                Answer::Failed(code) => self.fail(fd, Operation::RingAllocate, code),
            },
            Stage::Primary { fd, base } => match answer {
                Answer::Done(_) => Progress::Next(
                    MapRing { len, stage: Stage::Secondary { fd, base } },
                    map(base + len, len, fd),
                ),
                Answer::Failed(code) => self.unwrap_fd(fd, base, Operation::RingPrimary, code),
            },
            Stage::Secondary { fd, base } => match answer {
                Answer::Done(_) => Progress::Next(
                    MapRing { len, stage: Stage::Closing { end: RingEnd::Mapped(base) } },
                    Call::Close { fd },
                ),
                Answer::Failed(code) => self.unwrap_fd(fd, base, Operation::RingSecondary, code),
            },
            Stage::Unmapping { fd, op, code } => self.fail(fd, op, code),
            Stage::Closing { end } => Progress::Done(end),
        }
    }

    /// Closes the descriptor before the mapping ends in a failure.
    fn fail(&self, fd: i32, op: Operation, code: i32) -> (p: Progress<MapRing, Call>)
        requires
            self.inv(),
        ensures
            p == self.give_up(fd, op, code),
            p matches Progress::Next(ring, _) && ring.inv(),
    {
        Progress::Next(
            MapRing { len: self.len, stage: Stage::Closing { end: RingEnd::Failed(op, code) } },
            Call::Close { fd },
        )
    }

    /// Unmaps the reserved range after a half failed to map.
    fn unwrap_fd(&self, fd: i32, base: usize, op: Operation, code: i32) -> (p: Progress<
        MapRing,
        Call,
    >)
        requires
            self.inv(),
        ensures
            p == self.back_out(fd, base, op, code),
            p matches Progress::Next(ring, _) && ring.inv(),
    {
        Progress::Next(
            MapRing { len: self.len, stage: Stage::Unmapping { fd, op, code } },
            unmap_ring(base, self.len),
        )
    }
}

/// A failure after the range is reserved gives back all of it: the next
/// call unmaps twice the length at the base, the one after that closes the
/// descriptor, and then the mapping ends in the failure.
pub proof fn lemma_failure_unwinds(ring: MapRing, code: i32, first: Answer, second: Answer)
    requires
        ring.stage is Primary || ring.stage is Secondary,
    ensures
        ({
            let (fd, base, op) = match ring.stage {
                Stage::Primary { fd, base } => (fd, base, Operation::RingPrimary),
                Stage::Secondary { fd, base } => (fd, base, Operation::RingSecondary),
                _ => arbitrary(),
            };
            &&& ring.after(Answer::Failed(code)) matches Progress::Next(unmapping, unmap)
            &&& unmap == (Call::Munmap { addr: base, len: (2 * ring.len) as usize })
            &&& unmapping.after(first) matches Progress::Next(closing, close)
            &&& close == (Call::Close { fd })
            &&& closing.after(second) == Progress::<MapRing, Call>::Done(RingEnd::Failed(op, code))
        }),
{
}

/// Once a descriptor is open, the mapping ends only after it is closed:
/// the mapping ends from no other stage than the closing of the
/// descriptor, unless no descriptor was opened at all.
pub proof fn lemma_descriptor_is_closed(ring: MapRing, answer: Answer)
    ensures
        match ring.after(answer) {
            Progress::Done(end) => ring.stage == (Stage::Closing { end }) || ((ring.stage is Opening
                || ring.stage is Naming) && answer is Failed),
            Progress::Next(next, call) => next.stage is Closing ==> call is Close,
        },
{
}

/// A ring is mapped only where both halves were: the mapping turns to end
/// in the base address only after the second half was mapped, the first
/// half is mapped at the base, and the second half the length behind it.
pub proof fn lemma_mapped_after_both_halves(ring: MapRing, answer: Answer)
    ensures
        match ring.after(answer) {
            Progress::Next(next, call) => match next.stage {
                Stage::Closing { end: RingEnd::Mapped(base) } => ring.stage is Secondary
                    && ring.stage->Secondary_base == base && answer is Done,
                Stage::Primary { fd, base } => ring.stage is Reserving && call == half_call(
                    base,
                    ring.len,
                    fd,
                ),
                Stage::Secondary { fd, base } => ring.stage is Primary && call == half_call(
                    (base + ring.len) as usize,
                    ring.len,
                    fd,
                ),
                _ => true,
            },
            Progress::Done(_) => true,
        },
{
}

/// The call that maps one half of a ring: `len` bytes of the descriptor
/// `fd`, shared, at the fixed address `pg`.
fn map(pg: usize, len: usize, fd: i32) -> (call: Call)
    ensures
        call == half_call(pg, len, fd),
{
    Call::Mmap {
        addr: pg,
        len,
        prot: Prot { read: true, write: true, execute: false },
        flags: MapFlags { shared: true, private: false, anon: false, fixed: true },
        fd: Fd::Open(fd),
        offset: 0,
    }
}

/// The call that opens a descriptor of anonymous memory, and the stage at
/// which its answer is taken: where names are tried, the first name.
pub fn memfd_open(memfd: MemFd) -> (r: (Stage, Call))
    ensures
        r.0 == MapRing::begin(0, memfd).0.stage,
        r.1 == MapRing::begin(0, memfd).1,
{
    match memfd {
        MemFd::Create => (Stage::Opening, Call::MemfdCreate),
        MemFd::Anonymous => (Stage::Opening, Call::ShmOpenAnon),
        MemFd::Named { exists } => (Stage::Naming { index: 0, exists }, Call::ShmOpen { index: 0 }),
    }
}

/// The first call of the mapping of a ring of `len` bytes, and the state
/// to come back in with its answer.
pub fn map_ring(len: usize, memfd: MemFd) -> (r: (MapRing, Call))
    requires
        2 * len <= usize::MAX,
    ensures
        r == MapRing::begin(len, memfd),
        r.0.inv(),
{
    let (stage, call) = memfd_open(memfd);
    (MapRing { len, stage }, call)
}

/// The call that unmaps the doubled range of a ring of `len` bytes.
pub fn unmap_ring(pg: usize, len: usize) -> (call: Call)
    requires
        2 * len <= usize::MAX,
    ensures
        call == (Call::Munmap { addr: pg, len: (2 * len) as usize }),
{
    unmap(pg, 2 * len)
}

} // verus!
