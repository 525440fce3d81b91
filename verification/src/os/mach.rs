//! The mapping of a ring on a Mach host, by way of a memory entry.

use crate::error::Operation;
use crate::os::{Answer, Progress, RingEnd};
use vstd::prelude::*;

verus! {

/// One call of the Mach virtual memory interface, on the task itself.
#[derive(Clone, Copy, Debug, PartialEq, Eq, Structural)]
pub enum Call {
    /// `vm_allocate` of `size` bytes: anywhere, with `VM_FLAGS_ANYWHERE`,
    /// or else at `addr`, with `VM_FLAGS_FIXED | VM_FLAGS_OVERWRITE`.
    Allocate { addr: usize, size: usize, anywhere: bool },
    /// `vm_deallocate` of `size` bytes at `addr`.
    Deallocate { addr: usize, size: usize },
    /// `mach_make_memory_entry` over `size` bytes at `offset`, with the
    /// default protection and no parent entry.
    MakeMemoryEntry { size: usize, offset: usize },
    /// `vm_map` of `size` bytes of the memory entry `object` at `addr`,
    /// with `VM_FLAGS_FIXED | VM_FLAGS_OVERWRITE`, no mask, the offset 0,
    /// no copy, the default protection as current and as maximum, and no
    /// inheritance.
    MapEntry { addr: usize, size: usize, object: u32 },
}

/// Where the mapping of a ring stands.
#[derive(Clone, Copy, Debug, PartialEq, Eq, Structural)]
pub enum Stage {
    /// Twice the length is being allocated anywhere.
    Allocating,
    /// The first half is being allocated again at its address, to give it
    /// memory of its own.
    Fixing { addr: usize },
    /// The memory entry over the first half is being made.
    Entering { addr: usize },
    /// The entry is being mapped as the second half.
    Mapping { addr: usize },
    /// The whole range is being deallocated after a failure.
    Freeing { op: Operation, code: i32 },
}

/// The mapping of a ring of `len` bytes, under way. The length is kept as
/// it was asked for, whatever the kernel makes of the length of the entry.
#[derive(Clone, Copy, Debug, PartialEq, Eq, Structural)]
pub struct MapRing {
    /// The length of the ring.
    pub len: usize,
    /// Where the mapping stands.
    pub stage: Stage,
}

impl MapRing {
    /// Whether the host can have given `answer` at this stage: an address
    /// for twice the length leaves room for it, and a port is a 32-bit name.
    pub open spec fn admits(&self, answer: Answer) -> bool {
        match (self.stage, answer) {
            (Stage::Allocating, Answer::Done(addr)) => addr + 2 * self.len <= usize::MAX,
            (Stage::Entering { .. }, Answer::Done(port)) => port <= u32::MAX,
            _ => true,
        }
    }

    /// Whether the host can have given `answer` at this stage.
    pub fn accepts(&self, answer: &Answer) -> (b: bool)
        requires
            2 * self.len <= usize::MAX,
        ensures
            b == self.admits(*answer),
    {
        match (self.stage, *answer) {
            (Stage::Allocating, Answer::Done(addr)) => addr <= usize::MAX - 2 * self.len,
            (Stage::Entering { .. }, Answer::Done(port)) => port <= u32::MAX as usize,
            _ => true,
        }
    }

    /// What holds of a mapping at every stage: twice the length fits, and
    /// so does the doubled range once its address is known.
    pub open spec fn inv(&self) -> bool {
        2 * self.len <= usize::MAX && match self.stage {
            Stage::Allocating => true,
            Stage::Fixing { addr } => addr + 2 * self.len <= usize::MAX,
            Stage::Entering { addr } => addr + 2 * self.len <= usize::MAX,
            Stage::Mapping { addr } => addr + 2 * self.len <= usize::MAX,
            Stage::Freeing { .. } => true,
        }
    }

    /// The mapping at another stage.
    pub open spec fn at(&self, stage: Stage) -> MapRing {
        MapRing { len: self.len, stage }
    }

    /// The first step of the mapping of a ring of `len` bytes.
    pub open spec fn begin(len: usize) -> (MapRing, Call) {
        (
            MapRing { len, stage: Stage::Allocating },
            Call::Allocate { addr: 0, size: (2 * len) as usize, anywhere: true },
        )
    }

    /// How the mapping goes on after a failure once the range is
    /// allocated: the whole range is deallocated before the end.
    pub open spec fn back_out(&self, addr: usize, op: Operation, code: i32) -> Progress<
        MapRing,
        Call,
    > {
        Progress::Next(
            self.at(Stage::Freeing { op, code }),
            Call::Deallocate { addr, size: (2 * self.len) as usize },
        )
    }

    /// How the mapping goes on once the host has answered the call of the
    /// stage it stands at.
    pub open spec fn after(&self, answer: Answer) -> Progress<MapRing, Call> {
        match self.stage {
            Stage::Allocating => match answer {
                Answer::Done(addr) => Progress::Next(
                    self.at(Stage::Fixing { addr }),
                    Call::Allocate { addr, size: self.len, anywhere: false },
                ),
                Answer::Failed(code) => Progress::Done(
                    RingEnd::Failed(Operation::RingAllocate, code),
                ),
            },
            Stage::Fixing { addr } => match answer {
                Answer::Done(_) => Progress::Next(
                    self.at(Stage::Entering { addr }),
                    Call::MakeMemoryEntry { size: self.len, offset: addr },
                ),
                Answer::Failed(code) => self.back_out(addr, Operation::RingPrimary, code),
            },
            Stage::Entering { addr } => match answer {
                Answer::Done(port) => Progress::Next(
                    self.at(Stage::Mapping { addr }),
                    Call::MapEntry { addr: (addr + self.len) as usize, size: self.len, object: port as u32 },
                ),
                Answer::Failed(code) => self.back_out(addr, Operation::RingEntry, code),
            },
            Stage::Mapping { addr } => match answer {
                Answer::Done(_) => Progress::Done(RingEnd::Mapped(addr)),
                Answer::Failed(code) => self.back_out(addr, Operation::RingSecondary, code),
            },
            Stage::Freeing { op, code } => Progress::Done(RingEnd::Failed(op, code)),
        }
    }

    /// Goes on with the mapping, given how the host answered the call of
    /// the stage it stands at.
    pub fn next(self, answer: Answer) -> (p: Progress<MapRing, Call>)
        requires
            self.inv(),
            self.admits(answer),
        ensures
            p == self.after(answer),
            p matches Progress::Next(ring, _) ==> ring.inv(),
    {
        let len = self.len;
        match self.stage {
            Stage::Allocating => match answer {
                Answer::Done(addr) => Progress::Next(
                    MapRing { len, stage: Stage::Fixing { addr } },
                    Call::Allocate { addr, size: len, anywhere: false },
                ),
                Answer::Failed(code) => Progress::Done(
                    RingEnd::Failed(Operation::RingAllocate, code),
                ),
            },
            Stage::Fixing { addr } => match answer {
                Answer::Done(_) => Progress::Next(
                    MapRing { len, stage: Stage::Entering { addr } },
                    Call::MakeMemoryEntry { size: len, offset: addr },
                ),
                Answer::Failed(code) => self.free(addr, Operation::RingPrimary, code),
            },
            Stage::Entering { addr } => match answer {
                Answer::Done(port) => Progress::Next(
                    MapRing { len, stage: Stage::Mapping { addr } },
                    Call::MapEntry { addr: addr + len, size: len, object: port as u32 },
                ),
                Answer::Failed(code) => self.free(addr, Operation::RingEntry, code),
            },
            Stage::Mapping { addr } => match answer {
                Answer::Done(_) => Progress::Done(RingEnd::Mapped(addr)),
                Answer::Failed(code) => self.free(addr, Operation::RingSecondary, code),
            },
            Stage::Freeing { op, code } => Progress::Done(RingEnd::Failed(op, code)),
        }
    }

    /// Deallocates the whole range before the mapping ends in a failure.
    fn free(&self, addr: usize, op: Operation, code: i32) -> (p: Progress<MapRing, Call>)
        requires
            self.inv(),
        ensures
            p == self.back_out(addr, op, code),
            p matches Progress::Next(ring, _) && ring.inv(),
    {
        Progress::Next(
            MapRing { len: self.len, stage: Stage::Freeing { op, code } },
            unmap_ring(addr, self.len),
        )
    }
}

/// A failure at any step after the first gives back the whole range: the
/// next call deallocates twice the length that was asked for at the
/// address, and then the mapping ends in the failure.
pub proof fn lemma_failure_deallocates(ring: MapRing, code: i32, answer: Answer)
    requires
        ring.stage is Fixing || ring.stage is Entering || ring.stage is Mapping,
    ensures
        ({
            let (addr, op) = match ring.stage {
                Stage::Fixing { addr } => (addr, Operation::RingPrimary),
                Stage::Entering { addr } => (addr, Operation::RingEntry),
                Stage::Mapping { addr } => (addr, Operation::RingSecondary),
                _ => arbitrary(),
            };
            &&& ring.after(Answer::Failed(code)) matches Progress::Next(freeing, free)
            &&& free == (Call::Deallocate { addr, size: (2 * ring.len) as usize })
            &&& freeing.after(answer) == Progress::<MapRing, Call>::Done(RingEnd::Failed(op, code))
        }),
{
}

/// A ring is mapped only where all four steps went through: the mapping
/// ends in an address only when the entry over the first half was mapped
/// behind it, and the address is the one that the first step gave.
pub proof fn lemma_mapped_after_all_steps(ring: MapRing, answer: Answer)
    requires
        ring.inv(),
    ensures
        match ring.after(answer) {
            Progress::Done(RingEnd::Mapped(addr)) => ring.stage == (Stage::Mapping { addr })
                && answer is Done,
            Progress::Next(next, call) => match next.stage {
                Stage::Mapping { addr } => ring.stage == (Stage::Entering { addr }) && match call {
                    Call::MapEntry { addr: at, size, object: _ } => at == addr + ring.len && size
                        == ring.len,
                    _ => false,
                },
                _ => true,
            },
            _ => true,
        },
{
}

/// The first call of the mapping of a ring of `len` bytes, and the state
/// to come back in with its answer.
pub fn map_ring(len: usize) -> (r: (MapRing, Call))
    requires
        2 * len <= usize::MAX,
    ensures
        r == MapRing::begin(len),
        r.0.inv(),
{
    (
        MapRing { len, stage: Stage::Allocating },
        Call::Allocate { addr: 0, size: 2 * len, anywhere: true },
    )
}

/// The call that gives the doubled range of a ring of `len` bytes back.
pub fn unmap_ring(pg: usize, len: usize) -> (call: Call)
    requires
        2 * len <= usize::MAX,
    ensures
        call == (Call::Deallocate { addr: pg, size: (2 * len) as usize }),
{
    Call::Deallocate { addr: pg, size: 2 * len }
}

/// The result of `unmap_ring`, given the code that the kernel returned:
/// zero is success.
pub fn unmapped(code: i32) -> (r: Result<(), crate::error::Error>)
    ensures
        match r {
            Ok(_) => code == 0,
            Err(e) => code != 0 && e.op() == Operation::RingDeallocate && e.is_kernel(code),
        },
{
    if code != 0 {
        Err(crate::error::Error::kernel(Operation::RingDeallocate, code))
    } else {
        Ok(())
    }
}

} // verus!
