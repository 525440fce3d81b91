//! Planning and bookkeeping for virtual-memory-backed input and output:
//! page arithmetic, mapping options, mapping handles, and the cursors of
//! ring buffers that live in a doubled address range.
//!
//! Nothing here touches the host. Every operation that the host must carry
//! out is described as a value: which call, over which whole pages, with
//! which protection. Whoever performs it reports the outcome back.

use vstd::prelude::*;

pub mod as_type;
pub mod error;
pub mod io;
pub mod map;
pub mod os;
pub mod size;
pub mod slice;
pub mod span;

pub use crate::as_type::AsType;
pub use crate::error::{ConvertResult, Error, Input, Operation, Repr};
pub use crate::map::{FilePlan, MapMut, OpenFlags, Options, ReadMap, Settings, Window};
pub use crate::os::{Answer, Request};
pub use crate::slice::{split_range, trim_range, ArcSlice, ByteRange, Slice};
pub use crate::span::{FromPtr, Span, SpanMut};
pub use crate::size::{allocation_size, load_system_info, page_size, Size, SizeCache};

verus! {

/// Protection level for a page.
#[derive(Clone, Copy, Debug, PartialEq, Eq, Structural, PartialOrd, Ord, Hash)]
pub enum Protect {
    /// The page(s) may only be read from.
    ReadOnly,
    /// The page(s) may be read from and written to.
    ReadWrite,
    /// Like `ReadWrite`, but changes are not shared.
    ReadCopy,
    /// The page(s) may be read from and executed.
    ReadExec,
}

/// Desired behavior when flushing write changes.
#[derive(Clone, Copy, Debug, PartialEq, Eq, Structural, PartialOrd, Ord, Hash)]
pub enum Flush {
    /// Request dirty pages to be written immediately and block until completed.
    Sync,
    /// Request dirty pages to be written but do not wait for completion.
    Async,
}

/// Hint for the access pattern of the underlying mapping.
#[derive(Clone, Copy, Debug, PartialEq, Eq, Structural, PartialOrd, Ord, Hash)]
pub enum Advise {
    /// Use the system default behavior.
    Normal,
    /// The map will be accessed in a sequential manner.
    Sequential,
    /// The map will be accessed in a random manner.
    Random,
    /// The map is expected to be accessed soon.
    WillNeed,
    /// The map is not expected to be accessed soon.
    WillNotNeed,
}

/// Byte extent used for the length and resize options.
#[derive(Clone, Copy, Debug, PartialEq, Eq, Structural)]
pub enum Extent {
    /// The end of the underlying file or allocation.
    End,
    /// An exact byte position.
    Exact(usize),
    /// A byte position of at least this offset.
    Min(usize),
    /// A byte position of no more than this offset.
    Max(usize),
}

impl From<usize> for Extent {
    fn from(v: usize) -> (e: Self) {
        Extent::Exact(v)
    }
}

impl vstd::std_specs::convert::FromSpecImpl<usize> for Extent {
    open spec fn obeys_from_spec() -> bool {
        true
    }

    open spec fn from_spec(v: usize) -> Self {
        Extent::Exact(v)
    }
}

} // verus!
