//! The calls that a host carries out for a mapping, as plain values: the
//! requests that every host understands, and for each family of hosts the
//! system calls that they come to.

use crate::error::{Error, Operation};
use crate::{Advise, Flush, Protect};
use vstd::prelude::*;

pub mod mach;
pub mod unix;
pub mod windows;

verus! {

/// One call for the host to carry out. Every pointer is an address, and
/// every range that holds one is made of whole pages.
#[derive(Clone, Copy, Debug, PartialEq, Eq, Structural)]
pub enum Request {
    /// Map `len` bytes of a file from the byte `offset` on.
    MapFile { offset: usize, len: usize, protect: Protect },
    /// Map `len` bytes that no file backs.
    MapAnon { len: usize, protect: Protect },
    /// Give a mapped range back.
    Unmap { ptr: usize, len: usize },
    /// Change the protection of a range.
    Protect { ptr: usize, len: usize, protect: Protect },
    /// Write the changed pages of a range back to its file.
    Flush { ptr: usize, len: usize, mode: Flush },
    /// Tell how a range will be used.
    Advise { ptr: usize, len: usize, advise: Advise },
    /// Keep the pages of a range in memory.
    Lock { ptr: usize, len: usize },
    /// Let the pages of a range leave memory again.
    Unlock { ptr: usize, len: usize },
}

impl Request {
    /// The operation that an error of this call is tagged with.
    pub open spec fn op(&self) -> Operation {
        match *self {
            Request::MapFile { .. } => Operation::MapFile,
            Request::MapAnon { .. } => Operation::MapAnonymous,
            Request::Unmap { .. } => Operation::Unmap,
            Request::Protect { .. } => Operation::Protect,
            Request::Flush { .. } => Operation::Flush,
            Request::Advise { .. } => Operation::Advise,
            Request::Lock { .. } => Operation::Lock,
            Request::Unlock { .. } => Operation::Unlock,
        }
    }

    /// The operation that an error of this call is tagged with.
    pub fn operation(&self) -> (op: Operation)
        ensures
            op == self.op(),
    {
        match *self {
            Request::MapFile { .. } => Operation::MapFile,
            Request::MapAnon { .. } => Operation::MapAnonymous,
            Request::Unmap { .. } => Operation::Unmap,
            Request::Protect { .. } => Operation::Protect,
            Request::Flush { .. } => Operation::Flush,
            Request::Advise { .. } => Operation::Advise,
            Request::Lock { .. } => Operation::Lock,
            Request::Unlock { .. } => Operation::Unlock,
        }
    }
}

/// What the host answered to a call: the value it returned, an address or a
/// descriptor, or the code of its refusal.
#[derive(Clone, Copy, Debug, PartialEq, Eq, Structural)]
pub enum Answer {
    /// The call went through and returned this value.
    Done(usize),
    /// The call failed with this code.
    Failed(i32),
}

/// The result of a call under the operation `op`: the returned value, or the
/// host's error tagged with the operation.
pub fn result(op: Operation, answer: Answer) -> (r: Result<usize, Error>)
    ensures
        match answer {
            Answer::Done(value) => r == Ok::<usize, Error>(value),
            Answer::Failed(code) => r matches Err(e) && e.op() == op && e.is_host(code),
        },
{
    match answer {
        Answer::Done(value) => Ok(value),
        Answer::Failed(code) => Err(Error::system(op, code)),
    }
}

/// How the mapping of a ring ended: the address of the doubled range, or
/// the step that failed and the code it failed with.
#[derive(Clone, Copy, Debug, PartialEq, Eq, Structural)]
pub enum RingEnd {
    /// The doubled range lies at this address.
    Mapped(usize),
    /// This step failed with this code.
    Failed(Operation, i32),
}

/// How the mapping of a ring goes on: with a call, in a new state, or not
/// at all.
#[derive(Debug, PartialEq, Eq, Structural)]
pub enum Progress<S, C> {
    /// Make this call and come back in this state with its answer.
    Next(S, C),
    /// The mapping has ended.
    Done(RingEnd),
}

impl RingEnd {
    /// The result of a mapping whose failures are errors of the host.
    pub fn into_result(self) -> (r: Result<usize, Error>)
        ensures
            match self {
                RingEnd::Mapped(ptr) => r == Ok::<usize, Error>(ptr),
                RingEnd::Failed(op, code) => r matches Err(e) && e.op() == op && e.is_host(code),
            },
    {
        match self {
            RingEnd::Mapped(ptr) => Ok(ptr),
            RingEnd::Failed(op, code) => Err(Error::system(op, code)),
        }
    }

    /// The result of a mapping whose failures are codes of the kernel.
    pub fn into_kernel_result(self) -> (r: Result<usize, Error>)
        ensures
            match self {
                RingEnd::Mapped(ptr) => r == Ok::<usize, Error>(ptr),
                RingEnd::Failed(op, code) => r matches Err(e) && e.op() == op && e.is_kernel(code),
            },
    {
        match self {
            RingEnd::Mapped(ptr) => Ok(ptr),
            RingEnd::Failed(op, code) => Err(Error::kernel(op, code)),
        }
    }
}

} // verus!
