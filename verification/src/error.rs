//! The errors of map operations: which step failed, and how.

use vstd::prelude::*;

verus! {

/// The categories of I/O errors of the standard library, each variant as
/// it is there.
#[verifier::external_type_specification]
pub struct ExErrorKind(std::io::ErrorKind);

/// The I/O error of the standard library. Nothing is known of what one
/// holds; it is carried as it is.
#[verifier::external_type_specification]
#[verifier::external_body]
pub struct ExIoError(std::io::Error);

/// The words with which the standard library describes a category of I/O
/// errors.
pub uninterp spec fn kind_words(kind: std::io::ErrorKind) -> Seq<char>;

/// The result of a conversion between kinds of map: on failure the map that
/// was to be converted comes back beside the error, so that it is not lost.
pub type ConvertResult<T, F> = core::result::Result<T, (Error, F)>;

/// The step of a map operation that an error came from.
#[derive(Clone, Copy, Debug, PartialEq, Eq, Structural, PartialOrd, Ord, Hash)]
#[non_exhaustive]
pub enum Operation {
    /// The operation failed while attempting to map a file.
    MapFile,
    /// A map file handle failed to open.
    MapFileHandle,
    /// The view for a map file handle could not be created.
    MapFileView,
    /// The operation failed while attempting to allocate an anonymous mapping.
    MapAnonymous,
    /// An anonymous mapping handle failed to open.
    MapAnonymousHandle,
    /// The view for an anonymous mapping handle could not be created.
    MapAnonymousView,
    /// A pointer could not be unmapped.
    Unmap,
    /// The protection could not be applied to the memory region.
    Protect,
    /// The advice could not be applied to the memory region.
    Advise,
    /// The physical page could not be locked into memory.
    Lock,
    /// The physical page could not be unlocked from memory.
    Unlock,
    /// A flush cannot be performed for the provided input.
    Flush,
    /// The full address space for a ring could not be allocated.
    RingAllocate,
    /// The full address space for a ring could not be deallocated.
    RingDeallocate,
    /// A virtual mapping entry could not be created.
    RingEntry,
    /// The mapping for the first half of the ring failed to allocate.
    RingPrimary,
    /// The mapping for the second half of the ring failed to allocate.
    RingSecondary,
    /// A temporary memory file descriptor failed to open.
    MemoryFd,
    /// No operation: the error is a plain I/O error.
    Unspecified,
}

impl Operation {
    /// The words that describe the operation, if it has any.
    pub open spec fn text(&self) -> Option<Seq<char>> {
        match *self {
            Operation::MapFile => Some("map file"@),
            Operation::MapFileHandle => Some("map file handle"@),
            Operation::MapFileView => Some("map file view"@),
            Operation::MapAnonymous => Some("map anonymous"@),
            Operation::MapAnonymousHandle => Some("map anonymous handle"@),
            Operation::MapAnonymousView => Some("map anonymous view"@),
            Operation::Unmap => Some("unmap"@),
            Operation::Protect => Some("protect mapped memory"@),
            Operation::Advise => Some("advise mapped memory"@),
            Operation::Lock => Some("lock mapped memory"@),
            Operation::Unlock => Some("unlock mapped memory"@),
            Operation::Flush => Some("flush mapped memory"@),
            Operation::RingAllocate => Some("allocate full ring"@),
            Operation::RingDeallocate => Some("deallocate full ring"@),
            Operation::RingEntry => Some("make ring memory entry"@),
            Operation::RingPrimary => Some("map ring first half"@),
            Operation::RingSecondary => Some("map ring second half"@),
            Operation::MemoryFd => Some("open memory fd"@),
            Operation::Unspecified => None,
        }
    }

    /// A display message fragment describing the operation, none for
    /// `Operation::Unspecified`.
    pub fn as_str(&self) -> (r: Option<&'static str>)
        ensures
            r.is_some() == self.text().is_some(),
            r matches Some(s) ==> s@ == self.text().unwrap(),
    {
        match *self {
            Operation::MapFile => Some("map file"),
            Operation::MapFileHandle => Some("map file handle"),
            Operation::MapFileView => Some("map file view"),
            Operation::MapAnonymous => Some("map anonymous"),
            Operation::MapAnonymousHandle => Some("map anonymous handle"),
            Operation::MapAnonymousView => Some("map anonymous view"),
            Operation::Unmap => Some("unmap"),
            Operation::Protect => Some("protect mapped memory"),
            Operation::Advise => Some("advise mapped memory"),
            Operation::Lock => Some("lock mapped memory"),
            Operation::Unlock => Some("unlock mapped memory"),
            Operation::Flush => Some("flush mapped memory"),
            Operation::RingAllocate => Some("allocate full ring"),
            Operation::RingDeallocate => Some("deallocate full ring"),
            Operation::RingEntry => Some("make ring memory entry"),
            Operation::RingPrimary => Some("map ring first half"),
            Operation::RingSecondary => Some("map ring second half"),
            Operation::MemoryFd => Some("open memory fd"),
            Operation::Unspecified => None,
        }
    }
}

/// What was wrong with the input of a map operation.
#[derive(Clone, Copy, Debug, PartialEq, Eq, Structural, PartialOrd, Ord, Hash)]
#[non_exhaustive]
pub enum Input {
    /// The range of the requested file or bytes is invalid.
    InvalidRange,
    /// The pointer is null.
    NullPtr,
}

impl Input {
    /// The words that describe the input error.
    pub open spec fn text(&self) -> Seq<char> {
        match *self {
            Input::InvalidRange => "invalid range"@,
            Input::NullPtr => "null pointer"@,
        }
    }

    /// A display message fragment describing the input error.
    pub fn as_str(&self) -> (r: &'static str)
        ensures
            r@ == self.text(),
    {
        match *self {
            Input::InvalidRange => "invalid range",
            Input::NullPtr => "null pointer",
        }
    }
}

/// How an operation failed.
#[derive(Clone, Copy, Debug)]
pub enum Repr {
    /// The host refused: its error code, where it gave one, and the category
    /// of the failure.
    Io { errno: Option<i32>, kind: std::io::ErrorKind },
    /// The input was not acceptable.
    Input(Input),
    /// A kernel call returned a code of its own, outside the host's error
    /// codes, here with the category that it falls in.
    Kernel { code: i32, kind: std::io::ErrorKind },
}

/// An error of a map operation: the operation that failed and how it failed.
#[derive(Clone, Copy, Debug)]
pub struct Error {
    repr: Repr,
    op: Operation,
}

/// The error code that the host left behind last, through
/// `system_error::Error::last_os_error` and its `raw_os_error`, which holds a
/// code for every error made that way.
#[verifier::external_body]
fn last_os_code() -> (code: Option<i32>)
    ensures
        code.is_some(),
{
    system_error::Error::last_os_error().raw_os_error()
}

/// The category of a host error code, as `system_error::Error::kind` gives it
/// for an error made with `from_raw_os_error`. The table is the host's.
#[verifier::external_body]
fn os_error_kind(code: i32) -> (kind: std::io::ErrorKind) {
    system_error::Error::from_raw_os_error(code).kind()
}

/// The category of a kernel code, as `system_error::Error::kind` gives it for
/// an error made with `from_raw_kernel_error`. The table is the host's.
#[verifier::external_body]
fn kernel_error_kind(code: i32) -> (kind: std::io::ErrorKind) {
    system_error::Error::from_raw_kernel_error(code).kind()
}

/// The host's message for an error code, as `system_error::Error` displays an
/// error made with `from_raw_os_error`.
#[verifier::external_body]
fn os_error_text(code: i32) -> (text: String) {
    system_error::Error::from_raw_os_error(code).to_string()
}

/// The message for a kernel code, as `system_error::Error` displays an error
/// made with `from_raw_kernel_error`.
#[verifier::external_body]
fn kernel_error_text(code: i32) -> (text: String) {
    system_error::Error::from_raw_kernel_error(code).to_string()
}

/// The message of an I/O error that is nothing but a category, as
/// `std::io::Error` displays one made from an `ErrorKind`: the words that
/// describe the category.
#[verifier::external_body]
fn kind_text(kind: std::io::ErrorKind) -> (text: String)
    ensures
        text@ == kind_words(kind),
{
    std::io::Error::from(kind).to_string()
}

/// The code of the host in an I/O error, if it holds one, as
/// `std::io::Error::raw_os_error` gives it.
#[verifier::external_body]
pub(crate) fn io_error_code(err: &std::io::Error) -> (code: Option<i32>) {
    err.raw_os_error()
}

/// The category of an I/O error, as `std::io::Error::kind` gives it.
#[verifier::external_body]
pub(crate) fn io_error_kind(err: &std::io::Error) -> (kind: std::io::ErrorKind) {
    err.kind()
}

/// An I/O error that is nothing but a category, as `std::io::Error::from`
/// makes one of an `ErrorKind`.
#[verifier::external_body]
pub(crate) fn io_error_of(kind: std::io::ErrorKind) -> (err: std::io::Error) {
    std::io::Error::from(kind)
}

/// The message of an error: `failed to {operation}, {detail}`, or the detail
/// alone where the operation has no words.
pub open spec fn described(op: Operation, detail: Seq<char>) -> Seq<char> {
    match op.text() {
        Some(words) => "failed to "@ + words + ", "@ + detail,
        None => detail,
    }
}

impl Error {
    /// How the operation failed.
    pub closed spec fn repr(&self) -> Repr {
        self.repr
    }

    /// The operation that failed.
    pub closed spec fn op(&self) -> Operation {
        self.op
    }

    /// Whether this is the host's refusal with the code `code`.
    pub open spec fn is_host(&self, code: i32) -> bool {
        self.repr() matches Repr::Io { errno, kind: _ } && errno == Some(code)
    }

    /// Whether this is the failure of a kernel call with the code `code`.
    pub open spec fn is_kernel(&self, code: i32) -> bool {
        self.repr() matches Repr::Kernel { code: c, kind: _ } && c == code
    }

    /// Whether this is the input error `input` of the operation `op`.
    pub open spec fn is_input(&self, op: Operation, input: Input) -> bool {
        self.op() == op && self.repr() == Repr::Input(input)
    }

    /// An error of the host, with the code it gave, if any, and its category.
    pub fn host(op: Operation, code: Option<i32>, kind: std::io::ErrorKind) -> (e: Self)
        ensures
            e.op() == op,
            e.repr() == (Repr::Io { errno: code, kind }),
    {
        Error { repr: Repr::Io { errno: code, kind }, op }
    }

    /// The error of the operation `op` for an I/O error: it holds the code
    /// and the category of `err`.
    pub fn io(op: Operation, err: std::io::Error) -> (e: Self)
        ensures
            e.op() == op,
            e.repr() is Io,
    {
        Error::host(op, io_error_code(&err), io_error_kind(&err))
    }

    /// An error about the input of an operation.
    pub fn input(op: Operation, input: Input) -> (e: Self)
        ensures
            e.op() == op,
            e.repr() == Repr::Input(input),
    {
        Error { repr: Repr::Input(input), op }
    }

    /// An error of the host with the code `code`; its category is the one
    /// that the host's table gives the code.
    pub fn system(op: Operation, code: i32) -> (e: Self)
        ensures
            e.op() == op,
            e.is_host(code),
    {
        Error::host(op, Some(code), os_error_kind(code))
    }

    /// An error of a kernel call that returned `code`, which falls in the
    /// category `kind`.
    pub fn kernel_of(op: Operation, code: i32, kind: std::io::ErrorKind) -> (e: Self)
        ensures
            e.op() == op,
            e.repr() == (Repr::Kernel { code, kind }),
    {
        Error { repr: Repr::Kernel { code, kind }, op }
    }

    /// An error of a kernel call that returned `code`; its category is the
    /// one that the host's table gives the code.
    pub fn kernel(op: Operation, code: i32) -> (e: Self)
        ensures
            e.op() == op,
            e.is_kernel(code),
    {
        Error::kernel_of(op, code, kernel_error_kind(code))
    }

    /// An error for the last failure that the host recorded.
    pub fn last_os_error(op: Operation) -> (e: Self)
        ensures
            e.op() == op,
            exists|code: i32| e.is_host(code),
    {
        Error::system(op, last_os_code().unwrap())
    }

    /// The code of the host that this error holds, if any.
    pub fn raw_os_error(&self) -> (r: Option<i32>)
        ensures
            r == match self.repr() {
                Repr::Io { errno, kind: _ } => errno,
                Repr::Input(_) => None,
                Repr::Kernel { code: _, kind: _ } => None,
            },
    {
        match self.repr {
            Repr::Io { errno, kind: _ } => errno,
            Repr::Input(_) => None,
            Repr::Kernel { code: _, kind: _ } => None,
        }
    }

    /// The category of this error. An input error is `InvalidInput`.
    pub fn kind(&self) -> (r: std::io::ErrorKind)
        ensures
            r == match self.repr() {
                Repr::Io { errno: _, kind } => kind,
                Repr::Input(_) => std::io::ErrorKind::InvalidInput,
                Repr::Kernel { code: _, kind } => kind,
            },
    {
        match self.repr {
            Repr::Io { errno: _, kind } => kind,
            Repr::Input(_) => std::io::ErrorKind::InvalidInput,
            Repr::Kernel { code: _, kind } => kind,
        }
    }

    /// How the operation failed.
    pub fn detail(&self) -> (r: Repr)
        ensures
            r == self.repr(),
    {
        self.repr
    }

    /// The operation that caused the error.
    pub fn operation(&self) -> (r: Operation)
        ensures
            r == self.op(),
    {
        self.op
    }

    /// The message of this error around a given detail.
    pub fn describe(&self, detail: &str) -> (s: String)
        ensures
            s@ == described(self.op(), detail@),
    {
        match self.op.as_str() {
            Some(words) => {
                let mut s = String::from_str("failed to ");
                s.append(words);
                s.append(", ");
                s.append(detail);
                s
            },
            None => String::from_str(detail),
        }
    }

    /// The message of this error. The detail of an input error is its own
    /// words, that of an error of the host without a code the words for its
    /// category, and that of any other error the host's text for its code.
    pub fn to_string(&self) -> (s: String)
        ensures
            match self.repr() {
                Repr::Input(input) => s@ == described(self.op(), input.text()),
                Repr::Io { errno: None, kind } => s@ == described(self.op(), kind_words(kind)),
                _ => exists|detail: Seq<char>| s@ == described(self.op(), detail),
            },
    {
        match self.repr {
            Repr::Input(input) => self.describe(input.as_str()),
            Repr::Io { errno: Some(code), kind: _ } => {
                let detail = os_error_text(code);
                self.describe(detail.as_str())
            },
            Repr::Io { errno: None, kind } => {
                let detail = kind_text(kind);
                self.describe(detail.as_str())
            },
            Repr::Kernel { code, kind: _ } => {
                let detail = kernel_error_text(code);
                self.describe(detail.as_str())
            },
        }
    }
}

impl From<std::io::Error> for Error {
    /// The error for an I/O error that no operation of a map is named for.
    fn from(err: std::io::Error) -> (e: Error) {
        Error::io(Operation::Unspecified, err)
    }
}

impl vstd::std_specs::convert::FromSpecImpl<std::io::Error> for Error {
    open spec fn obeys_from_spec() -> bool {
        false
    }

    open spec fn from_spec(err: std::io::Error) -> Self {
        arbitrary()
    }
}

impl<F> From<(Error, F)> for Error {
    /// The error of a failed conversion, without the map that came with it.
    fn from(value: (Error, F)) -> (e: Error) {
        value.0
    }
}

impl<F> vstd::std_specs::convert::FromSpecImpl<(Error, F)> for Error {
    open spec fn obeys_from_spec() -> bool {
        true
    }

    open spec fn from_spec(value: (Error, F)) -> Self {
        value.0
    }
}

} // verus!
