//! The adapter's error taxonomy.
//!
//! Every operation fails with a typed error that carries the native error
//! code verbatim (`errno` on POSIX, `GetLastError` on Windows), so callers
//! can diagnose platform-specific causes.

use vstd::prelude::*;

verus! {

/// The `errno` value a POSIX system reports when a named object does not
/// exist.
pub const NOT_FOUND_CODE: i32 = 2;

/// A typed failure of one of the five adapter operations, wrapping the
/// operating system's native error code.
#[derive(Clone, Copy, Debug, PartialEq, Eq, Structural)]
pub enum ShmError {
    /// `create` failed: the name was rejected, the size could not be set,
    /// or mapping failed.
    CreationError { code: i32 },
    /// `open` failed: the name does not exist or mapping failed.
    OpenError { code: i32 },
    /// `unmap` failed: the operating system rejected the request.
    UnmapError { code: i32 },
    /// `close` failed: the handle was invalid.
    CloseError { code: i32 },
    /// `destroy` failed: the named object does not exist.
    DestroyError { code: i32 },
}

impl ShmError {
    /// The native error code this failure wraps.
    pub open spec fn spec_code(self) -> i32 {
        match self {
            ShmError::CreationError { code } => code,
            ShmError::OpenError { code } => code,
            ShmError::UnmapError { code } => code,
            ShmError::CloseError { code } => code,
            ShmError::DestroyError { code } => code,
        }
    }

    /// The native error code this failure wraps.
    pub fn code(&self) -> (c: i32)
        ensures
            c == self.spec_code(),
    {
        match self {
            ShmError::CreationError { code } => *code,
            ShmError::OpenError { code } => *code,
            ShmError::UnmapError { code } => *code,
            ShmError::CloseError { code } => *code,
            ShmError::DestroyError { code } => *code,
        }
    }

    /// Whether this failure reports that the named object was not found,
    /// as opposed to a resource limit or a permission problem.
    pub fn is_not_found(&self) -> (r: bool)
        ensures
            r == (self.spec_code() == NOT_FOUND_CODE),
    {
        self.code() == NOT_FOUND_CODE
    }

    /// A short diagnostic label for the failed operation.
    pub fn operation(&self) -> (s: &'static str)
        ensures
            self is CreationError ==> s@ == "create"@,
            self is OpenError ==> s@ == "open"@,
            self is UnmapError ==> s@ == "unmap"@,
            self is CloseError ==> s@ == "close"@,
            self is DestroyError ==> s@ == "destroy"@,
    {
        match self {
            ShmError::CreationError { .. } => "create",
            ShmError::OpenError { .. } => "open",
            ShmError::UnmapError { .. } => "unmap",
            ShmError::CloseError { .. } => "close",
            ShmError::DestroyError { .. } => "destroy",
        }
    }
}

} // verus!
