//! The error taxonomy of the attribute operations.

use vstd::prelude::*;

verus! {

/// Linux errno reported when a named attribute does not exist.
pub const ENODATA: i32 = 61;

/// Linux errno reported when the supplied buffer is too small.
pub const ERANGE: i32 = 34;

/// What an attribute operation can fail with.
///
/// `InvalidInput` is raised before any system call when the caller hands in
/// an attribute name with an embedded NUL byte. `NotFound` is the kernel's
/// "no such attribute" condition. Every other OS failure is carried verbatim
/// as its errno in `Os`.
#[derive(Clone, Copy, Debug, PartialEq, Eq, Structural)]
pub enum XattrError {
    InvalidInput,
    NotFound,
    Os(i32),
}

/// The error a failed system call with the given errno turns into.
pub open spec fn errno_error(code: i32) -> XattrError {
    if code == ENODATA {
        XattrError::NotFound
    } else {
        XattrError::Os(code)
    }
}

/// Translates an errno into the library's error, singling out the kernel's
/// "no such attribute" code.
pub fn from_errno(code: i32) -> (r: XattrError)
    ensures
        r == errno_error(code),
{
    if code == ENODATA {
        XattrError::NotFound
    } else {
        XattrError::Os(code)
    }
}

} // verus!
