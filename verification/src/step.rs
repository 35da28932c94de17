//! Decisions of the size-probe protocol.
//!
//! The kernel calls that read an attribute value or the attribute-name list
//! take a fixed-size buffer. A caller first probes with an empty buffer to
//! learn the required size, allocates exactly that much, and calls again to
//! fill it. The functions here classify what each raw return value demands
//! next; the shell around this crate issues the calls and obeys the
//! classification.

use vstd::prelude::*;

use crate::error::{errno_error, from_errno, XattrError, ERANGE};

verus! {

/// What a size-probing call's result demands.
#[derive(Clone, Copy, Debug, PartialEq, Eq, Structural)]
pub enum ProbeStep {
    /// The probe itself failed: a probe failure is never a sizing race, so
    /// the operation fails with the reported error at once.
    Fail(XattrError),
    /// The full result occupies zero bytes: done, with an empty result.
    Empty,
    /// Allocate exactly this many bytes and call again to fill them.
    Alloc(usize),
}

/// What a filling call's result demands.
#[derive(Clone, Copy, Debug, PartialEq, Eq, Structural)]
pub enum FillStep {
    /// The call wrote this many bytes — possibly fewer than probed, when the
    /// attribute shrank in between: truncate the buffer to it and finish.
    Done(usize),
    /// The buffer was too small — the attribute grew between the probe and
    /// the fill: discard the buffer and probe again. This is the only
    /// retryable condition.
    Retry,
    /// Any other failure is fatal.
    Fail(XattrError),
}

/// The step a probe returning `ret` (with `errno` set on failure) demands.
pub open spec fn probe_step(ret: isize, errno: i32) -> ProbeStep {
    if ret < 0 {
        ProbeStep::Fail(errno_error(errno))
    } else if ret == 0 {
        ProbeStep::Empty
    } else {
        ProbeStep::Alloc(ret as usize)
    }
}

/// The step a fill returning `ret` (with `errno` set on failure) demands.
pub open spec fn fill_step(ret: isize, errno: i32) -> FillStep {
    if ret >= 0 {
        FillStep::Done(ret as usize)
    } else if errno == ERANGE {
        FillStep::Retry
    } else {
        FillStep::Fail(errno_error(errno))
    }
}

/// Classifies the result of a size-probing call.
pub fn classify_probe(ret: isize, errno: i32) -> (r: ProbeStep)
    ensures
        r == probe_step(ret, errno),
{
    if ret < 0 {
        ProbeStep::Fail(from_errno(errno))
    } else if ret == 0 {
        ProbeStep::Empty
    } else {
        ProbeStep::Alloc(ret as usize)
    }
}

/// Classifies the result of a filling call.
pub fn classify_fill(ret: isize, errno: i32) -> (r: FillStep)
    ensures
        r == fill_step(ret, errno),
{
    if ret >= 0 {
        FillStep::Done(ret as usize)
    } else if errno == ERANGE {
        FillStep::Retry
    } else {
        FillStep::Fail(from_errno(errno))
    }
}

/// The outcome of a single-shot call that only reports status: success on a
/// zero return, otherwise the reported OS error.
pub open spec fn status_result(ret: i32, errno: i32) -> Result<(), XattrError> {
    if ret == 0 {
        Ok(())
    } else {
        Err(errno_error(errno))
    }
}

/// Finishes a single-shot status call, such as the ones that set or remove
/// an attribute: those have no size-discovery race and are never retried.
pub fn finish_status_call(ret: i32, errno: i32) -> (r: Result<(), XattrError>)
    ensures
        r == status_result(ret, errno),
{
    if ret == 0 {
        Ok(())
    } else {
        Err(from_errno(errno))
    }
}

} // verus!
