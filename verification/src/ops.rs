//! The four attribute operations, decided over recorded kernel replies.
//!
//! Each function is the complete decision path of one operation: the name is
//! checked before anything else, so a name with an embedded NUL byte fails
//! with `InvalidInput` whatever the kernel would have answered, and a valid
//! name hands control to the probe-and-fill loop or to the single-shot
//! status decision. The unverified shell runs the same paths against the
//! live kernel.

use vstd::prelude::*;

use crate::error::XattrError;
use crate::list::{decode_names, XAttrs};
use crate::names::{check_name, valid_name};
use crate::replay::{outcome_matches, probe_fill_outcome, run_probe_fill, SysReply};
use crate::step::{finish_status_call, status_result};

verus! {

/// Reads an attribute value: the probe-and-fill loop keyed by `name`, issued
/// only when the name is NUL-free.
pub fn get_on_replies(name: &[u8], replies: &Vec<SysReply>) -> (r: Option<
    Result<Vec<u8>, XattrError>,
>)
    ensures
        !valid_name(name@) ==> r == Some(Err::<Vec<u8>, XattrError>(XattrError::InvalidInput)),
        valid_name(name@) ==> outcome_matches(r, probe_fill_outcome(replies@)),
{
    match check_name(name) {
        Err(e) => Some(Err(e)),
        Ok(()) => run_probe_fill(replies),
    }
}

/// Writes an attribute value: a single status call, creating the attribute
/// if absent and overwriting it if present, with no retry.
pub fn set_outcome(name: &[u8], ret: i32, errno: i32) -> (r: Result<(), XattrError>)
    ensures
        !valid_name(name@) ==> r == Err::<(), XattrError>(XattrError::InvalidInput),
        valid_name(name@) ==> r == status_result(ret, errno),
{
    match check_name(name) {
        Err(e) => Err(e),
        Ok(()) => finish_status_call(ret, errno),
    }
}

/// Removes an attribute: a single status call with no retry. An absent
/// attribute makes the call fail, and the kernel's "no such attribute"
/// errno surfaces as `NotFound`.
pub fn remove_outcome(name: &[u8], ret: i32, errno: i32) -> (r: Result<(), XattrError>)
    ensures
        !valid_name(name@) ==> r == Err::<(), XattrError>(XattrError::InvalidInput),
        valid_name(name@) ==> r == status_result(ret, errno),
{
    match check_name(name) {
        Err(e) => Err(e),
        Ok(()) => finish_status_call(ret, errno),
    }
}

/// Lists attribute names: the probe-and-fill loop with no name, wrapping the
/// packed buffer it yields as a cursor over the decoded names.
pub fn list_on_replies(replies: &Vec<SysReply>) -> (r: Option<Result<XAttrs, XattrError>>)
    ensures
        (match r {
            None => probe_fill_outcome(replies@) is None,
            Some(Ok(x)) => x.wf() && (probe_fill_outcome(replies@) matches Some(Ok(b))
                && x.remaining() == decode_names(b)),
            Some(Err(e)) => probe_fill_outcome(replies@) == Some(Err::<Seq<u8>, XattrError>(e)),
        }),
{
    match run_probe_fill(replies) {
        None => None,
        Some(Err(e)) => Some(Err(e)),
        Some(Ok(bytes)) => Some(Ok(XAttrs::from_bytes(bytes))),
    }
}

} // verus!
