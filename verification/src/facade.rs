//! The convenience layer over the raw operations.
//!
//! Exactly one condition is normalized here: a read that failed because the
//! attribute does not exist becomes a successful absent-value result, so no
//! caller above has to special-case that error. Every other failure passes
//! through unchanged.

use vstd::prelude::*;

use crate::error::XattrError;
use crate::names::valid_name;
use crate::ops::get_on_replies;
use crate::replay::{probe_fill_outcome, SysReply};

verus! {

/// Turns the "no such attribute" failure of a read into an absent value.
/// Success and every other failure pass through untouched, so absence alone
/// never raises an error here.
pub fn enodata_to_none(r: Result<Vec<u8>, XattrError>) -> (out: Result<
    Option<Vec<u8>>,
    XattrError,
>)
    ensures
        r matches Ok(v) ==> out == Ok::<Option<Vec<u8>>, XattrError>(Some(v)),
        r == Err::<Vec<u8>, XattrError>(XattrError::NotFound) ==> out == Ok::<
            Option<Vec<u8>>,
            XattrError,
        >(None),
        r matches Err(e) ==> (e == XattrError::NotFound || out == Err::<
            Option<Vec<u8>>,
            XattrError,
        >(e)),
{
    match r {
        Ok(v) => Ok(Some(v)),
        Err(XattrError::NotFound) => Ok(None),
        Err(e) => Err(e),
    }
}

/// The read of the convenience layer, over recorded kernel replies: like
/// `get_on_replies`, but an attribute that does not exist comes back as an
/// absent value instead of an error.
pub fn get_or_absent_on_replies(name: &[u8], replies: &Vec<SysReply>) -> (r: Option<
    Result<Option<Vec<u8>>, XattrError>,
>)
    ensures
        !valid_name(name@) ==> r == Some(
            Err::<Option<Vec<u8>>, XattrError>(XattrError::InvalidInput),
        ),
        valid_name(name@) ==> (match r {
            None => probe_fill_outcome(replies@) is None,
            Some(Ok(Some(v))) => probe_fill_outcome(replies@) == Some(
                Ok::<Seq<u8>, XattrError>(v@),
            ),
            Some(Ok(None)) => probe_fill_outcome(replies@) == Some(
                Err::<Seq<u8>, XattrError>(XattrError::NotFound),
            ),
            Some(Err(e)) => e != XattrError::NotFound && probe_fill_outcome(replies@) == Some(
                Err::<Seq<u8>, XattrError>(e),
            ),
        }),
{
    match get_on_replies(name, replies) {
        None => None,
        Some(inner) => Some(enodata_to_none(inner)),
    }
}

} // verus!
