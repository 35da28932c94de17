//! Validation of attribute names.
//!
//! The kernel takes attribute names as NUL-terminated strings, so a name with
//! an embedded NUL byte cannot be represented and is rejected up front,
//! before any system call is issued.

use vstd::prelude::*;

use crate::error::XattrError;

verus! {

/// A byte sequence the kernel can take as an attribute name: free of NUL.
pub open spec fn valid_name(s: Seq<u8>) -> bool {
    forall|i: int| 0 <= i < s.len() ==> s[i] != 0
}

/// Accepts exactly the NUL-free names; anything else is `InvalidInput`.
pub fn check_name(name: &[u8]) -> (r: Result<(), XattrError>)
    ensures
        r == (if valid_name(name@) {
            Ok::<(), XattrError>(())
        } else {
            Err::<(), XattrError>(XattrError::InvalidInput)
        }),
{
    let n = name.len();
    let mut i: usize = 0;
    while i < n
        invariant
            i <= n,
            n == name@.len(),
            forall|j: int| 0 <= j < i ==> name@[j] != 0,
        decreases n - i,
    {
        if name[i] == 0 {
            return Err(XattrError::InvalidInput);
        }
        i = i + 1;
    }
    Ok(())
}

} // verus!
