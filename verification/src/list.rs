//! The packed attribute-name buffer and its forward-only cursor.
//!
//! The kernel's list call hands back zero or more attribute names laid
//! back-to-back, each terminated by a single NUL byte, with no other framing.
//! `decode_names` says what names such a buffer holds; `XAttrs` owns a buffer
//! and produces those names one at a time, advancing past each NUL. The
//! cursor only moves forward: once the end is reached the sequence is over
//! and a fresh list call is needed to enumerate again.

use vstd::prelude::*;

verus! {

/// Index of the first NUL byte of `s`, or `s.len()` when none occurs.
pub open spec fn first_nul(s: Seq<u8>) -> nat
    decreases s.len(),
{
    if s.len() == 0 {
        0
    } else if s[0] == 0 {
        0
    } else {
        (first_nul(s.skip(1)) + 1) as nat
    }
}

/// The names packed into `s`, in order. Each name is the run of bytes before
/// the next NUL; the NUL itself belongs to no name. A trailing run without a
/// terminator counts as a final name, so the function is total, though a
/// buffer the kernel produced always ends in a NUL.
pub open spec fn decode_names(s: Seq<u8>) -> Seq<Seq<u8>>
    decreases s.len(),
{
    if s.len() == 0 {
        Seq::empty()
    } else {
        let k = first_nul(s) as int;
        if k < s.len() {
            seq![s.take(k)] + decode_names(s.skip(k + 1))
        } else {
            seq![s]
        }
    }
}

/// `first_nul` is the position `k` whenever everything before `k` is
/// non-NUL and `k` is a NUL or the end.
proof fn lemma_first_nul_at(s: Seq<u8>, k: int)
    requires
        0 <= k <= s.len(),
        forall|j: int| 0 <= j < k ==> s[j] != 0,
        k < s.len() ==> s[k] == 0,
    ensures
        first_nul(s) == k,
    decreases s.len(),
{
    if k == 0 {
    } else {
        assert(s[0] != 0);
        let t = s.skip(1);
        assert forall|j: int| 0 <= j < k - 1 implies t[j] != 0 by {
            assert(t[j] == s[j + 1]);
        }
        if k - 1 < t.len() {
            assert(t[k - 1] == s[k]);
        }
        lemma_first_nul_at(t, k - 1);
    }
}

/// A non-empty buffer decodes to at least one name.
proof fn lemma_decode_nonempty(s: Seq<u8>)
    requires
        s.len() > 0,
    ensures
        decode_names(s).len() > 0,
{
}

/// An owned attribute-name buffer doubling as a single-pass cursor over the
/// names it holds.
#[derive(Clone, Debug)]
pub struct XAttrs {
    data: Vec<u8>,
    offset: usize,
}

impl XAttrs {
    /// The consumption position never passes the end of the buffer.
    pub closed spec fn wf(self) -> bool {
        self.offset <= self.data@.len()
    }

    /// The names not yet produced, in the order they will come out.
    pub closed spec fn remaining(self) -> Seq<Seq<u8>> {
        decode_names(self.data@.skip(self.offset as int))
    }

    /// Wraps a buffer as returned by the kernel's list call, with the cursor
    /// at its start.
    pub fn from_bytes(data: Vec<u8>) -> (r: XAttrs)
        ensures
            r.wf(),
            r.remaining() == decode_names(data@),
    {
        let r = XAttrs { data, offset: 0 };
        proof {
            assert(r.data@.skip(0) =~= r.data@);
        }
        r
    }

    /// Produces the next name and advances past its terminator, or reports
    /// the end of the sequence. Reaching the end is permanent: the cursor is
    /// never reset.
    pub fn next(&mut self) -> (r: Option<Vec<u8>>)
        requires
            old(self).wf(),
        ensures
            final(self).wf(),
            old(self).remaining().len() == 0 ==> r is None && *final(self) == *old(self),
            old(self).remaining().len() > 0 ==> (r matches Some(v)
                && v@ == old(self).remaining()[0]
                && final(self).remaining() == old(self).remaining().skip(1)),
    {
        let len = self.data.len();
        let start = self.offset;
        if start >= len {
            proof {
                assert(self.data@.skip(start as int).len() == 0);
            }
            return None;
        }
        let mut end = start;
        while end < len && self.data[end] != 0
            invariant
                start <= end <= len,
                len == self.data@.len(),
                forall|j: int| start <= j < end ==> self.data@[j] != 0,
            decreases len - end,
        {
            end = end + 1;
        }
        let mut name: Vec<u8> = Vec::new();
        let mut i = start;
        while i < end
            invariant
                start <= i <= end <= len,
                len == self.data@.len(),
                name@ == self.data@.subrange(start as int, i as int),
            decreases end - i,
        {
            name.push(self.data[i]);
            i = i + 1;
            proof {
                assert(name@ =~= self.data@.subrange(start as int, i as int));
            }
        }
        let new_offset = if end < len {
            end + 1
        } else {
            len
        };
        proof {
            let d = self.data@;
            let t = d.skip(start as int);
            let k = end - start;
            assert forall|j: int| 0 <= j < k implies t[j] != 0 by {
                assert(t[j] == d[start + j]);
            }
            if k < t.len() {
                assert(t[k] == d[end as int]);
            }
            lemma_first_nul_at(t, k);
            if end < len {
                assert(name@ =~= t.take(k));
                assert(t.skip(k + 1) =~= d.skip(new_offset as int));
                assert(decode_names(t) == seq![t.take(k)] + decode_names(t.skip(k + 1)));
                assert(decode_names(t)[0] == name@);
                assert(decode_names(t).skip(1) =~= decode_names(t.skip(k + 1)));
            } else {
                assert(k == t.len());
                assert(name@ =~= t);
                assert(decode_names(t) == seq![t]);
                assert(decode_names(t)[0] == name@);
                assert(d.skip(new_offset as int).len() == 0);
                assert(decode_names(t).skip(1) =~= decode_names(d.skip(new_offset as int)));
            }
        }
        self.offset = new_offset;
        Some(name)
    }

    /// Produces every name still to come, in order, leaving the cursor at
    /// the end of the buffer.
    pub fn names(&mut self) -> (r: Vec<Vec<u8>>)
        requires
            old(self).wf(),
        ensures
            final(self).wf(),
            final(self).remaining().len() == 0,
            r@.map_values(|v: Vec<u8>| v@) == old(self).remaining(),
    {
        let mut r: Vec<Vec<u8>> = Vec::new();
        loop
            invariant
                self.wf(),
                old(self).remaining() == r@.map_values(|v: Vec<u8>| v@) + self.remaining(),
            ensures
                self.wf(),
                self.remaining().len() == 0,
                old(self).remaining() == r@.map_values(|v: Vec<u8>| v@) + self.remaining(),
            decreases self.remaining().len(),
        {
            let ghost before = self.remaining();
            let ghost mapped = r@.map_values(|v: Vec<u8>| v@);
            match self.next() {
                None => {
                    break;
                },
                Some(v) => {
                    r.push(v);
                    proof {
                        assert(r@.map_values(|w: Vec<u8>| w@) =~= mapped.push(v@));
                        assert(mapped.push(before[0]) + before.skip(1) =~= mapped + before);
                    }
                },
            }
        }
        proof {
            assert(r@.map_values(|v: Vec<u8>| v@) + self.remaining() =~= r@.map_values(
                |v: Vec<u8>| v@,
            ));
        }
        r
    }

    /// How many names are still to come: none at the end of the buffer,
    /// otherwise at least one with no upper bound claimed.
    pub fn size_hint(&self) -> (r: (usize, Option<usize>))
        requires
            self.wf(),
        ensures
            self.remaining().len() == 0 ==> r == (0usize, Some(0usize)),
            self.remaining().len() > 0 ==> r == (1usize, None::<usize>),
    {
        if self.data.len() == self.offset {
            proof {
                assert(self.data@.skip(self.offset as int).len() == 0);
            }
            (0, Some(0))
        } else {
            proof {
                lemma_decode_nonempty(self.data@.skip(self.offset as int));
            }
            (1, None)
        }
    }
}

} // verus!
