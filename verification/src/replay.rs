//! The probe-and-fill loop, run over a recorded sequence of kernel replies.
//!
//! The loop itself is simple but easy to get wrong: probe for the size, fail
//! fast on a probe error, allocate exactly what was reported, fill, accept a
//! shorter result when the attribute shrank, and go back to the probe only
//! when the buffer was outgrown. Running it over an explicit reply script
//! makes the loop verifiable and lets a test inject the size-change race at
//! will, which a live kernel never produces deterministically. The unverified
//! shell drives the same decisions, one classification at a time, against
//! the real system calls.

use vstd::prelude::*;

use crate::error::{XattrError, ERANGE};
use crate::step::{classify_fill, classify_probe, fill_step, probe_step, FillStep, ProbeStep};

verus! {

/// One recorded kernel reply: what the call returned, the errno it left when
/// it failed, and — for a filling call — the bytes it wrote.
#[derive(Clone, Debug)]
pub enum SysReply {
    /// Reply to a size-probing call: its return value and errno.
    Probe(isize, i32),
    /// Reply to a filling call: its return value, errno, and written bytes.
    Fill(isize, i32, Vec<u8>),
}

/// What the probe-and-fill loop produces on a reply script, starting at a
/// probe. `None` means the script ran out or answered out of protocol — a
/// fill reply where a probe was issued, a byte count disagreeing with the
/// reported return value, or more bytes than the allocated buffer holds.
pub open spec fn probe_fill_outcome(replies: Seq<SysReply>) -> Option<
    Result<Seq<u8>, XattrError>,
>
    decreases replies.len(),
{
    if replies.len() == 0 {
        None
    } else {
        match replies[0] {
            SysReply::Probe(ret, errno) => match probe_step(ret, errno) {
                ProbeStep::Fail(e) => Some(Err(e)),
                ProbeStep::Empty => Some(Ok(Seq::empty())),
                ProbeStep::Alloc(cap) => fill_outcome(cap, replies.skip(1)),
            },
            SysReply::Fill(_, _, _) => None,
        }
    }
}

/// The loop's outcome once a buffer of `cap` bytes is allocated and the
/// filling call is issued.
pub open spec fn fill_outcome(cap: usize, replies: Seq<SysReply>) -> Option<
    Result<Seq<u8>, XattrError>,
>
    decreases replies.len(),
{
    if replies.len() == 0 {
        None
    } else {
        match replies[0] {
            SysReply::Fill(ret, errno, data) => match fill_step(ret, errno) {
                FillStep::Done(n) => if n == data@.len() && n <= cap {
                    Some(Ok(data@))
                } else {
                    None
                },
                FillStep::Retry => probe_fill_outcome(replies.skip(1)),
                FillStep::Fail(e) => Some(Err(e)),
            },
            SysReply::Probe(_, _) => None,
        }
    }
}

/// How an executable loop result realizes a spec-level outcome.
pub open spec fn outcome_matches(
    r: Option<Result<Vec<u8>, XattrError>>,
    o: Option<Result<Seq<u8>, XattrError>>,
) -> bool {
    match r {
        None => o is None,
        Some(Ok(v)) => o == Some(Ok::<Seq<u8>, XattrError>(v@)),
        Some(Err(e)) => o == Some(Err::<Seq<u8>, XattrError>(e)),
    }
}

fn copy_bytes(src: &Vec<u8>) -> (r: Vec<u8>)
    ensures
        r@ == src@,
{
    let n = src.len();
    let mut r: Vec<u8> = Vec::new();
    let mut i: usize = 0;
    while i < n
        invariant
            i <= n,
            n == src@.len(),
            r@ == src@.subrange(0, i as int),
        decreases n - i,
    {
        r.push(src[i]);
        i = i + 1;
        proof {
            assert(r@ =~= src@.subrange(0, i as int));
        }
    }
    proof {
        assert(src@.subrange(0, n as int) =~= src@);
    }
    r
}

/// Runs the probe-and-fill loop against the reply script, obeying exactly
/// the classification of each reply.
pub fn run_probe_fill(replies: &Vec<SysReply>) -> (r: Option<Result<Vec<u8>, XattrError>>)
    ensures
        outcome_matches(r, probe_fill_outcome(replies@)),
{
    proof {
        assert(replies@.skip(0) =~= replies@);
    }
    run_from(replies, 0)
}

fn run_from(replies: &Vec<SysReply>, i: usize) -> (r: Option<Result<Vec<u8>, XattrError>>)
    requires
        i <= replies@.len(),
    ensures
        outcome_matches(r, probe_fill_outcome(replies@.skip(i as int))),
    decreases replies@.len() - i,
{
    let ghost t = replies@.skip(i as int);
    let n = replies.len();
    if i >= n {
        return None;
    }
    proof {
        assert(t[0] == replies@[i as int]);
    }
    match &replies[i] {
        SysReply::Fill(_, _, _) => None,
        SysReply::Probe(ret, errno) => {
            match classify_probe(*ret, *errno) {
                ProbeStep::Fail(e) => Some(Err(e)),
                ProbeStep::Empty => Some(Ok(Vec::new())),
                ProbeStep::Alloc(cap) => {
                    proof {
                        assert(t.skip(1) =~= replies@.skip(i as int + 1));
                    }
                    if i + 1 >= n {
                        return None;
                    }
                    proof {
                        assert(t.skip(1)[0] == replies@[i as int + 1]);
                    }
                    match &replies[i + 1] {
                        SysReply::Probe(_, _) => None,
                        SysReply::Fill(fret, ferrno, data) => {
                            match classify_fill(*fret, *ferrno) {
                                FillStep::Done(written) => {
                                    if written == data.len() && written <= cap {
                                        Some(Ok(copy_bytes(data)))
                                    } else {
                                        None
                                    }
                                },
                                FillStep::Retry => {
                                    proof {
                                        assert(t.skip(1).skip(1) =~= replies@.skip(
                                            i as int + 2,
                                        ));
                                    }
                                    run_from(replies, i + 2)
                                },
                                FillStep::Fail(e) => Some(Err(e)),
                            }
                        },
                    }
                },
            }
        },
    }
}

/// One size-growth race costs exactly one retry and still delivers the
/// final, correctly sized value: whenever a first probe reports a positive
/// size, the fill is answered with the buffer-too-small condition, and a
/// second probe-and-fill round then agrees on a size, the loop's outcome on
/// that four-reply script is precisely the bytes of the second fill.
pub proof fn lemma_growth_retries_once(
    n1: isize,
    discarded: Vec<u8>,
    n2: isize,
    e2: i32,
    data: Vec<u8>,
)
    requires
        n1 > 0,
        n2 > 0,
        data@.len() == n2 as nat,
    ensures
        probe_fill_outcome(
            seq![
                SysReply::Probe(n1, 0),
                SysReply::Fill(-1isize, ERANGE, discarded),
                SysReply::Probe(n2, 0),
                SysReply::Fill(n2, e2, data),
            ],
        ) == Some(Ok::<Seq<u8>, XattrError>(data@)),
{
    let s = seq![
        SysReply::Probe(n1, 0),
        SysReply::Fill(-1isize, ERANGE, discarded),
        SysReply::Probe(n2, 0),
        SysReply::Fill(n2, e2, data),
    ];
    assert(probe_fill_outcome(s) == fill_outcome(n1 as usize, s.skip(1)));
    assert(s.skip(1)[0] == s[1]);
    assert(fill_outcome(n1 as usize, s.skip(1)) == probe_fill_outcome(s.skip(1).skip(1)));
    assert(s.skip(1).skip(1) =~= s.skip(2));
    assert(s.skip(2)[0] == s[2]);
    assert(probe_fill_outcome(s.skip(2)) == fill_outcome(n2 as usize, s.skip(2).skip(1)));
    assert(s.skip(2).skip(1) =~= s.skip(3));
    assert(s.skip(3)[0] == s[3]);
    assert(fill_outcome(n2 as usize, s.skip(3)) == Some(Ok::<Seq<u8>, XattrError>(data@)));
}

} // verus!
