//! Dividing a parallel stage's index range among workers.

use vstd::prelude::*;

verus! {

/// A half-open range of work item indices, `start..end`.
#[derive(Clone, Copy, Debug, PartialEq, Eq, Structural)]
pub struct WorkRange {
    pub start: u32,
    pub end: u32,
}

/// The number of workers actually used when `workers` are asked for: at
/// least one.
pub open spec fn effective_workers(workers: u32) -> nat {
    if workers == 0 { 1 } else { workers as nat }
}

/// The number of chunks `n` items make among `w` workers: one per worker,
/// but never an empty one.
pub open spec fn chunk_count(n: nat, w: nat) -> nat {
    if n < w { n } else { w }
}

/// The chunks tile `start..end` in order: the first begins at `start`, each
/// ends where the next begins, the last ends at `end`, none is empty, and
/// their sizes are `n / w` or one more.
pub open spec fn tiles(r: Seq<WorkRange>, start: u32, end: u32, w: nat) -> bool {
    let n = (end - start) as nat;
    &&& r.len() == chunk_count(n, w)
    &&& r.len() > 0 ==> r[0].start == start && r[r.len() - 1].end == end
    &&& forall|i: int| 0 <= i < r.len() - 1 ==> #[trigger] r[i].end == r[i + 1].start
    &&& forall|i: int| 0 <= i < r.len() ==> {
        &&& (#[trigger] r[i]).start < r[i].end
        &&& r[i].end - r[i].start == n / w || r[i].end - r[i].start == n / w + 1
    }
}

/// Splits the items `start..end` among `workers` workers (0 counts as one)
/// into contiguous, non-empty chunks whose sizes differ by at most one.
pub fn split_work(start: u32, end: u32, workers: u32) -> (r: Vec<WorkRange>)
    requires
        start <= end,
    ensures
        tiles(r@, start, end, effective_workers(workers)),
{
    let w: u32 = if workers == 0 { 1 } else { workers };
    let n: u32 = end - start;
    let q: u32 = n / w;
    let rem: u32 = n % w;
    let k: u32 = if n < w { n } else { w };
    assert(n as int == q * w + rem && rem < w) by (nonlinear_arith)
        requires
            w > 0,
            q == n as int / w as int,
            rem == n as int % w as int,
    ;
    assert(n < w ==> q == 0 && rem == n) by (nonlinear_arith)
        requires
            w > 0,
            q == n as int / w as int,
            rem == n as int % w as int,
    ;
    let mut out: Vec<WorkRange> = Vec::new();
    let mut cur: u32 = start;
    let mut i: u32 = 0;
    while i < k
        invariant
            w == effective_workers(workers),
            n == end - start,
            n as int == q * w + rem,
            rem < w,
            n < w ==> q == 0 && rem == n,
            k == chunk_count(n as nat, w as nat),
            q == n as nat / w as nat,
            i <= k,
            out@.len() == i,
            cur as int == start + i * q + if i < rem { i as int } else { rem as int },
            cur <= end,
            i > 0 ==> out@[0].start == start,
            i > 0 ==> out@[i - 1].end == cur,
            forall|j: int| 0 <= j < i - 1 ==> #[trigger] out@[j].end == out@[j + 1].start,
            forall|j: int| 0 <= j < i ==> {
                &&& (#[trigger] out@[j]).start < out@[j].end
                &&& out@[j].end - out@[j].start == q || out@[j].end - out@[j].start == q + 1
            },
        decreases k - i,
    {
        assert(rem > 0 ==> q < 0xFFFF_FFFFu32) by (nonlinear_arith)
            requires
                n as int == q * w + rem,
                rem < w,
                n <= 0xFFFF_FFFFu32,
        ;
        let size: u32 = if i < rem { q + 1 } else { q };
        assert((i + 1) * q == i * q + q) by (nonlinear_arith);
        assert(i * q + q + (if i + 1 < rem { i + 1 } else { rem as int }) <= n) by (nonlinear_arith)
            requires
                n as int == q * w + rem,
                i < k,
                k <= w,
                n < w ==> q == 0 && rem == n,
                k == (if n < w { n } else { w }),
        ;
        assert(n >= w ==> q >= 1) by (nonlinear_arith)
            requires
                n as int == q * w + rem,
                rem < w,
        ;
        assert(size > 0);
        let next: u32 = cur + size;
        out.push(WorkRange { start: cur, end: next });
        cur = next;
        i = i + 1;
    }
    assert(k * q + (if k < rem { k as int } else { rem as int }) == n) by (nonlinear_arith)
        requires
            n as int == q * w + rem,
            rem < w,
            n < w ==> q == 0 && rem == n,
            k == (if n < w { n } else { w }),
    ;
    out
}

} // verus!
