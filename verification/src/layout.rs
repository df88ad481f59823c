//! How a flat buffer of records is divided into timelines.
//!
//! A manifold is one buffer that holds `timelines` blocks of `len` records
//! each, one block after the other. The functions here say where each block
//! lies; they touch no buffer themselves.

use vstd::prelude::*;

verus! {

/// The shape of a manifold: how many timelines it holds and how many
/// records each of them has.
#[derive(Copy, Clone, Debug, PartialEq, Eq, Structural)]
pub struct ManifoldShape {
    /// Number of timelines.
    pub timelines: usize,
    /// Number of records in each timeline.
    pub len: usize,
}

impl ManifoldShape {
    /// Number of records in the whole buffer.
    pub open spec fn records(self) -> nat {
        (self.timelines * self.len) as nat
    }

    /// Whether the buffer can be walked in blocks: a block holds at least
    /// one record, and the number of records is one that a buffer can have.
    pub open spec fn divisible(self) -> bool {
        self.len > 0 && self.records() <= usize::MAX
    }

    /// The blocks of the buffer in order, each as the position of its first
    /// record and the position behind its last.
    pub open spec fn chunks(self) -> Seq<(usize, usize)> {
        Seq::new(
            self.timelines as nat,
            |k: int| ((k * self.len) as usize, (k * self.len + self.len) as usize),
        )
    }

    /// Number of records in the whole buffer, or `None` where that number
    /// is beyond what a buffer can have.
    pub fn total(self) -> (n: Option<usize>)
        ensures
            self.records() <= usize::MAX ==> n == Some(self.records() as usize),
            self.records() > usize::MAX ==> n is None,
    {
        self.timelines.checked_mul(self.len)
    }

    /// The blocks of the buffer in order: one per timeline, each `len`
    /// records long, the first at the start of the buffer, each next one
    /// where the one before it ends, the last ending where the buffer ends.
    pub fn as_chunks(self) -> (blocks: Vec<(usize, usize)>)
        requires
            self.divisible(),
        ensures
            blocks@ == self.chunks(),
            forall|k: int|
                0 <= k < self.timelines ==> {
                    &&& (#[trigger] blocks[k]).0 == k * self.len
                    &&& blocks[k].1 == blocks[k].0 + self.len
                    &&& blocks[k].1 <= self.records()
                },
    {
        let mut blocks: Vec<(usize, usize)> = Vec::new();
        let mut k: usize = 0;
        let mut start: usize = 0;
        while k < self.timelines
            invariant
                self.divisible(),
                k <= self.timelines,
                start == k * self.len,
                blocks.len() == k,
                forall|j: int|
                    0 <= j < k ==> {
                        &&& (#[trigger] blocks[j]).0 == j * self.len
                        &&& blocks[j].1 == j * self.len + self.len
                        &&& blocks[j].1 <= self.records()
                    },
            decreases self.timelines - k,
        {
            proof {
                lemma_block_fits(k as int, self.timelines as int, self.len as int);
                assert((k + 1) * self.len == k * self.len + self.len) by (nonlinear_arith);
            }
            let end = start + self.len;
            blocks.push((start, end));
            start = end;
            k += 1;
        }
        assert(blocks@ =~= self.chunks());
        blocks
    }
}

/// Block `k` of `n` blocks of `len` records each ends within the `n * len`
/// records of the buffer.
proof fn lemma_block_fits(k: int, n: int, len: int)
    requires
        0 <= k < n,
        0 <= len,
    ensures
        0 <= k * len,
        k * len + len <= n * len,
{
    assert(0 <= k * len) by (nonlinear_arith)
        requires
            0 <= k,
            0 <= len,
    ;
    assert(k * len + len <= n * len) by (nonlinear_arith)
        requires
            k + 1 <= n,
            0 <= len,
    ;
}

} // verus!
