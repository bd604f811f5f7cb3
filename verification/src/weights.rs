//! What storage access costs.
use vstd::prelude::*;

verus! {

/// What one read and one write of the database take, in computation time.
#[derive(Clone, Copy, Debug, PartialEq, Eq, Structural)]
pub struct DbWeight {
    pub read: u64,
    pub write: u64,
}

/// Computation time and storage proof size that something takes.
#[derive(Clone, Copy, Debug, PartialEq, Eq, Structural)]
pub struct Weight {
    pub ref_time: u64,
    pub proof_size: u64,
}

/// `n`, or the largest `u64` where `n` exceeds it.
pub open spec fn at_most_u64(n: nat) -> nat {
    if n <= u64::MAX {
        n
    } else {
        u64::MAX as nat
    }
}

impl DbWeight {
    /// Calls `sp_weights`'s `RuntimeDbWeight::reads_writes`, as `frame_support` exports it.
    ///
    /// Claimed of it: the time of that many reads and that many writes, each product and their
    /// sum kept within a `u64`; no proof size.
    #[verifier::external_body]
    pub(crate) fn reads_writes(self, reads: u64, writes: u64) -> (weight: Weight)
        ensures
            weight.ref_time as nat == at_most_u64(
                at_most_u64(self.read as nat * reads as nat) + at_most_u64(
                    self.write as nat * writes as nat,
                ),
            ),
            weight.proof_size == 0,
    {
        let weight = frame_support::weights::RuntimeDbWeight { read: self.read, write: self.write }
            .reads_writes(reads, writes);
        Weight { ref_time: weight.ref_time(), proof_size: weight.proof_size() }
    }
}

} // verus!
