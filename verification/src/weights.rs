//! The cost of calls, in computation time and proof size.

use vstd::prelude::*;

verus! {

/// The cost of a call: computation time in picoseconds and the size of the
/// storage proof in bytes. It holds the two parts of a
/// `frame_support::weights::Weight` as plain values.
#[derive(Clone, Copy, Debug, PartialEq, Eq, Structural)]
pub struct Weight {
    pub ref_time: u64,
    pub proof_size: u64,
}

/// The sum of two costs, held at `u64::MAX` where it would exceed it.
pub open spec fn saturating_sum(a: u64, b: u64) -> u64 {
    if a + b > u64::MAX {
        u64::MAX
    } else {
        (a + b) as u64
    }
}

/// The product of a cost and a count, held at `u64::MAX` where it would
/// exceed it.
pub open spec fn saturating_product(cost: u64, count: u64) -> u64 {
    if cost * count > u64::MAX {
        u64::MAX
    } else {
        (cost * count) as u64
    }
}

/// Calls `Weight::saturating_add` of `frame_support::weights` on the two
/// weights. Trusted: the result's time is the saturating sum of the two
/// times, and its proof size the saturating sum of the two proof sizes.
#[verifier::external_body]
fn weight_sum(a: Weight, b: Weight) -> (w: Weight)
    ensures
        w == a.plus(b),
{
    let lhs = frame_support::weights::Weight::from_parts(a.ref_time, a.proof_size);
    let rhs = frame_support::weights::Weight::from_parts(b.ref_time, b.proof_size);
    let sum = lhs.saturating_add(rhs);
    Weight { ref_time: sum.ref_time(), proof_size: sum.proof_size() }
}

/// Calls `RuntimeDbWeight::reads` of `frame_support::weights` on the given
/// database costs. Trusted: the result's time is the saturating product of
/// the cost of one read and the number of reads, and its proof size is zero.
#[verifier::external_body]
fn reads_weight(read: u64, write: u64, count: u64) -> (w: Weight)
    ensures
        w == (Weight { ref_time: saturating_product(read, count), proof_size: 0 }),
{
    let w = frame_support::weights::RuntimeDbWeight { read, write }.reads(count);
    Weight { ref_time: w.ref_time(), proof_size: w.proof_size() }
}

/// Calls `RuntimeDbWeight::writes` of `frame_support::weights` on the given
/// database costs. Trusted: the result's time is the saturating product of
/// the cost of one write and the number of writes, and its proof size is
/// zero.
#[verifier::external_body]
fn writes_weight(read: u64, write: u64, count: u64) -> (w: Weight)
    ensures
        w == (Weight { ref_time: saturating_product(write, count), proof_size: 0 }),
{
    let w = frame_support::weights::RuntimeDbWeight { read, write }.writes(count);
    Weight { ref_time: w.ref_time(), proof_size: w.proof_size() }
}

impl Weight {
    /// A weight of the given time and proof size.
    pub fn from_parts(ref_time: u64, proof_size: u64) -> (w: Weight)
        ensures
            w == (Weight { ref_time, proof_size }),
    {
        Weight { ref_time, proof_size }
    }

    /// The sum of two weights, each component saturating.
    pub open spec fn plus(self, rhs: Weight) -> Weight {
        Weight {
            ref_time: saturating_sum(self.ref_time, rhs.ref_time),
            proof_size: saturating_sum(self.proof_size, rhs.proof_size),
        }
    }

    /// The sum of two weights, each component saturating.
    pub fn saturating_add(self, rhs: Weight) -> (w: Weight)
        ensures
            w == self.plus(rhs),
    {
        weight_sum(self, rhs)
    }
}

/// Weights measured on the recommended hardware, over the time that one
/// database read and one database write cost on the running node.
#[derive(Clone, Copy, Debug, PartialEq, Eq, Structural)]
pub struct SubstrateWeight {
    pub read: u64,
    pub write: u64,
}

impl SubstrateWeight {
    /// The weight of `count` database reads.
    pub fn reads(&self, count: u64) -> (w: Weight)
        ensures
            w == (Weight { ref_time: saturating_product(self.read, count), proof_size: 0 }),
    {
        reads_weight(self.read, self.write, count)
    }

    /// The weight of `count` database writes.
    pub fn writes(&self, count: u64) -> (w: Weight)
        ensures
            w == (Weight { ref_time: saturating_product(self.write, count), proof_size: 0 }),
    {
        writes_weight(self.read, self.write, count)
    }

    /// The weight of a call that writes one value: its measured time and
    /// one write.
    pub open spec fn hello_weight(self) -> Weight {
        (Weight { ref_time: 9_000_000, proof_size: 0 }).plus(
            Weight { ref_time: self.write, proof_size: 0 },
        )
    }

    /// The weight of a call that reads and writes one value.
    pub open spec fn any_weight(self) -> Weight {
        (Weight { ref_time: 6_000_000, proof_size: 1489 }).plus(
            Weight { ref_time: self.read, proof_size: 0 },
        ).plus(Weight { ref_time: self.write, proof_size: 0 })
    }

    /// The weight of a call that writes one value.
    pub fn say_hello(&self) -> (w: Weight)
        ensures
            w == self.hello_weight(),
    {
        Weight::from_parts(9_000_000, 0).saturating_add(self.writes(1))
    }

    /// The weight of a call that reads and writes one value.
    pub fn say_any(&self) -> (w: Weight)
        ensures
            w == self.any_weight(),
    {
        Weight::from_parts(6_000_000, 1489).saturating_add(self.reads(1)).saturating_add(
            self.writes(1),
        )
    }
}

} // verus!
