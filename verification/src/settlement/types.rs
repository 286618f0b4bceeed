//! Block commitments and the events of their settlement.
use vstd::prelude::*;

verus! {

/// The commitment to a block's state.
#[derive(Debug, Clone, Copy)]
pub struct Commitment(pub [u8; 32]);

/// The id of a block.
#[derive(Debug, Clone, Copy)]
pub struct Id(pub [u8; 32]);

/// A commitment to the block at a height.
#[derive(Debug, Clone, Copy)]
pub struct BlockCommitment {
    pub height: u64,
    pub block_id: Id,
    pub commitment: Commitment,
}

/// Why a block commitment was rejected.
#[derive(Debug, Clone, Copy, PartialEq, Eq, Structural)]
pub enum BlockCommitmentRejectionReason {
    InvalidBlockId,
    InvalidCommitment,
    InvalidHeight,
    ContractError,
}

/// What became of a posted block commitment.
#[derive(Debug, Clone, Copy)]
pub enum BlockCommitmentEvent {
    Accepted(BlockCommitment),
    Rejected { height: u64, reason: BlockCommitmentRejectionReason },
}

impl Commitment {
    /// The bytes of the commitment.
    pub open spec fn bytes(self) -> Seq<u8> {
        self.0@
    }

    /// A commitment to the given bytes.
    pub fn new(bytes: [u8; 32]) -> (c: Commitment)
        ensures
            c.bytes() == bytes@,
    {
        Commitment(bytes)
    }

    /// Whether two commitments hold the same bytes.
    pub fn same_as(&self, other: &Commitment) -> (b: bool)
        ensures
            b == (self.bytes() == other.bytes()),
    {
        let mut i: usize = 0;
        while i < 32
            invariant
                0 <= i <= 32,
                self.0@.len() == 32,
                other.0@.len() == 32,
                forall|j: int| 0 <= j < i ==> self.0@[j] == other.0@[j],
            decreases 32 - i,
        {
            if self.0[i] != other.0[i] {
                return false;
            }
            i = i + 1;
        }
        assert(self.0@ =~= other.0@);
        true
    }
}

impl BlockCommitment {
    /// A commitment to the block with the given id at the given height.
    pub fn new(height: u64, block_id: Id, commitment: Commitment) -> (b: BlockCommitment)
        ensures
            b.height == height,
            b.block_id == block_id,
            b.commitment == commitment,
    {
        BlockCommitment { height, block_id, commitment }
    }

    /// The height of the committed block.
    pub fn height(&self) -> (h: u64)
        ensures
            h == self.height,
    {
        self.height
    }
}

} // verus!
