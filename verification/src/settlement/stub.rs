//! The bookkeeping of the stub MCR settlement client: the last commitment posted at a height is
//! the one kept, and every posted commitment is streamed.
use super::types::BlockCommitment;
use std::collections::HashMap;
use vstd::prelude::*;

verus! {

/// The state of the stub settlement client.
pub struct McrSettlementClient {
    commitments: HashMap<u64, BlockCommitment>,
    /// The highest height a commitment was posted for.
    pub current_height: u64,
    /// How far above the current height blocks are tolerated.
    pub block_lead_tolerance: u64,
}

impl McrSettlementClient {
    /// The commitments kept, by height.
    pub closed spec fn commitments(&self) -> Map<u64, BlockCommitment> {
        self.commitments@
    }

    /// The highest height a commitment was posted for.
    pub closed spec fn current(&self) -> u64 {
        self.current_height
    }

    /// How far above the current height blocks are tolerated.
    pub closed spec fn lead_tolerance(&self) -> u64 {
        self.block_lead_tolerance
    }

    /// A client with nothing kept, at height 0, with a lead tolerance of 16.
    pub fn new() -> (c: Self)
        ensures
            c.commitments() == Map::<u64, BlockCommitment>::empty(),
            c.current() == 0,
            c.lead_tolerance() == 16,
    {
        McrSettlementClient { commitments: HashMap::new(), current_height: 0, block_lead_tolerance: 16 }
    }

    /// Posts a commitment: it is kept at its height, in place of any earlier one, and streamed.
    /// The current height rises to the posted height.
    pub fn post_block_commitment(&mut self, block_commitment: BlockCommitment) -> (streamed: BlockCommitment)
        ensures
            final(self).commitments() == old(self).commitments().insert(block_commitment.height, block_commitment),
            streamed == block_commitment,
            final(self).current() == if block_commitment.height > old(self).current() {
                block_commitment.height
            } else {
                old(self).current()
            },
            final(self).lead_tolerance() == old(self).lead_tolerance(),
    {
        let height = block_commitment.height;
        self.commitments.insert(height, block_commitment);
        if height > self.current_height {
            self.current_height = height;
        }
        block_commitment
    }

    /// The commitment kept at a height.
    pub fn get_commitment_at_height(&self, height: u64) -> (c: Option<BlockCommitment>)
        ensures
            self.commitments().contains_key(height) ==> c == Some(self.commitments()[height]),
            !self.commitments().contains_key(height) ==> c is None,
    {
        match self.commitments.get(&height) {
            Some(c) => Some(*c),
            None => None,
        }
    }

    /// The highest tolerated block height: the current height plus the lead tolerance.
    pub fn get_max_tolerable_block_height(&self) -> (h: u64)
        requires
            self.current() + self.lead_tolerance() <= u64::MAX,
        ensures
            h == self.current() + self.lead_tolerance(),
    {
        self.current_height + self.block_lead_tolerance
    }
}

} // verus!
