//! The decisions of the MCR settlement manager.
//!
//! The manager takes block commitments from the node, posts them in batches to the
//! settlement client, and matches the commitments that the settlement reports as settled
//! against the ones it posted. It stops taking commitments once it is ahead of the maximum
//! height that the settlement tolerates (back-pressure), and resumes when that height grows.
//!
//! The manager's loop awaits the node and the client in turn, so its decisions stand here as
//! transitions of [SettlementState]; the loop that awaits feeds the events in.
use super::types::{BlockCommitment, BlockCommitmentEvent, BlockCommitmentRejectionReason, Commitment};
use std::collections::BTreeMap;
use vstd::prelude::*;

verus! {

/// The state of the settlement manager between events.
pub struct SettlementState {
    max_height: u64,
    ahead_of_settlement: bool,
    commitments_to_settle: BTreeMap<u64, Commitment>,
    batch_acc: Vec<BlockCommitment>,
}

/// What the manager does after the settlement reported a settled commitment.
pub struct SettlementReply {
    /// The event to report, if the height was posted by this manager.
    pub event: Option<BlockCommitmentEvent>,
    /// Whether settlement has gone past every height still waiting to be settled.
    pub fell_behind: bool,
    /// Whether the maximum tolerable height must be asked for again.
    pub check_max_height: bool,
}

/// Whether every height in `pending` lies below `height`, there being at least one.
pub open spec fn all_pending_below(pending: Map<u64, Commitment>, height: u64) -> bool {
    &&& !pending.dom().is_empty()
    &&& forall|k: u64| pending.dom().contains(k) ==> k < height
}

/// The event for a settled commitment at a height this manager posted `posted` for.
pub open spec fn spec_settled_event(posted: Commitment, settled: BlockCommitment) -> BlockCommitmentEvent {
    if posted.bytes() == settled.commitment.bytes() {
        BlockCommitmentEvent::Accepted(settled)
    } else {
        BlockCommitmentEvent::Rejected {
            height: settled.height,
            reason: BlockCommitmentRejectionReason::InvalidCommitment,
        }
    }
}

/// The highest height in the map.
///
/// Calls `BTreeMap::last_key_value`, which returns the last key-value pair of the map, if
/// any; its key is the maximum key in the map. The contract states that of the key.
#[verifier::external_body]
fn last_pending_height(m: &BTreeMap<u64, Commitment>) -> (r: Option<u64>)
    ensures
        r is None <==> m@.dom().is_empty(),
        r matches Some(k) ==> m@.contains_key(k) && forall|j: u64| m@.contains_key(j) ==> j <= k,
{
    m.last_key_value().map(|(k, _)| *k)
}

/// Taking a commitment when the maximum tolerable height is `max_height` and `batch` was taken
/// since the last post: the batch to post, if the commitment goes past that height, and the
/// batch held afterwards.
pub open spec fn spec_take_commitment(max_height: u64, batch: Seq<BlockCommitment>, block_commitment: BlockCommitment) -> (Option<Seq<BlockCommitment>>, Seq<BlockCommitment>) {
    if block_commitment.height > max_height {
        (Some(batch), seq![block_commitment])
    } else {
        (None, batch.push(block_commitment))
    }
}

/// Taking the commitments `taken` in order, the `i`-th when the maximum tolerable height is
/// `max_heights[i]`, starting with `batch` held: the commitments of all batches posted, in
/// order, and the batch held at the end.
pub open spec fn spec_take_all(max_heights: Seq<u64>, batch: Seq<BlockCommitment>, taken: Seq<BlockCommitment>) -> (Seq<BlockCommitment>, Seq<BlockCommitment>)
    decreases taken.len(),
{
    if taken.len() == 0 || max_heights.len() == 0 {
        (Seq::empty(), batch)
    } else {
        let step = spec_take_commitment(max_heights[0], batch, taken[0]);
        let rest = spec_take_all(max_heights.drop_first(), step.1, taken.drop_first());
        let posted = match step.0 {
            Some(b) => b,
            None => Seq::empty(),
        };
        (posted + rest.0, rest.1)
    }
}

/// No commitment is lost or posted twice: the batches posted, followed by the batch held,
/// are the batch held at first followed by the commitments taken, in order.
pub proof fn lemma_batches_keep_every_commitment(max_heights: Seq<u64>, batch: Seq<BlockCommitment>, taken: Seq<BlockCommitment>)
    requires
        max_heights.len() == taken.len(),
    ensures
        spec_take_all(max_heights, batch, taken).0 + spec_take_all(max_heights, batch, taken).1 == batch + taken,
    decreases taken.len(),
{
    if taken.len() > 0 {
        let step = spec_take_commitment(max_heights[0], batch, taken[0]);
        lemma_batches_keep_every_commitment(max_heights.drop_first(), step.1, taken.drop_first());
        assert(taken =~= seq![taken[0]] + taken.drop_first());
        let rest = spec_take_all(max_heights.drop_first(), step.1, taken.drop_first());
        if taken[0].height > max_heights[0] {
            assert(batch + rest.0 + rest.1 =~= batch + (seq![taken[0]] + taken.drop_first()));
        } else {
            assert(Seq::<BlockCommitment>::empty() + rest.0 + rest.1 =~= batch.push(taken[0]) + taken.drop_first());
        }
    } else {
        assert(batch + taken =~= batch);
    }
}

/// A commitment taken by the manager and then settled at its height is accepted when the
/// settled commitment is the one taken, and rejected as an invalid commitment otherwise.
pub proof fn lemma_settled_commitment_event(pending: Map<u64, Commitment>, taken: BlockCommitment, settled: BlockCommitment)
    requires
        settled.height == taken.height,
    ensures
        pending.insert(taken.height, taken.commitment).contains_key(settled.height),
        spec_settled_event(pending.insert(taken.height, taken.commitment)[settled.height], settled) == if taken.commitment.bytes() == settled.commitment.bytes() {
            BlockCommitmentEvent::Accepted(settled)
        } else {
            BlockCommitmentEvent::Rejected { height: taken.height, reason: BlockCommitmentRejectionReason::InvalidCommitment }
        },
{
}

/// The height an event is about.
pub open spec fn event_height(e: BlockCommitmentEvent) -> u64 {
    match e {
        BlockCommitmentEvent::Accepted(c) => c.height,
        BlockCommitmentEvent::Rejected { height, .. } => height,
    }
}

/// The commitments still waiting and the events reported, after the settlement reported the
/// commitments `settled` in order, as `on_settled` states each report.
pub open spec fn spec_settle_all(pending: Map<u64, Commitment>, settled: Seq<BlockCommitment>) -> (Map<u64, Commitment>, Seq<BlockCommitmentEvent>)
    decreases settled.len(),
{
    if settled.len() == 0 {
        (pending, Seq::empty())
    } else {
        let before = spec_settle_all(pending, settled.drop_last());
        let s = settled.last();
        if before.0.contains_key(s.height) {
            (before.0.remove(s.height), before.1.push(spec_settled_event(before.0[s.height], s)))
        } else {
            before
        }
    }
}

/// However the settlement reports commitments, each height waiting to be settled gets at most
/// one event, about the commitment taken for it and one the settlement reported at that
/// height; once it has its event, the height no longer waits, and the heights still waiting
/// wait with the commitment taken for them.
pub proof fn lemma_one_event_per_pending_height(pending: Map<u64, Commitment>, settled: Seq<BlockCommitment>)
    ensures
        forall|i: int, j: int| 0 <= i < j < spec_settle_all(pending, settled).1.len()
            ==> event_height(#[trigger] spec_settle_all(pending, settled).1[i]) != event_height(#[trigger] spec_settle_all(pending, settled).1[j]),
        forall|i: int| 0 <= i < spec_settle_all(pending, settled).1.len() ==> {
            let h = event_height(#[trigger] spec_settle_all(pending, settled).1[i]);
            &&& pending.contains_key(h)
            &&& !spec_settle_all(pending, settled).0.contains_key(h)
            &&& exists|k: int| 0 <= k < settled.len() && (#[trigger] settled[k]).height == h
                && spec_settle_all(pending, settled).1[i] == spec_settled_event(pending[h], settled[k])
        },
        forall|h: u64| #[trigger] spec_settle_all(pending, settled).0.contains_key(h)
            ==> pending.contains_key(h) && spec_settle_all(pending, settled).0[h] == pending[h],
    decreases settled.len(),
{
    if settled.len() > 0 {
        let init = settled.drop_last();
        lemma_one_event_per_pending_height(pending, init);
        let before = spec_settle_all(pending, init);
        let after = spec_settle_all(pending, settled);
        let s = settled.last();
        assert forall|k: int| 0 <= k < init.len() implies #[trigger] init[k] == settled[k] by {}
        if before.0.contains_key(s.height) {
            let n = before.1.len() as int;
            assert(after.1[n] == spec_settled_event(before.0[s.height], s));
            assert(event_height(after.1[n]) == s.height);
            assert forall|i: int| 0 <= i < after.1.len() implies {
                let h = event_height(#[trigger] after.1[i]);
                &&& pending.contains_key(h)
                &&& !after.0.contains_key(h)
                &&& exists|k: int| 0 <= k < settled.len() && (#[trigger] settled[k]).height == h
                    && after.1[i] == spec_settled_event(pending[h], settled[k])
            } by {
                if i < n {
                    assert(after.1[i] == before.1[i]);
                    let h = event_height(after.1[i]);
                    let k = choose|k: int| 0 <= k < init.len() && (#[trigger] init[k]).height == h
                        && before.1[i] == spec_settled_event(pending[h], init[k]);
                    assert(settled[k] == init[k]);
                } else {
                    assert(settled[settled.len() - 1] == s);
                }
            }
            assert forall|i: int, j: int| 0 <= i < j < after.1.len()
                implies event_height(#[trigger] after.1[i]) != event_height(#[trigger] after.1[j]) by {
                if j < n {
                    assert(after.1[i] == before.1[i]);
                    assert(after.1[j] == before.1[j]);
                } else {
                    assert(after.1[i] == before.1[i]);
                }
            }
        } else {
            assert forall|i: int| 0 <= i < after.1.len() implies {
                let h = event_height(#[trigger] after.1[i]);
                &&& pending.contains_key(h)
                &&& !after.0.contains_key(h)
                &&& exists|k: int| 0 <= k < settled.len() && (#[trigger] settled[k]).height == h
                    && after.1[i] == spec_settled_event(pending[h], settled[k])
            } by {
                let h = event_height(after.1[i]);
                let k = choose|k: int| 0 <= k < init.len() && (#[trigger] init[k]).height == h
                    && before.1[i] == spec_settled_event(pending[h], init[k]);
                assert(settled[k] == init[k]);
            }
        }
    }
}

impl SettlementState {
    /// The maximum block height that the settlement tolerates.
    pub closed spec fn max_height(&self) -> u64 {
        self.max_height
    }

    /// Whether the manager is ahead of settlement and takes no new commitments.
    pub closed spec fn ahead(&self) -> bool {
        self.ahead_of_settlement
    }

    /// The commitments posted and not yet settled, by height.
    pub closed spec fn pending(&self) -> Map<u64, Commitment> {
        self.commitments_to_settle@
    }

    /// The commitments taken since the last batch was posted, in order.
    pub closed spec fn batch(&self) -> Seq<BlockCommitment> {
        self.batch_acc@
    }

    /// The state before any commitment, given the maximum tolerable height at start.
    pub fn new(max_height: u64) -> (s: Self)
        ensures
            s.max_height() == max_height,
            !s.ahead(),
            s.pending() == Map::<u64, Commitment>::empty(),
            s.batch() == Seq::<BlockCommitment>::empty(),
    {
        SettlementState {
            max_height,
            ahead_of_settlement: false,
            commitments_to_settle: BTreeMap::new(),
            batch_acc: Vec::new(),
        }
    }

    /// Whether the manager takes new commitments from the node.
    pub fn accepts_commitments(&self) -> (b: bool)
        ensures
            b == !self.ahead(),
    {
        !self.ahead_of_settlement
    }

    /// Takes a block commitment from the node. It waits to be settled at its height. When it
    /// goes past the maximum tolerable height, the manager becomes ahead of settlement and the
    /// batch taken so far is handed out to be posted; the commitment starts the next batch.
    pub fn on_commitment(&mut self, block_commitment: BlockCommitment) -> (posted: Option<Vec<BlockCommitment>>)
        requires
            !old(self).ahead(),
        ensures
            final(self).pending() == old(self).pending().insert(block_commitment.height, block_commitment.commitment),
            final(self).max_height() == old(self).max_height(),
            final(self).ahead() == (block_commitment.height > old(self).max_height()),
            final(self).batch() == spec_take_commitment(old(self).max_height(), old(self).batch(), block_commitment).1,
            match spec_take_commitment(old(self).max_height(), old(self).batch(), block_commitment).0 {
                Some(batch) => posted matches Some(p) && p@ == batch,
                None => posted is None,
            },
    {
        self.commitments_to_settle.insert(block_commitment.height, block_commitment.commitment);
        let mut posted = None;
        if block_commitment.height > self.max_height {
            self.ahead_of_settlement = true;
            let mut batch: Vec<BlockCommitment> = Vec::new();
            core::mem::swap(&mut batch, &mut self.batch_acc);
            posted = Some(batch);
        }
        self.batch_acc.push(block_commitment);
        posted
    }

    /// Takes a commitment that the settlement reports as settled. If this manager posted one at
    /// that height, it is no longer waiting, and it is accepted when the settled commitment is
    /// the posted one and rejected as invalid otherwise. If not, the manager reports whether
    /// settlement went past every height still waiting. While ahead of settlement, the manager
    /// asks for the maximum tolerable height again.
    pub fn on_settled(&mut self, settled: BlockCommitment) -> (reply: SettlementReply)
        ensures
            final(self).max_height() == old(self).max_height(),
            final(self).ahead() == old(self).ahead(),
            final(self).batch() == old(self).batch(),
            reply.check_max_height == old(self).ahead(),
            old(self).pending().contains_key(settled.height) ==> {
                &&& final(self).pending() == old(self).pending().remove(settled.height)
                &&& reply.event == Some(spec_settled_event(old(self).pending()[settled.height], settled))
                &&& !reply.fell_behind
            },
            !old(self).pending().contains_key(settled.height) ==> {
                &&& final(self).pending() == old(self).pending()
                &&& reply.event is None
                &&& reply.fell_behind == all_pending_below(old(self).pending(), settled.height)
            },
    {
        let height = settled.height;
        let removed = self.commitments_to_settle.remove(&height);
        let mut event = None;
        let mut fell_behind = false;
        match removed {
            Some(commitment) => {
                if commitment.same_as(&settled.commitment) {
                    event = Some(BlockCommitmentEvent::Accepted(settled));
                } else {
                    event = Some(BlockCommitmentEvent::Rejected {
                        height,
                        reason: BlockCommitmentRejectionReason::InvalidCommitment,
                    });
                }
            },
            None => {
                assert(self.commitments_to_settle@ =~= old(self).commitments_to_settle@);
                fell_behind = match last_pending_height(&self.commitments_to_settle) {
                    Some(last) => last < height,
                    None => false,
                };
            },
        }
        SettlementReply { event, fell_behind, check_max_height: self.ahead_of_settlement }
    }

    /// Takes the maximum tolerable height that the settlement reports. When it grew, the
    /// manager takes it and is no longer ahead of settlement.
    pub fn on_max_height(&mut self, new_max_height: u64)
        ensures
            new_max_height > old(self).max_height() ==> final(self).max_height() == new_max_height && !final(self).ahead(),
            new_max_height <= old(self).max_height() ==> final(self).max_height() == old(self).max_height() && final(self).ahead() == old(self).ahead(),
            final(self).pending() == old(self).pending(),
            final(self).batch() == old(self).batch(),
    {
        if new_max_height > self.max_height {
            self.max_height = new_max_height;
            self.ahead_of_settlement = false;
        }
    }
}

} // verus!
