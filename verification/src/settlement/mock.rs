//! The bookkeeping of the mock MCR settlement client.
//!
//! The mock settles on the first commitment posted (or overridden) for each height, streams
//! settled commitments unless streaming is paused below their height, and tolerates blocks
//! up to a lead above the highest height posted.
use super::types::BlockCommitment;
use std::collections::BTreeMap;
use vstd::prelude::*;
use vstd::std_specs::cmp::OrdSpec;

verus! {

/// The state of the mock settlement client.
pub struct McrSettlementClient {
    commitments: BTreeMap<u64, BlockCommitment>,
    /// The highest height a commitment was posted for.
    pub current_height: u64,
    /// How far above the current height blocks are tolerated.
    pub block_lead_tolerance: u64,
    paused_at_height: Option<u64>,
}

/// The commitment that settles at a height after `posted` is posted: the one already there,
/// or `posted`.
pub open spec fn spec_settled(commitments: Map<u64, BlockCommitment>, posted: BlockCommitment) -> BlockCommitment {
    if commitments.contains_key(posted.height) {
        commitments[posted.height]
    } else {
        posted
    }
}

/// Whether a commitment at `height` is streamed when streaming is paused as `paused` says.
pub open spec fn spec_streams(paused: Option<u64>, height: u64) -> bool {
    match paused {
        Some(ph) => !(ph < height),
        None => true,
    }
}

/// Streaming paused after a height streams a posted commitment exactly when its height is at
/// most that height, and unpaused streaming streams every commitment. So no posted commitment
/// is held back for good: one that is not streamed when posted lies above the height streaming
/// was paused at, where resuming streams it.
pub proof fn lemma_paused_streams_up_to_height(paused: Option<u64>, height: u64)
    ensures
        paused matches Some(ph) ==> (spec_streams(paused, height) <==> height <= ph),
        paused is None ==> spec_streams(paused, height),
        spec_streams(paused, height) || (paused matches Some(ph) && height > ph),
{
}

/// In an increasing sequence of heights, an earlier height is smaller.
proof fn lemma_earlier_key_smaller(keys: Seq<&u64>, j: int, k: int)
    requires
        vstd::std_specs::btree::increasing_seq(keys),
        0 <= j < k < keys.len(),
    ensures
        *keys[j] < *keys[k],
{
    assert(vstd::laws_cmp::obeys_cmp::<u64>());
    assert(vstd::laws_cmp::obeys_cmp::<&u64>());
    vstd::std_specs::btree::axiom_increasing_seq_meaning(keys);
    assert((&keys[j]).cmp_spec(&keys[k]) is Less);
    assert((*keys[j]).cmp_spec(&*keys[k]) is Less);
}

/// A commitment overridden at a height is the one settled there when a commitment is then
/// posted at that height.
pub proof fn lemma_override_settles(commitments: Map<u64, BlockCommitment>, overriding: BlockCommitment, posted: BlockCommitment)
    requires
        posted.height == overriding.height,
    ensures
        spec_settled(commitments.insert(overriding.height, overriding), posted) == overriding,
{
}

/// The first commitment posted at a height stays the one settled there, whatever is posted
/// at that height later.
pub proof fn lemma_first_post_settles(commitments: Map<u64, BlockCommitment>, first: BlockCommitment, later: BlockCommitment)
    requires
        first.height == later.height,
    ensures
        spec_settled(commitments.insert(first.height, spec_settled(commitments, first)), later) == spec_settled(commitments, first),
{
}

/// The commitments settled on after the commitments `posts` were posted in order, as
/// `post_block_commitment` states each post.
pub open spec fn spec_after_posts(commitments: Map<u64, BlockCommitment>, posts: Seq<BlockCommitment>) -> Map<u64, BlockCommitment>
    decreases posts.len(),
{
    if posts.len() == 0 {
        commitments
    } else {
        let before = spec_after_posts(commitments, posts.drop_last());
        before.insert(posts.last().height, spec_settled(before, posts.last()))
    }
}

/// Once a commitment is settled at its height (posted first there, or overridden before any
/// post there), it stays settled whatever is posted later, and every later post at that
/// height settles on it.
pub proof fn lemma_settled_commitment_stays(commitments: Map<u64, BlockCommitment>, posts: Seq<BlockCommitment>, c: BlockCommitment)
    requires
        commitments.contains_key(c.height),
        commitments[c.height] == c,
    ensures
        spec_after_posts(commitments, posts).contains_key(c.height),
        spec_after_posts(commitments, posts)[c.height] == c,
        forall|k: int| 0 <= k < posts.len() && (#[trigger] posts[k]).height == c.height
            ==> spec_settled(spec_after_posts(commitments, posts.subrange(0, k)), posts[k]) == c,
    decreases posts.len(),
{
    if posts.len() > 0 {
        lemma_settled_commitment_stays(commitments, posts.drop_last(), c);
        assert forall|k: int| 0 <= k < posts.len() && (#[trigger] posts[k]).height == c.height
            implies spec_settled(spec_after_posts(commitments, posts.subrange(0, k)), posts[k]) == c by {
            if k < posts.len() - 1 {
                assert(posts.subrange(0, k) =~= posts.drop_last().subrange(0, k));
                assert(posts.drop_last()[k] == posts[k]);
            } else {
                assert(posts.subrange(0, k) =~= posts.drop_last());
            }
        }
    }
}

impl McrSettlementClient {
    /// The commitments settled on, by height.
    pub closed spec fn commitments(&self) -> Map<u64, BlockCommitment> {
        self.commitments@
    }

    /// Every commitment is settled at its own height.
    pub closed spec fn wf(&self) -> bool {
        forall|k: u64| #[trigger] self.commitments@.contains_key(k) ==> self.commitments@[k].height == k
    }

    /// The highest height a commitment was posted for.
    pub closed spec fn current(&self) -> u64 {
        self.current_height
    }

    /// How far above the current height blocks are tolerated.
    pub closed spec fn lead_tolerance(&self) -> u64 {
        self.block_lead_tolerance
    }

    /// The height above which streaming is paused, if it is.
    pub closed spec fn paused_at(&self) -> Option<u64> {
        self.paused_at_height
    }

    /// A client with nothing settled, at height 0, with a lead tolerance of 16, not paused.
    pub fn new() -> (c: Self)
        ensures
            c.wf(),
            c.commitments() == Map::<u64, BlockCommitment>::empty(),
            c.current() == 0,
            c.lead_tolerance() == 16,
            c.paused_at() is None,
    {
        McrSettlementClient {
            commitments: BTreeMap::new(),
            current_height: 0,
            block_lead_tolerance: 16,
            paused_at_height: None,
        }
    }

    /// Overrides the commitment to settle on at its height; to have effect, it must come before
    /// a commitment is posted for that height.
    pub fn override_block_commitment(&mut self, commitment: BlockCommitment)
        requires
            old(self).wf(),
        ensures
            final(self).wf(),
            final(self).commitments() == old(self).commitments().insert(commitment.height, commitment),
            final(self).current() == old(self).current(),
            final(self).lead_tolerance() == old(self).lead_tolerance(),
            final(self).paused_at() == old(self).paused_at(),
    {
        self.commitments.insert(commitment.height, commitment);
    }

    /// The height above which streaming is paused, if it is.
    pub fn paused_at_height(&self) -> (p: Option<u64>)
        ensures
            p == self.paused_at(),
    {
        self.paused_at_height
    }

    /// Stops streaming commitments above the given height.
    pub fn pause_after(&mut self, height: u64)
        requires
            old(self).wf(),
        ensures
            final(self).wf(),
            final(self).paused_at() == Some(height),
            final(self).commitments() == old(self).commitments(),
            final(self).current() == old(self).current(),
            final(self).lead_tolerance() == old(self).lead_tolerance(),
    {
        self.paused_at_height = Some(height);
    }

    /// Posts a commitment: the first commitment at a height is the one settled on. Returns the
    /// settled commitment to stream, unless streaming is paused below its height. The current
    /// height rises to the posted height.
    pub fn post_block_commitment(&mut self, block_commitment: BlockCommitment) -> (streamed: Option<BlockCommitment>)
        requires
            old(self).wf(),
        ensures
            final(self).wf(),
            final(self).commitments() == old(self).commitments().insert(
                block_commitment.height,
                spec_settled(old(self).commitments(), block_commitment),
            ),
            spec_streams(old(self).paused_at(), block_commitment.height) ==> streamed == Some(spec_settled(old(self).commitments(), block_commitment)),
            !spec_streams(old(self).paused_at(), block_commitment.height) ==> streamed is None,
            (streamed is Some) <==> (old(self).paused_at() matches Some(ph) ==> block_commitment.height <= ph),
            final(self).current() == if block_commitment.height > old(self).current() {
                block_commitment.height
            } else {
                old(self).current()
            },
            final(self).lead_tolerance() == old(self).lead_tolerance(),
            final(self).paused_at() == old(self).paused_at(),
    {
        let height = block_commitment.height;
        let settled = match self.commitments.get(&height) {
            Some(existing) => *existing,
            None => {
                self.commitments.insert(height, block_commitment);
                block_commitment
            },
        };
        proof {
            assert(self.commitments@ =~= old(self).commitments@.insert(height, spec_settled(old(self).commitments@, block_commitment)));
        }
        let streamed = match self.paused_at_height {
            Some(ph) => if ph < height { None } else { Some(settled) },
            None => Some(settled),
        };
        if height > self.current_height {
            self.current_height = height;
        }
        streamed
    }

    /// The commitment settled on at a height.
    pub fn get_commitment_at_height(&self, height: u64) -> (c: Option<BlockCommitment>)
        ensures
            self.commitments().contains_key(height) ==> c == Some(self.commitments()[height]),
            !self.commitments().contains_key(height) ==> c is None,
    {
        match self.commitments.get(&height) {
            Some(c) => Some(*c),
            None => None,
        }
    }

    /// The highest tolerated block height: the current height plus the lead tolerance.
    pub fn get_max_tolerable_block_height(&self) -> (h: u64)
        requires
            self.current() + self.lead_tolerance() <= u64::MAX,
        ensures
            h == self.current() + self.lead_tolerance(),
    {
        self.current_height + self.block_lead_tolerance
    }

    /// Resumes streaming: the commitments settled above the height streaming was paused at, in
    /// ascending order of height, are to be streamed, and streaming is no longer paused.
    pub fn resume(&mut self) -> (to_stream: Vec<BlockCommitment>)
        requires
            old(self).wf(),
            old(self).paused_at() matches Some(ph) && ph < u64::MAX,
        ensures
            final(self).wf(),
            final(self).paused_at() is None,
            final(self).commitments() == old(self).commitments(),
            final(self).current() == old(self).current(),
            final(self).lead_tolerance() == old(self).lead_tolerance(),
            forall|i: int| 0 <= i < to_stream@.len() ==> {
                let c = #[trigger] to_stream@[i];
                &&& c.height > old(self).paused_at()->0
                &&& old(self).commitments().contains_key(c.height)
                &&& old(self).commitments()[c.height] == c
            },
            forall|k: u64| old(self).commitments().contains_key(k) && k > old(self).paused_at()->0
                ==> exists|i: int| 0 <= i < to_stream@.len() && #[trigger] to_stream@[i].height == k,
            forall|i: int, j: int| 0 <= i < j < to_stream@.len() ==> to_stream@[i].height < to_stream@[j].height,
    {
        let resume_height = match self.paused_at_height {
            Some(ph) => ph,
            None => 0,
        };
        self.paused_at_height = None;
        let mut out: Vec<BlockCommitment> = Vec::new();
        for k in it: self.commitments.keys()
            invariant
                self.wf(),
                it.seq().unref().to_set() == self.commitments@.dom(),
                it.seq().len() == self.commitments@.dom().len(),
                vstd::std_specs::btree::increasing_seq(it.seq()),
                forall|i: int| 0 <= i < out@.len() ==> {
                    let c = #[trigger] out@[i];
                    &&& c.height > resume_height
                    &&& self.commitments@.contains_key(c.height)
                    &&& self.commitments@[c.height] == c
                    &&& exists|j: int| 0 <= j < it.index() && *it.seq()[j] == c.height
                },
                forall|j: int| 0 <= j < it.index() && *it.seq()[j] > resume_height
                    ==> exists|i: int| 0 <= i < out@.len() && #[trigger] out@[i].height == *it.seq()[j],
                forall|i: int, j: int| 0 <= i < j < out@.len() ==> out@[i].height < out@[j].height,
        {
            let ghost idx = it.index();
            let ghost keys = it.seq();
            let ghost out_before = out@;
            proof {
                assert(keys.unref()[idx] == *k);
                assert(keys.unref().to_set().contains(*k));
                assert forall|i: int| 0 <= i < out_before.len() implies (#[trigger] out_before[i]).height < *k by {
                    let j = choose|j: int| 0 <= j < idx && *keys[j] == out_before[i].height;
                    lemma_earlier_key_smaller(keys, j, idx);
                }
            }
            if *k > resume_height {
                match self.commitments.get(k) {
                    Some(c) => {
                        out.push(*c);
                        proof {
                            assert(out@[out_before.len() as int] == *c);
                            assert(*keys[idx] == c.height);
                        }
                    },
                    None => {},
                }
            }
            proof {
                assert forall|i: int| 0 <= i < out@.len() implies exists|j: int| 0 <= j < idx + 1 && *keys[j] == (#[trigger] out@[i]).height by {
                    if i < out_before.len() {
                        assert(out@[i] == out_before[i]);
                        let j = choose|j: int| 0 <= j < idx && *keys[j] == out_before[i].height;
                    } else {
                        assert(*keys[idx] == out@[i].height);
                    }
                }
                assert forall|j: int| 0 <= j < idx + 1 && *keys[j] > resume_height implies exists|i: int| 0 <= i < out@.len() && #[trigger] out@[i].height == *keys[j] by {
                    if j < idx {
                        let i = choose|i: int| 0 <= i < out_before.len() && #[trigger] out_before[i].height == *keys[j];
                        assert(out@[i] == out_before[i]);
                    } else {
                        assert(out@[out_before.len() as int].height == *keys[j]);
                    }
                }
            }
        }
        out
    }
}

} // verus!
