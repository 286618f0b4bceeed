//! The storage that syncing pushes to and pulls from.
use vstd::prelude::*;

verus! {

/// Where files are synced to.
#[derive(Debug, Clone)]
pub enum Target {
    /// An S3 bucket, by name.
    S3(String),
}

impl Target {
    /// The name of the bucket the target syncs with.
    pub fn bucket(&self) -> (b: &String)
        ensures
            *self == Target::S3(*b),
    {
        match self {
            Target::S3(bucket) => bucket,
        }
    }
}

/// Whether syncing up pulls the target's files once before pushing: only a follower does;
/// the leader's files are the ones pushed.
pub fn pulls_first(is_leader: bool) -> (b: bool)
    ensures
        b == !is_leader,
{
    !is_leader
}

/// Whether syncing up pushes the files at each sync epoch: only the leader does, so that
/// followers do not push competing forks.
pub fn pushes_on_tick(is_leader: bool) -> (b: bool)
    ensures
        b == is_leader,
{
    is_leader
}

} // verus!
