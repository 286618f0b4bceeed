//! The storage that syncing pushes to and pulls from.
use vstd::prelude::*;

verus! {

/// Where files are synced to.
#[derive(Debug, Clone)]
pub enum Target {
    /// An S3 bucket, by name.
    S3(String),
}

impl Target {
    /// The name of the bucket the target syncs with.
    pub fn bucket(&self) -> (b: &String)
        ensures
            *self == Target::S3(*b),
    {
        match self {
            Target::S3(bucket) => bucket,
        }
    }
}

} // verus!
