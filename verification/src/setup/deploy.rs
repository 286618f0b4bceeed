//! The deployment setup strategy.
use vstd::prelude::*;

verus! {

/// The deployment setup strategy for MCR settlement; it leaves the configuration as it is.
#[derive(Debug, Clone)]
pub struct Deploy {}

impl Deploy {
    /// Instantiates the deployment setup strategy.
    pub fn new() -> (d: Self) {
        Deploy {}
    }
}

} // verus!
