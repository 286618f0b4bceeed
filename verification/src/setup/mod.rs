//! Setup strategies of the MCR settlement: running a local Anvil node, deploying contracts,
//! and what they write into the configuration.
pub mod local;
pub mod deploy;
pub mod deploy_remote;
pub mod anvil_local;
pub mod forge;

use vstd::prelude::*;

verus! {

/// The setup of the MCR settlement: the local strategy and the deployment strategy.
#[derive(Debug, Clone)]
pub struct Setup {
    pub local: local::Local,
    pub deploy: deploy::Deploy,
}

impl Setup {
    /// The setup with a new local strategy and a new deployment strategy.
    pub fn new() -> (s: Self) {
        Setup { local: local::Local::new(), deploy: deploy::Deploy::new() }
    }
}

} // verus!
