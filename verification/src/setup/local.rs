//! The local setup strategy: runs an Anvil node and gives its accounts to the configuration.
use crate::settlement::anvil::AnvilAddressEntry;
use crate::settlement::config::Config;
use vstd::prelude::*;

verus! {

/// The chain id of the local Anvil node.
pub const LOCAL_CHAIN_ID: u64 = 3073u64;

/// How many times the setup checks, 100 ms apart, that Anvil has written its configuration.
pub const ANVIL_START_CHECKS: u32 = 100u32;

/// Errors of the setup strategies.
#[derive(Debug, Clone, Copy, PartialEq, Eq, Structural)]
pub enum SetupError {
    /// Anvil gave no account.
    NoAnvilAddress,
    /// Anvil did not start in time.
    AnvilDidNotStart,
}

/// The local setup strategy for MCR settlement.
#[derive(Debug, Clone)]
pub struct Local {}

impl Local {
    /// Instantiates the local setup strategy.
    pub fn new() -> (l: Self) {
        Local {}
    }

    /// Points the configuration at the local chain.
    pub fn use_local_chain(config: &mut Config)
        ensures
            final(config).eth_connection.eth_chain_id == LOCAL_CHAIN_ID,
            final(config).eth_connection.eth_rpc_connection_port == old(config).eth_connection.eth_rpc_connection_port,
            final(config).deploy == old(config).deploy,
            final(config).testing == old(config).testing,
    {
        config.eth_connection.eth_chain_id = LOCAL_CHAIN_ID;
    }

    /// Whether waiting for Anvil has run out, after `checks` checks.
    pub fn anvil_wait_exhausted(checks: u32) -> (b: bool)
        ensures
            b == (checks > ANVIL_START_CHECKS),
    {
        checks > ANVIL_START_CHECKS
    }

    /// Gives the Anvil accounts to the configuration: the first account deploys the contracts,
    /// when deployment is configured, and every account is a well-known testing account, when
    /// testing is configured, in place of any earlier ones.
    pub fn apply_anvil_accounts(config: &mut Config, addresses: &Vec<AnvilAddressEntry>) -> (r: Result<(), SetupError>)
        ensures
            (old(config).deploy is Some && addresses@.len() == 0) ==> r == Err::<(), SetupError>(SetupError::NoAnvilAddress) && *final(config) == *old(config),
            !(old(config).deploy is Some && addresses@.len() == 0) ==> {
                &&& r is Ok
                &&& final(config).eth_connection == old(config).eth_connection
                &&& final(config).settle == old(config).settle
                &&& final(config).transactions == old(config).transactions
                &&& final(config).deploy is Some == old(config).deploy is Some
                &&& old(config).deploy matches Some(d) ==> final(config).deploy matches Some(fd)
                    && fd.mcr_deployment_account_private_key == addresses@[0].private_key
                    && fd.mcr_deployment_working_directory == d.mcr_deployment_working_directory
                &&& final(config).testing is Some == old(config).testing is Some
                &&& old(config).testing matches Some(t) ==> final(config).testing matches Some(ft)
                    && ft.well_known_account_private_keys@.len() == addresses@.len()
                    && (forall|i: int| 0 <= i < addresses@.len() ==> #[trigger] ft.well_known_account_private_keys@[i] == addresses@[i].private_key)
                    && ft.move_token_contract_address == t.move_token_contract_address
                    && ft.movement_staking_contract_address == t.movement_staking_contract_address
            },
    {
        if config.deploy.is_some() && addresses.len() == 0 {
            return Err(SetupError::NoAnvilAddress);
        }
        if let Some(deploy) = &mut config.deploy {
            deploy.mcr_deployment_account_private_key = addresses[0].private_key.clone();
        }
        if let Some(testing) = &mut config.testing {
            let mut keys: Vec<String> = Vec::new();
            let mut i: usize = 0;
            while i < addresses.len()
                invariant
                    0 <= i <= addresses@.len(),
                    keys@.len() == i,
                    forall|j: int| 0 <= j < i ==> #[trigger] keys@[j] == addresses@[j].private_key,
                decreases addresses@.len() - i,
            {
                keys.push(addresses[i].private_key.clone());
                i = i + 1;
            }
            testing.well_known_account_private_keys = keys;
        }
        Ok(())
    }
}

} // verus!
