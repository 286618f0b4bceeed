//! The local setup strategy with ports on localhost for the Ethereum RPC and WebSocket clients.
use crate::settlement::anvil::AnvilAddressEntry;
use crate::settlement::config::{connection_url, spec_url};
use crate::setup::deploy_remote::{contract_at, DeployError, DeploymentSummary};
use rand::Rng;
use vstd::prelude::*;

verus! {

/// The default port of the local Ethereum RPC.
pub const DEFAULT_ETH_RPC_PORT: u16 = 8545u16;
/// The default port of the local Ethereum WebSocket.
pub const DEFAULT_ETH_WS_PORT: u16 = 8545u16;
/// The smallest chain id of a local Anvil chain.
pub const MIN_LOCAL_CHAIN_ID: u16 = 100u16;
/// The bound above the chain ids of local Anvil chains.
pub const LOCAL_CHAIN_ID_BOUND: u16 = 32768u16;

/// The local setup strategy for MCR settlement, with ports on localhost.
#[derive(Debug, Clone)]
pub struct Local {
    eth_rpc_port: u16,
    eth_ws_port: u16,
}

/// A random number in `[low, high)`.
///
/// Calls `rand::Rng::gen_range` on `rand::thread_rng()`, which samples uniformly from
/// `[low, high)` and panics when `low >= high`; the contract states the range only.
#[verifier::external_body]
fn random_in_range(low: u16, high: u16) -> (r: u16)
    requires
        low < high,
    ensures
        low <= r < high,
{
    rand::thread_rng().gen_range(low, high)
}

impl Local {
    /// The port of the Ethereum RPC.
    pub closed spec fn rpc_port(&self) -> u16 {
        self.eth_rpc_port
    }

    /// The port of the Ethereum WebSocket.
    pub closed spec fn ws_port(&self) -> u16 {
        self.eth_ws_port
    }

    /// Instantiates the local setup strategy with the given ports on localhost.
    pub fn new(eth_rpc_port: u16, eth_ws_port: u16) -> (l: Self)
        ensures
            l.rpc_port() == eth_rpc_port,
            l.ws_port() == eth_ws_port,
    {
        Local { eth_rpc_port, eth_ws_port }
    }

    /// The local setup strategy on the default ports.
    pub fn with_default_ports() -> (l: Self)
        ensures
            l.rpc_port() == DEFAULT_ETH_RPC_PORT,
            l.ws_port() == DEFAULT_ETH_WS_PORT,
    {
        Local::new(DEFAULT_ETH_RPC_PORT, DEFAULT_ETH_WS_PORT)
    }

    /// A temporary chain id for Anvil, at random.
    pub fn temporary_chain_id() -> (id: u16)
        ensures
            MIN_LOCAL_CHAIN_ID <= id < LOCAL_CHAIN_ID_BOUND,
    {
        random_in_range(MIN_LOCAL_CHAIN_ID, LOCAL_CHAIN_ID_BOUND)
    }

    /// The RPC URL to use: the given one, or the local one on the RPC port.
    pub fn rpc_url_or_local(&self, rpc_url: Option<String>) -> (url: String)
        ensures
            rpc_url matches Some(u) ==> url == u,
            rpc_url is None ==> url@ == spec_url("http"@, "localhost"@, self.rpc_port()),
    {
        match rpc_url {
            Some(u) => u,
            None => connection_url("http", "localhost", self.eth_rpc_port),
        }
    }

    /// The WebSocket URL to use: the given one, or the local one on the WebSocket port.
    pub fn ws_url_or_local(&self, ws_url: Option<String>) -> (url: String)
        ensures
            ws_url matches Some(u) ==> url == u,
            ws_url is None ==> url@ == spec_url("ws"@, "localhost"@, self.ws_port()),
    {
        match ws_url {
            Some(u) => u,
            None => connection_url("ws", "localhost", self.eth_ws_port),
        }
    }
}

/// How many times this strategy checks, 100 ms apart, that Anvil has written its configuration.
pub const LOCAL_ANVIL_START_CHECKS: u32 = 10u32;

/// Whether waiting for Anvil has run out, after `checks` checks.
pub fn anvil_wait_exhausted(checks: u32) -> (b: bool)
    ensures
        b == (checks > LOCAL_ANVIL_START_CHECKS),
{
    checks > LOCAL_ANVIL_START_CHECKS
}

/// Whether the strategy runs its own Anvil chain: only when no signer key is configured.
pub fn runs_anvil(signer_private_key: &Option<String>) -> (b: bool)
    ensures
        b == signer_private_key.is_none(),
{
    signer_private_key.is_none()
}

/// The account that deploys the contracts: the first Anvil account, taken out of the
/// accounts so that it is not reused.
pub fn take_deployer(accounts: &mut Vec<AnvilAddressEntry>) -> (deployer: AnvilAddressEntry)
    requires
        old(accounts)@.len() > 0,
    ensures
        deployer == old(accounts)@[0],
        final(accounts)@ == old(accounts)@.drop_first(),
{
    let deployer = accounts.remove(0);
    assert(accounts@ =~= old(accounts)@.drop_first());
    deployer
}

/// The key that the settlement client signs with: that of the first account left.
pub fn settlement_signer_key(accounts: &Vec<AnvilAddressEntry>) -> (key: String)
    requires
        accounts@.len() > 0,
    ensures
        key == accounts@[0].private_key,
{
    accounts[0].private_key.clone()
}

/// The MCR contract of this strategy's deployment: the one that the first saved transaction
/// created.
pub fn deployed_mcr_address(summary: &DeploymentSummary) -> (r: Result<String, DeployError>)
    ensures
        contract_at(summary.transactions@, 0) matches Some(a) ==> r == Ok::<String, DeployError>(a),
        contract_at(summary.transactions@, 0) is None ==> r == Err::<String, DeployError>(DeployError::NoContractAddress),
{
    if summary.transactions.len() == 0 {
        return Err(DeployError::NoContractAddress);
    }
    match &summary.transactions[0].contract_address {
        Some(a) => Ok(a.clone()),
        None => Err(DeployError::NoContractAddress),
    }
}

} // verus!
