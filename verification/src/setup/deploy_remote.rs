//! The remote deployment setup strategy: the contracts that a forge deployment created,
//! read from the transactions it saved, and the well-known accounts it generates.
use crate::aptos_vm::rpc_error::{hex_data, hex_of};
use vstd::prelude::*;

verus! {

/// The remote deployment setup strategy for MCR settlement.
#[derive(Debug, Clone)]
pub struct DeployRemote {}

/// How many random well-known accounts a remote deployment generates.
pub const WELL_KNOWN_ACCOUNTS: usize = 10usize;

/// Which transaction of the deployment creates the move token contract.
pub const MOVE_TOKEN_TRANSACTION: usize = 3usize;
/// Which transaction of the deployment creates the movement staking contract.
pub const MOVEMENT_STAKING_TRANSACTION: usize = 4usize;
/// Which transaction of the deployment creates the MCR contract.
pub const MCR_TRANSACTION: usize = 5usize;

/// Why the deployed contracts cannot be read.
#[derive(Debug, Clone, Copy, PartialEq, Eq, Structural)]
pub enum DeployError {
    /// A transaction that creates a contract is missing, or names no contract address.
    NoContractAddress,
}

impl DeployError {
    /// The message that describes the error.
    pub fn message(&self) -> (s: &'static str)
        ensures
            s@ == "No contract address in forge script exec deployment result file."@,
    {
        "No contract address in forge script exec deployment result file."
    }
}

/// A transaction that a deployment saved, as far as the setup reads it.
#[derive(Debug, Clone)]
pub struct DeployedTransaction {
    /// The address of the contract that the transaction created, if any.
    pub contract_address: Option<String>,
}

/// The transactions that a deployment saved, in order.
#[derive(Debug, Clone)]
pub struct DeploymentSummary {
    pub transactions: Vec<DeployedTransaction>,
}

/// The contract address of the `i`-th saved transaction, if there is one.
pub open spec fn contract_at(transactions: Seq<DeployedTransaction>, i: int) -> Option<String> {
    if 0 <= i < transactions.len() { transactions[i].contract_address } else { None }
}

/// Whether the move token, staking and MCR transactions all name their contract.
pub open spec fn deployed(transactions: Seq<DeployedTransaction>) -> bool {
    &&& contract_at(transactions, MOVE_TOKEN_TRANSACTION as int) is Some
    &&& contract_at(transactions, MOVEMENT_STAKING_TRANSACTION as int) is Some
    &&& contract_at(transactions, MCR_TRANSACTION as int) is Some
}

/// The contract address of the `i`-th saved transaction, if there is one.
fn contract_address_at(transactions: &Vec<DeployedTransaction>, i: usize) -> (r: Option<String>)
    ensures
        r == contract_at(transactions@, i as int),
{
    if i < transactions.len() {
        match &transactions[i].contract_address {
            Some(a) => Some(a.clone()),
            None => None,
        }
    } else {
        None
    }
}

/// The addresses of the move token, movement staking and MCR contracts that a deployment
/// created: those of its fourth, fifth and sixth saved transactions.
pub fn deployed_addresses(summary: &DeploymentSummary) -> (r: Result<(String, String, String), DeployError>)
    ensures
        deployed(summary.transactions@) ==> (r matches Ok((token, staking, mcr))
            && Some(token) == contract_at(summary.transactions@, MOVE_TOKEN_TRANSACTION as int)
            && Some(staking) == contract_at(summary.transactions@, MOVEMENT_STAKING_TRANSACTION as int)
            && Some(mcr) == contract_at(summary.transactions@, MCR_TRANSACTION as int)),
        !deployed(summary.transactions@) ==> r == Err::<(String, String, String), DeployError>(DeployError::NoContractAddress),
{
    let token = match contract_address_at(&summary.transactions, MOVE_TOKEN_TRANSACTION) {
        Some(a) => a,
        None => return Err(DeployError::NoContractAddress),
    };
    let staking = match contract_address_at(&summary.transactions, MOVEMENT_STAKING_TRANSACTION) {
        Some(a) => a,
        None => return Err(DeployError::NoContractAddress),
    };
    let mcr = match contract_address_at(&summary.transactions, MCR_TRANSACTION) {
        Some(a) => a,
        None => return Err(DeployError::NoContractAddress),
    };
    Ok((token, staking, mcr))
}

/// The private key text of a secret: `0x` and its hexadecimal digits.
pub open spec fn key_text(secret: [u8; 32]) -> Seq<char> {
    "0x"@ + hex_of(secret@)
}

/// The configuration that a remote deployment sets up: the deployed contracts and the
/// well-known accounts, by private key and by address, in the same order.
#[derive(Debug, Clone, PartialEq, Eq)]
pub struct DeployRemoteConfig {
    pub governor_private_key: String,
    pub move_token_contract_address: String,
    pub movement_staking_contract_address: String,
    pub mcr_contract_address: String,
    pub well_known_accounts: Vec<String>,
    pub well_known_addresses: Vec<String>,
}

/// A generated well-known account: its secret and the address that it signs for.
#[derive(Debug, Clone)]
pub struct GeneratedAccount {
    pub secret: [u8; 32],
    pub address: String,
}

impl DeployRemote {
    /// Instantiates the remote deployment setup strategy.
    pub fn new() -> (d: Self) {
        DeployRemote {}
    }

    /// Writes the deployed move token, movement staking and MCR contracts into the
    /// configuration; nothing changes when one of them is missing.
    pub fn apply_deployment(config: &mut DeployRemoteConfig, summary: &DeploymentSummary) -> (r: Result<(), DeployError>)
        ensures
            !deployed(summary.transactions@) ==> r == Err::<(), DeployError>(DeployError::NoContractAddress) && *final(config) == *old(config),
            deployed(summary.transactions@) ==> {
                &&& r is Ok
                &&& Some(final(config).move_token_contract_address) == contract_at(summary.transactions@, MOVE_TOKEN_TRANSACTION as int)
                &&& Some(final(config).movement_staking_contract_address) == contract_at(summary.transactions@, MOVEMENT_STAKING_TRANSACTION as int)
                &&& Some(final(config).mcr_contract_address) == contract_at(summary.transactions@, MCR_TRANSACTION as int)
                &&& final(config).governor_private_key == old(config).governor_private_key
                &&& final(config).well_known_accounts == old(config).well_known_accounts
                &&& final(config).well_known_addresses == old(config).well_known_addresses
            },
    {
        let (token, staking, mcr) = deployed_addresses(summary)?;
        config.move_token_contract_address = token;
        config.movement_staking_contract_address = staking;
        config.mcr_contract_address = mcr;
        Ok(())
    }

    /// Appends the generated well-known accounts, in order: each private key (its secret as
    /// `0x` and hexadecimal digits) to the accounts, and each address to the addresses.
    pub fn append_well_known_accounts(config: &mut DeployRemoteConfig, accounts: &Vec<GeneratedAccount>)
        ensures
            final(config).governor_private_key == old(config).governor_private_key,
            final(config).move_token_contract_address == old(config).move_token_contract_address,
            final(config).movement_staking_contract_address == old(config).movement_staking_contract_address,
            final(config).mcr_contract_address == old(config).mcr_contract_address,
            final(config).well_known_accounts@.len() == old(config).well_known_accounts@.len() + accounts@.len(),
            final(config).well_known_addresses@.len() == old(config).well_known_addresses@.len() + accounts@.len(),
            forall|i: int| 0 <= i < old(config).well_known_accounts@.len()
                ==> #[trigger] final(config).well_known_accounts@[i] == old(config).well_known_accounts@[i],
            forall|i: int| 0 <= i < old(config).well_known_addresses@.len()
                ==> #[trigger] final(config).well_known_addresses@[i] == old(config).well_known_addresses@[i],
            forall|j: int| 0 <= j < accounts@.len()
                ==> (#[trigger] final(config).well_known_accounts@[old(config).well_known_accounts@.len() + j])@ == key_text(accounts@[j].secret),
            forall|j: int| 0 <= j < accounts@.len()
                ==> #[trigger] final(config).well_known_addresses@[old(config).well_known_addresses@.len() + j] == accounts@[j].address,
    {
        let ghost keys_before = config.well_known_accounts@;
        let ghost addresses_before = config.well_known_addresses@;
        let mut j: usize = 0;
        while j < accounts.len()
            invariant
                0 <= j <= accounts@.len(),
                config.governor_private_key == old(config).governor_private_key,
                config.move_token_contract_address == old(config).move_token_contract_address,
                config.movement_staking_contract_address == old(config).movement_staking_contract_address,
                config.mcr_contract_address == old(config).mcr_contract_address,
                keys_before == old(config).well_known_accounts@,
                addresses_before == old(config).well_known_addresses@,
                config.well_known_accounts@.len() == keys_before.len() + j,
                config.well_known_addresses@.len() == addresses_before.len() + j,
                forall|i: int| 0 <= i < keys_before.len() ==> #[trigger] config.well_known_accounts@[i] == keys_before[i],
                forall|i: int| 0 <= i < addresses_before.len() ==> #[trigger] config.well_known_addresses@[i] == addresses_before[i],
                forall|k: int| 0 <= k < j ==> (#[trigger] config.well_known_accounts@[keys_before.len() + k])@ == key_text(accounts@[k].secret),
                forall|k: int| 0 <= k < j ==> #[trigger] config.well_known_addresses@[addresses_before.len() + k] == accounts@[k].address,
            decreases accounts@.len() - j,
        {
            let secret = accounts[j].secret;
            let key = hex_data(&secret);
            assert(key@ == key_text(accounts@[j as int].secret));
            config.well_known_accounts.push(key);
            config.well_known_addresses.push(accounts[j].address.clone());
            j = j + 1;
        }
    }
}

} // verus!
