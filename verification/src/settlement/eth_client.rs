//! The decisions of the Ethereum settlement clients: which signer and which contract call to
//! use, how the contract's answers read, and how the first Ethereum client retries a
//! transaction that failed to send.
use super::config::Config;
use super::send_tx::{message_mentions, raise_gas, raised, SendTxError, SERVER_ERROR_CODE, mentions};
use super::types::{BlockCommitment, Commitment, Id};
use vstd::prelude::*;

verus! {

/// The contract call that posts a block commitment.
#[derive(Debug, Clone, Copy, PartialEq, Eq, Structural)]
pub enum CommitmentCall {
    /// Forces the commitment as the latest one; for admin mode.
    ForceLatestCommitment,
    /// Submits the commitment for acceptance.
    SubmitBlockCommitment,
}

/// The call that posts a block commitment: forced in admin mode, submitted otherwise.
pub fn commitment_call(admin_mode: bool) -> (c: CommitmentCall)
    ensures
        admin_mode ==> c == CommitmentCall::ForceLatestCommitment,
        !admin_mode ==> c == CommitmentCall::SubmitBlockCommitment,
{
    if admin_mode {
        CommitmentCall::ForceLatestCommitment
    } else {
        CommitmentCall::SubmitBlockCommitment
    }
}

impl Config {
    /// The private key the client signs with: the deployment account's when deployment is
    /// configured, the settlement signer's otherwise.
    pub fn signer_private_key(&self) -> (k: &String)
        ensures
            self.deploy matches Some(d) ==> *k == d.mcr_deployment_account_private_key,
            self.deploy is None ==> *k == self.settle.signer_private_key,
    {
        match &self.deploy {
            Some(d) => &d.mcr_deployment_account_private_key,
            None => &self.settle.signer_private_key,
        }
    }
}

/// The commitment that the contract answers at a height: a height of 0 means there is none.
pub fn contract_commitment(height: u64, block_id: [u8; 32], commitment: [u8; 32]) -> (c: Option<BlockCommitment>)
    ensures
        height == 0 ==> c is None,
        height != 0 ==> c == Some(BlockCommitment { height, block_id: Id(block_id), commitment: Commitment(commitment) }),
{
    if height == 0 {
        None
    } else {
        Some(BlockCommitment::new(height, Id(block_id), Commitment(commitment)))
    }
}

/// The address of the MCR contract that the first Ethereum client posts to.
pub const STUB_MRC_CONTRACT_ADDRESS: &'static str = "0xA12eA6B7A168b67925beeAf363AF25e891fE5D6c";

/// How many times the first Ethereum client sends a transaction.
pub const MAX_TX_SEND_RETRY: usize = 3usize;

/// Errors of the first Ethereum client.
#[derive(Debug, Clone)]
pub enum StubConnectorError {
    /// The fee (estimated gas times gas price) exceeds the gas limit.
    GasLimitExceed(u128, u128),
    /// The account funds are insufficient, with the node's message.
    InsuffisantFund(String),
    /// Sending failed with this error.
    SendTxError(SendTxError),
    /// Waiting for the confirmations failed, for the given reason.
    RpcTxError(String),
}

/// The state of the first Ethereum client sending a transaction: the gas it is sent with
/// and the attempts left.
pub struct StubSendPlan {
    estimate_gas: u128,
    attempts_left: usize,
}

impl StubSendPlan {
    /// The gas the transaction is sent with.
    pub closed spec fn gas(&self) -> u128 {
        self.estimate_gas
    }

    /// The attempts left.
    pub closed spec fn attempts(&self) -> usize {
        self.attempts_left
    }

    /// Starts sending with the estimated gas, unless the fee (the estimated gas times the gas
    /// price) exceeds the limit.
    pub fn new(estimate_gas: u128, gas_price: u128, gas_limit: u128) -> (r: Result<Self, StubConnectorError>)
        requires
            estimate_gas * gas_price <= u128::MAX,
        ensures
            estimate_gas * gas_price > gas_limit ==> (r matches Err(StubConnectorError::GasLimitExceed(fee, limit))
                && fee == estimate_gas * gas_price && limit == gas_limit),
            estimate_gas * gas_price <= gas_limit ==> (r matches Ok(p) && p.gas() == estimate_gas
                && p.attempts() == MAX_TX_SEND_RETRY),
    {
        let fee = estimate_gas * gas_price;
        if fee > gas_limit {
            Err(StubConnectorError::GasLimitExceed(fee, gas_limit))
        } else {
            Ok(StubSendPlan { estimate_gas, attempts_left: MAX_TX_SEND_RETRY })
        }
    }

    /// The gas to send the transaction with.
    pub fn gas_to_send(&self) -> (g: u128)
        ensures
            g == self.gas(),
    {
        self.estimate_gas
    }

    /// Starts an attempt, if any is left; when none is, sending ends without an error.
    pub fn begin_attempt(&mut self) -> (started: bool)
        ensures
            started == (old(self).attempts() > 0),
            started ==> final(self).attempts() == old(self).attempts() - 1,
            !started ==> final(self).attempts() == old(self).attempts(),
            final(self).gas() == old(self).gas(),
    {
        if self.attempts_left > 0 {
            self.attempts_left = self.attempts_left - 1;
            true
        } else {
            false
        }
    }

    /// Takes the error of a failed send: an underpriced transaction is sent again with 10%
    /// more gas; insufficient funds end the sending with the node's message; any other error
    /// ends it as it is.
    pub fn on_send_error(&mut self, error: SendTxError) -> (stop: Option<StubConnectorError>)
        requires
            old(self).gas() * 10 <= u128::MAX,
            raised(old(self).gas(), 10) <= u128::MAX,
        ensures
            final(self).attempts() == old(self).attempts(),
            match error {
                SendTxError::ErrorResp { code, message } => {
                    if code == SERVER_ERROR_CODE && mentions(message@, "transaction underpriced"@) {
                        stop is None && final(self).gas() == raised(old(self).gas(), 10)
                    } else if code == SERVER_ERROR_CODE && mentions(message@, "insufficient funds"@) {
                        (stop matches Some(StubConnectorError::InsuffisantFund(m)) && m == message)
                            && final(self).gas() == old(self).gas()
                    } else {
                        (stop matches Some(StubConnectorError::SendTxError(e)) && e == error)
                            && final(self).gas() == old(self).gas()
                    }
                },
                SendTxError::Other(_) => (stop matches Some(StubConnectorError::SendTxError(e)) && e == error)
                    && final(self).gas() == old(self).gas(),
            },
    {
        let (underpriced, no_funds) = match &error {
            SendTxError::ErrorResp { code, message } => {
                if *code == SERVER_ERROR_CODE {
                    (message_mentions(message.as_str(), "transaction underpriced"), message_mentions(message.as_str(), "insufficient funds"))
                } else {
                    (false, false)
                }
            },
            SendTxError::Other(_) => (false, false),
        };
        if underpriced {
            self.estimate_gas = raise_gas(self.estimate_gas, 10);
            None
        } else if no_funds {
            match error {
                SendTxError::ErrorResp { message, .. } => Some(StubConnectorError::InsuffisantFund(message)),
                SendTxError::Other(_) => Some(StubConnectorError::SendTxError(error)),
            }
        } else {
            Some(StubConnectorError::SendTxError(error))
        }
    }
}

} // verus!
