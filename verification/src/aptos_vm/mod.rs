//! Plain data of the Aptos VM module: call messages, encoded transactions, configuration and
//! signing errors.
use vstd::prelude::*;

verus! {

/// The Aptos VM call message: the serialized transactions of a block.
#[derive(Debug, Clone)]
pub struct CallMessage {
    pub serialized_txs: Vec<Vec<u8>>,
}

/// The configuration of the Aptos VM module.
#[derive(Debug, Clone)]
pub struct AptosVmConfig {
    pub data: Vec<u8>,
    pub path: String,
}

/// Errors returned from a sign request.
#[derive(Debug, Clone, Copy, PartialEq, Eq, Structural)]
pub enum SignError {
    /// Error occurred while trying to sign data.
    CouldNotSign,
    /// Signer for the requested account is not found.
    NoAccount,
    /// Typed data has an invalid format.
    InvalidTypedData,
    /// Invalid transaction request in `sign_transaction`.
    InvalidTransactionRequest,
    /// No chain ID was given.
    NoChainId,
}

impl SignError {
    /// The message that describes the error.
    pub fn message(&self) -> (s: &'static str)
        ensures
            *self == SignError::CouldNotSign ==> s@ == "Could not sign"@,
            *self == SignError::NoAccount ==> s@ == "Unknown account"@,
            *self == SignError::InvalidTypedData ==> s@ == "Given typed data is not valid"@,
            *self == SignError::InvalidTransactionRequest ==> s@ == "Invalid transaction request"@,
            *self == SignError::NoChainId ==> s@ == "No chain id"@,
    {
        match self {
            SignError::CouldNotSign => "Could not sign",
            SignError::NoAccount => "Unknown account",
            SignError::InvalidTypedData => "Given typed data is not valid",
            SignError::InvalidTransactionRequest => "Invalid transaction request",
            SignError::NoChainId => "No chain id",
        }
    }
}

} // verus!

pub mod aptos;
pub mod evm;
pub mod rpc_error;
