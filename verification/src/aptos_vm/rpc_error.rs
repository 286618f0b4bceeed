//! Errors of the `eth_` RPC namespace and the JSON-RPC error objects they are answered with.
//!
//! The errors of the EVM (invalid transactions, halts, execution results) are held here as
//! plain enums of their own; each conversion says which RPC error an EVM error becomes, and
//! each RPC error says which JSON-RPC code, message and data it is answered with. The reason
//! of a revert is decoded from its output by the caller and handed in.
use super::SignError;
use crate::settlement::config::{append_decimal, decimal, digit_char, digit_str};
use crate::setup::forge::push_char;
use vstd::prelude::*;

verus! {

/// JSON-RPC code of invalid method parameters.
pub const INVALID_PARAMS_CODE: i32 = -32602i32;
/// JSON-RPC code of an internal error.
pub const INTERNAL_ERROR_CODE: i32 = -32603i32;
/// JSON-RPC code of a call whose execution failed.
pub const CALL_EXECUTION_FAILED_CODE: i32 = -32000i32;
/// `eth_` code of a rejected transaction.
pub const TRANSACTION_REJECTED_CODE: i32 = -32003i32;
/// `eth_` code of a failed execution.
pub const EXECUTION_ERROR_CODE: i32 = 3i32;
/// `eth_` code of invalid input.
pub const INVALID_INPUT_CODE: i32 = -32000i32;
/// `eth_` code of a resource that was not found.
pub const RESOURCE_NOT_FOUND_CODE: i32 = -32001i32;
/// `eth_` code of an unknown block.
pub const UNKNOWN_BLOCK_CODE: i32 = -39001i32;

/// How the EVM ran out of gas.
#[derive(Debug, Clone, Copy, PartialEq, Eq, Structural)]
pub enum OutOfGasError {
    Basic,
    MemoryLimit,
    Memory,
    Precompile,
    InvalidOperand,
}

/// Why the EVM halted.
#[derive(Debug, Clone, PartialEq, Eq)]
pub enum HaltReason {
    /// It ran out of gas.
    OutOfGas(OutOfGasError),
    /// A nonce overflowed.
    NonceOverflow,
    /// Any other reason, by its name.
    Other(String),
}

/// Why the EVM refused a transaction before running it.
#[derive(Debug, Clone, PartialEq, Eq)]
pub enum InvalidTransaction {
    PriorityFeeGreaterThanMaxFee,
    GasPriceLessThanBasefee,
    CallerGasLimitMoreThanBlock,
    CallGasCostMoreThanGasLimit,
    RejectCallerWithCode,
    LackOfFundForMaxFee,
    OverflowPaymentInTransaction,
    NonceOverflowInTransaction,
    NonceTooHigh { tx: u64, state: u64 },
    NonceTooLow { tx: u64, state: u64 },
    CreateInitCodeSizeLimit,
    InvalidChainId,
    AccessListNotSupported,
    MaxFeePerBlobGasNotSupported,
    BlobVersionedHashesNotSupported,
    BlobGasPriceGreaterThanMax,
    EmptyBlobs,
    BlobCreateTransaction,
    TooManyBlobs,
    BlobVersionNotSupported,
    /// A reason that has no RPC error, by its name.
    Other(String),
}

/// Why the transaction pool refused a transaction by the rules of consensus.
#[derive(Debug, Clone, Copy, PartialEq, Eq, Structural)]
pub enum InvalidTransactionError {
    InsufficientFunds,
    NonceNotConsistent,
    OldLegacyChainId,
    ChainIdMismatch,
    Eip2930Disabled,
    Eip1559Disabled,
    Eip4844Disabled,
    TxTypeNotSupported,
    GasUintOverflow,
    GasTooLow,
    GasTooHigh,
    TipAboveFeeCap,
    FeeCapTooLow,
    SignerAccountHasBytecode,
}

/// A reverted transaction and its output data, which is absent when the output was empty.
#[derive(Debug, Clone, PartialEq, Eq)]
pub struct RevertError {
    output: Option<Vec<u8>>,
}

/// An error due to an invalid transaction, named as other clients name them.
///
/// The out-of-gas errors carry the gas limit of the transaction.
#[derive(Debug, Clone, PartialEq, Eq)]
pub enum RpcInvalidTransactionError {
    NonceTooLow,
    NonceTooHigh,
    NonceMaxValue,
    InsufficientFundsForTransfer,
    MaxInitCodeSizeExceeded,
    InsufficientFunds,
    GasUintOverflow,
    GasTooLow,
    GasTooHigh,
    TxTypeNotSupported,
    TipAboveFeeCap,
    TipVeryHigh,
    FeeCapVeryHigh,
    FeeCapTooLow,
    SenderNoEOA,
    BasicOutOfGas(u64),
    MemoryOutOfGas(u64),
    PrecompileOutOfGas(u64),
    InvalidOperandOutOfGas(u64),
    Revert(RevertError),
    EvmHalt(HaltReason),
    InvalidChainId,
    OldLegacyChainId,
    AccessListNotSupported,
    MaxFeePerBlobGasNotSupported,
    BlobVersionedHashesNotSupported,
    BlobFeeCapTooLow,
    BlobHashVersionMismatch,
    BlobTransactionMissingBlobHashes,
    TooManyBlobs,
    BlobTransactionIsCreate,
}

/// The view of the revert output as bytes.
pub open spec fn output_view(output: Option<Vec<u8>>) -> Option<Seq<u8>> {
    match output {
        Some(o) => Some(o@),
        None => None,
    }
}

impl RevertError {
    /// The output data, absent when the output was empty.
    pub closed spec fn spec_output(&self) -> Option<Seq<u8>> {
        output_view(self.output)
    }

    /// Wraps the output of a reverted transaction; an empty output is no output.
    pub fn new(output: Vec<u8>) -> (r: Self)
        ensures
            output@.len() == 0 ==> r.spec_output() is None,
            output@.len() > 0 ==> r.spec_output() == Some(output@),
    {
        if output.len() == 0 {
            RevertError { output: None }
        } else {
            RevertError { output: Some(output) }
        }
    }

    /// The output data, absent when the output was empty.
    pub fn output(&self) -> (o: Option<&Vec<u8>>)
        ensures
            output_view(match o { Some(v) => Some(*v), None => None }) == self.spec_output(),
    {
        match &self.output {
            Some(v) => Some(v),
            None => None,
        }
    }

    /// The code a revert is answered with.
    pub fn error_code(&self) -> (c: i32)
        ensures
            c == EXECUTION_ERROR_CODE,
    {
        EXECUTION_ERROR_CODE
    }
}

/// The code an invalid transaction is answered with.
pub open spec fn spec_error_code(e: RpcInvalidTransactionError) -> i32 {
    match e {
        RpcInvalidTransactionError::InvalidChainId
        | RpcInvalidTransactionError::GasTooLow
        | RpcInvalidTransactionError::GasTooHigh => INVALID_INPUT_CODE,
        RpcInvalidTransactionError::Revert(_) => EXECUTION_ERROR_CODE,
        _ => TRANSACTION_REJECTED_CODE,
    }
}

/// The error for running out of gas, carrying the gas limit.
pub open spec fn spec_out_of_gas(reason: OutOfGasError, gas_limit: u64) -> RpcInvalidTransactionError {
    match reason {
        OutOfGasError::Basic => RpcInvalidTransactionError::BasicOutOfGas(gas_limit),
        OutOfGasError::Memory => RpcInvalidTransactionError::MemoryOutOfGas(gas_limit),
        OutOfGasError::MemoryLimit => RpcInvalidTransactionError::MemoryOutOfGas(gas_limit),
        OutOfGasError::Precompile => RpcInvalidTransactionError::PrecompileOutOfGas(gas_limit),
        OutOfGasError::InvalidOperand => RpcInvalidTransactionError::InvalidOperandOutOfGas(gas_limit),
    }
}

/// The error for a halt, carrying the gas limit when gas ran out.
pub open spec fn spec_halt(reason: HaltReason, gas_limit: u64) -> RpcInvalidTransactionError {
    match reason {
        HaltReason::OutOfGas(e) => spec_out_of_gas(e, gas_limit),
        HaltReason::NonceOverflow => RpcInvalidTransactionError::NonceMaxValue,
        HaltReason::Other(_) => RpcInvalidTransactionError::EvmHalt(reason),
    }
}

/// The error for a transaction that the EVM refused; other reasons have none.
pub open spec fn spec_from_invalid_transaction(err: InvalidTransaction) -> Option<RpcInvalidTransactionError> {
    match err {
        InvalidTransaction::InvalidChainId => Some(RpcInvalidTransactionError::InvalidChainId),
        InvalidTransaction::PriorityFeeGreaterThanMaxFee => Some(RpcInvalidTransactionError::TipAboveFeeCap),
        InvalidTransaction::GasPriceLessThanBasefee => Some(RpcInvalidTransactionError::FeeCapTooLow),
        InvalidTransaction::CallerGasLimitMoreThanBlock => Some(RpcInvalidTransactionError::GasTooHigh),
        InvalidTransaction::CallGasCostMoreThanGasLimit => Some(RpcInvalidTransactionError::GasTooHigh),
        InvalidTransaction::RejectCallerWithCode => Some(RpcInvalidTransactionError::SenderNoEOA),
        InvalidTransaction::LackOfFundForMaxFee => Some(RpcInvalidTransactionError::InsufficientFunds),
        InvalidTransaction::OverflowPaymentInTransaction => Some(RpcInvalidTransactionError::GasUintOverflow),
        InvalidTransaction::NonceOverflowInTransaction => Some(RpcInvalidTransactionError::NonceMaxValue),
        InvalidTransaction::CreateInitCodeSizeLimit => Some(RpcInvalidTransactionError::MaxInitCodeSizeExceeded),
        InvalidTransaction::NonceTooHigh { .. } => Some(RpcInvalidTransactionError::NonceTooHigh),
        InvalidTransaction::NonceTooLow { .. } => Some(RpcInvalidTransactionError::NonceTooLow),
        InvalidTransaction::AccessListNotSupported => Some(RpcInvalidTransactionError::AccessListNotSupported),
        InvalidTransaction::MaxFeePerBlobGasNotSupported => Some(RpcInvalidTransactionError::MaxFeePerBlobGasNotSupported),
        InvalidTransaction::BlobVersionedHashesNotSupported => Some(RpcInvalidTransactionError::BlobVersionedHashesNotSupported),
        InvalidTransaction::BlobGasPriceGreaterThanMax => Some(RpcInvalidTransactionError::BlobFeeCapTooLow),
        InvalidTransaction::EmptyBlobs => Some(RpcInvalidTransactionError::BlobTransactionMissingBlobHashes),
        InvalidTransaction::BlobVersionNotSupported => Some(RpcInvalidTransactionError::BlobHashVersionMismatch),
        InvalidTransaction::TooManyBlobs => Some(RpcInvalidTransactionError::TooManyBlobs),
        InvalidTransaction::BlobCreateTransaction => Some(RpcInvalidTransactionError::BlobTransactionIsCreate),
        InvalidTransaction::Other(_) => None,
    }
}

/// The error for a transaction that the pool refused by the rules of consensus.
pub open spec fn spec_from_consensus(err: InvalidTransactionError) -> RpcInvalidTransactionError {
    match err {
        InvalidTransactionError::InsufficientFunds => RpcInvalidTransactionError::InsufficientFunds,
        InvalidTransactionError::NonceNotConsistent => RpcInvalidTransactionError::NonceTooLow,
        InvalidTransactionError::OldLegacyChainId => RpcInvalidTransactionError::OldLegacyChainId,
        InvalidTransactionError::ChainIdMismatch => RpcInvalidTransactionError::InvalidChainId,
        InvalidTransactionError::Eip2930Disabled
        | InvalidTransactionError::Eip1559Disabled
        | InvalidTransactionError::Eip4844Disabled
        | InvalidTransactionError::TxTypeNotSupported => RpcInvalidTransactionError::TxTypeNotSupported,
        InvalidTransactionError::GasUintOverflow => RpcInvalidTransactionError::GasUintOverflow,
        InvalidTransactionError::GasTooLow => RpcInvalidTransactionError::GasTooLow,
        InvalidTransactionError::GasTooHigh => RpcInvalidTransactionError::GasTooHigh,
        InvalidTransactionError::TipAboveFeeCap => RpcInvalidTransactionError::TipAboveFeeCap,
        InvalidTransactionError::FeeCapTooLow => RpcInvalidTransactionError::FeeCapTooLow,
        InvalidTransactionError::SignerAccountHasBytecode => RpcInvalidTransactionError::SenderNoEOA,
    }
}

impl RpcInvalidTransactionError {
    /// The code the error is answered with: invalid input for a wrong chain id or gas, an
    /// execution error for a revert, a rejected transaction otherwise.
    pub fn error_code(&self) -> (c: i32)
        ensures
            c == spec_error_code(*self),
            (c == -32000i32) <==> (*self is InvalidChainId || *self is GasTooLow || *self is GasTooHigh),
            (c == 3i32) <==> *self is Revert,
            (c == -32003i32) <==> !(*self is InvalidChainId || *self is GasTooLow || *self is GasTooHigh || *self is Revert),
    {
        match self {
            RpcInvalidTransactionError::InvalidChainId
            | RpcInvalidTransactionError::GasTooLow
            | RpcInvalidTransactionError::GasTooHigh => INVALID_INPUT_CODE,
            RpcInvalidTransactionError::Revert(_) => EXECUTION_ERROR_CODE,
            _ => TRANSACTION_REJECTED_CODE,
        }
    }

    /// The error for a halt of the EVM, given the gas limit of the transaction.
    pub fn halt(reason: HaltReason, gas_limit: u64) -> (r: Self)
        ensures
            r == spec_halt(reason, gas_limit),
    {
        match reason {
            HaltReason::OutOfGas(e) => RpcInvalidTransactionError::out_of_gas(e, gas_limit),
            HaltReason::NonceOverflow => RpcInvalidTransactionError::NonceMaxValue,
            HaltReason::Other(name) => RpcInvalidTransactionError::EvmHalt(HaltReason::Other(name)),
        }
    }

    /// The error for running out of gas, given the gas limit of the transaction.
    pub fn out_of_gas(reason: OutOfGasError, gas_limit: u64) -> (r: Self)
        ensures
            r == spec_out_of_gas(reason, gas_limit),
    {
        match reason {
            OutOfGasError::Basic => RpcInvalidTransactionError::BasicOutOfGas(gas_limit),
            OutOfGasError::Memory => RpcInvalidTransactionError::MemoryOutOfGas(gas_limit),
            OutOfGasError::Precompile => RpcInvalidTransactionError::PrecompileOutOfGas(gas_limit),
            OutOfGasError::InvalidOperand => RpcInvalidTransactionError::InvalidOperandOutOfGas(gas_limit),
            OutOfGasError::MemoryLimit => RpcInvalidTransactionError::MemoryOutOfGas(gas_limit),
        }
    }

    /// The error for a transaction that the EVM refused; the EVM's other reasons have none.
    pub fn from_invalid_transaction(err: InvalidTransaction) -> (r: Self)
        requires
            !(err is Other),
        ensures
            spec_from_invalid_transaction(err) == Some(r),
    {
        match err {
            InvalidTransaction::InvalidChainId => RpcInvalidTransactionError::InvalidChainId,
            InvalidTransaction::PriorityFeeGreaterThanMaxFee => RpcInvalidTransactionError::TipAboveFeeCap,
            InvalidTransaction::GasPriceLessThanBasefee => RpcInvalidTransactionError::FeeCapTooLow,
            InvalidTransaction::CallerGasLimitMoreThanBlock => RpcInvalidTransactionError::GasTooHigh,
            InvalidTransaction::CallGasCostMoreThanGasLimit => RpcInvalidTransactionError::GasTooHigh,
            InvalidTransaction::RejectCallerWithCode => RpcInvalidTransactionError::SenderNoEOA,
            InvalidTransaction::LackOfFundForMaxFee => RpcInvalidTransactionError::InsufficientFunds,
            InvalidTransaction::OverflowPaymentInTransaction => RpcInvalidTransactionError::GasUintOverflow,
            InvalidTransaction::NonceOverflowInTransaction => RpcInvalidTransactionError::NonceMaxValue,
            InvalidTransaction::CreateInitCodeSizeLimit => RpcInvalidTransactionError::MaxInitCodeSizeExceeded,
            InvalidTransaction::NonceTooHigh { .. } => RpcInvalidTransactionError::NonceTooHigh,
            InvalidTransaction::NonceTooLow { .. } => RpcInvalidTransactionError::NonceTooLow,
            InvalidTransaction::AccessListNotSupported => RpcInvalidTransactionError::AccessListNotSupported,
            InvalidTransaction::MaxFeePerBlobGasNotSupported => RpcInvalidTransactionError::MaxFeePerBlobGasNotSupported,
            InvalidTransaction::BlobVersionedHashesNotSupported => RpcInvalidTransactionError::BlobVersionedHashesNotSupported,
            InvalidTransaction::BlobGasPriceGreaterThanMax => RpcInvalidTransactionError::BlobFeeCapTooLow,
            InvalidTransaction::EmptyBlobs => RpcInvalidTransactionError::BlobTransactionMissingBlobHashes,
            InvalidTransaction::BlobVersionNotSupported => RpcInvalidTransactionError::BlobHashVersionMismatch,
            InvalidTransaction::TooManyBlobs => RpcInvalidTransactionError::TooManyBlobs,
            InvalidTransaction::BlobCreateTransaction => RpcInvalidTransactionError::BlobTransactionIsCreate,
            InvalidTransaction::Other(_) => {
                proof { assert(false); }
                RpcInvalidTransactionError::TxTypeNotSupported
            },
        }
    }

    /// The error for a transaction that the pool refused by the rules of consensus.
    pub fn from_consensus(err: InvalidTransactionError) -> (r: Self)
        ensures
            r == spec_from_consensus(err),
    {
        match err {
            InvalidTransactionError::InsufficientFunds => RpcInvalidTransactionError::InsufficientFunds,
            InvalidTransactionError::NonceNotConsistent => RpcInvalidTransactionError::NonceTooLow,
            InvalidTransactionError::OldLegacyChainId => RpcInvalidTransactionError::OldLegacyChainId,
            InvalidTransactionError::ChainIdMismatch => RpcInvalidTransactionError::InvalidChainId,
            InvalidTransactionError::Eip2930Disabled
            | InvalidTransactionError::Eip1559Disabled
            | InvalidTransactionError::Eip4844Disabled
            | InvalidTransactionError::TxTypeNotSupported => RpcInvalidTransactionError::TxTypeNotSupported,
            InvalidTransactionError::GasUintOverflow => RpcInvalidTransactionError::GasUintOverflow,
            InvalidTransactionError::GasTooLow => RpcInvalidTransactionError::GasTooLow,
            InvalidTransactionError::GasTooHigh => RpcInvalidTransactionError::GasTooHigh,
            InvalidTransactionError::TipAboveFeeCap => RpcInvalidTransactionError::TipAboveFeeCap,
            InvalidTransactionError::FeeCapTooLow => RpcInvalidTransactionError::FeeCapTooLow,
            InvalidTransactionError::SignerAccountHasBytecode => RpcInvalidTransactionError::SenderNoEOA,
        }
    }
}

/// A helper error mirroring the transaction pool's errors.
#[derive(Debug, Clone, PartialEq, Eq)]
pub enum RpcPoolError {
    AlreadyKnown,
    InvalidSender,
    Underpriced,
    TxPoolOverflow,
    ReplaceUnderpriced,
    ExceedsGasLimit,
    NegativeValue,
    OversizedData,
    ExceedsMaxInitCodeSize,
    Invalid(RpcInvalidTransactionError),
    /// A custom pool error, by its text.
    PoolTransactionError(String),
    /// An error of a blob transaction, by its text.
    Eip4844(String),
    AddressAlreadyReserved,
    /// Any other error, by its text.
    Other(String),
}

/// Errors of the `eth_` namespace.
#[derive(Debug, Clone, PartialEq, Eq)]
pub enum EthApiError {
    EmptyRawTransactionData,
    FailedToDecodeSignedTransaction,
    InvalidTransactionSignature,
    PoolError(RpcPoolError),
    UnknownBlockNumber,
    UnknownSafeOrFinalizedBlock,
    UnknownBlockOrTxIndex,
    InvalidBlockRange,
    PrevrandaoNotSet,
    ExcessBlobGasNotSet,
    ConflictingFeeFieldsInRequest,
    InvalidTransaction(RpcInvalidTransactionError),
    /// Building an RPC block failed, for the given reason.
    InvalidBlockData(String),
    /// An account override, by address, has both `state` and `stateDiff`.
    BothStateAndStateDiffInOverride([u8; 20]),
    /// Another internal error, by its text.
    Internal(String),
    Signing(SignError),
    TransactionNotFound,
    /// The named feature is unsupported.
    Unsupported(String),
    InvalidParams(String),
    InvalidTracerConfig,
    InvalidRewardPercentiles,
    InternalBlockingTaskError,
    InternalEthError,
    /// A call exceeded the timeout, given in seconds and nanoseconds.
    ExecutionTimedOut { secs: u64, nanos: u32 },
    InternalJsTracerError(String),
    /// The `data` and `input` fields of a call are both set and differ, by the error's text.
    TransactionInputError(String),
    EvmCustom(String),
}

/// What is wrong with a block header, for the EVM.
#[derive(Debug, Clone, Copy, PartialEq, Eq, Structural)]
pub enum InvalidHeader {
    PrevrandaoNotSet,
    ExcessBlobGasNotSet,
}

/// An error of the EVM over a database that cannot fail.
#[derive(Debug, Clone, PartialEq, Eq)]
pub enum EvmError {
    Transaction(InvalidTransaction),
    Header(InvalidHeader),
    /// An error of the database, which cannot occur.
    Database,
    Custom(String),
}

/// The result of running a transaction in the EVM.
#[derive(Debug, Clone, PartialEq, Eq)]
pub enum ExecutionResult {
    /// It ran; the output data.
    Success { output: Vec<u8> },
    /// It reverted; the output data.
    Revert { output: Vec<u8> },
    /// It halted, having used the given gas.
    Halt { reason: HaltReason, gas_used: u64 },
}

/// Why the storage provider failed.
#[derive(Debug, Clone, PartialEq, Eq)]
pub enum ProviderError {
    HeaderNotFound,
    BlockHashNotFound,
    BestBlockNotFound,
    BlockNumberForTransactionIndexNotFound,
    TotalDifficultyNotFound,
    UnknownBlockHash,
    FinalizedBlockNotFound,
    SafeBlockNotFound,
    /// Any other failure, by its text.
    Other(String),
}

/// A JSON-RPC error answer: its code, message and data.
#[derive(Debug, Clone, PartialEq, Eq)]
pub struct RpcErrorObject {
    pub code: i32,
    pub message: String,
    /// The data, a `0x`-prefixed hexadecimal string, if any.
    pub data: Option<String>,
}

/// The lower-case hexadecimal digit for `n`.
pub open spec fn hex_digit(n: u8) -> char {
    if n == 0 { '0' } else if n == 1 { '1' } else if n == 2 { '2' } else if n == 3 { '3' }
    else if n == 4 { '4' } else if n == 5 { '5' } else if n == 6 { '6' } else if n == 7 { '7' }
    else if n == 8 { '8' } else if n == 9 { '9' } else if n == 10 { 'a' } else if n == 11 { 'b' }
    else if n == 12 { 'c' } else if n == 13 { 'd' } else if n == 14 { 'e' } else { 'f' }
}

/// The bytes in lower-case hexadecimal, two digits a byte, the high digit first.
pub open spec fn hex_of(bytes: Seq<u8>) -> Seq<char>
    decreases bytes.len(),
{
    if bytes.len() == 0 {
        Seq::empty()
    } else {
        hex_of(bytes.drop_last()).push(hex_digit(bytes.last() / 16)).push(hex_digit(bytes.last() % 16))
    }
}

/// The lower-case hexadecimal digit for `n`.
fn hex_digit_char(n: u8) -> (c: char)
    requires
        n < 16,
    ensures
        c == hex_digit(n),
{
    if n == 0 { '0' } else if n == 1 { '1' } else if n == 2 { '2' } else if n == 3 { '3' }
    else if n == 4 { '4' } else if n == 5 { '5' } else if n == 6 { '6' } else if n == 7 { '7' }
    else if n == 8 { '8' } else if n == 9 { '9' } else if n == 10 { 'a' } else if n == 11 { 'b' }
    else if n == 12 { 'c' } else if n == 13 { 'd' } else if n == 14 { 'e' } else { 'f' }
}

/// The bytes as a `0x`-prefixed lower-case hexadecimal string.
pub fn hex_data(bytes: &[u8]) -> (s: String)
    ensures
        s@ == "0x"@ + hex_of(bytes@),
{
    proof { reveal_strlit("0x"); }
    let mut s = "0x".to_owned();
    let mut i: usize = 0;
    while i < bytes.len()
        invariant
            0 <= i <= bytes@.len(),
            s@ == "0x"@ + hex_of(bytes@.subrange(0, i as int)),
        decreases bytes@.len() - i,
    {
        let b = bytes[i];
        push_char(&mut s, hex_digit_char(b / 16));
        push_char(&mut s, hex_digit_char(b % 16));
        proof {
            let next = bytes@.subrange(0, i + 1);
            assert(next.drop_last() =~= bytes@.subrange(0, i as int));
            assert(next.last() == b);
        }
        i = i + 1;
    }
    assert(bytes@.subrange(0, bytes@.len() as int) =~= bytes@);
    s
}

/// The code a pool error is answered with: that of the invalid transaction, or an internal
/// error.
pub open spec fn spec_pool_code(e: RpcPoolError) -> i32 {
    match e {
        RpcPoolError::Invalid(err) => spec_error_code(err),
        _ => INTERNAL_ERROR_CODE,
    }
}

/// The code an `eth_` error is answered with.
pub open spec fn spec_rpc_code(e: EthApiError) -> i32 {
    match e {
        EthApiError::FailedToDecodeSignedTransaction
        | EthApiError::InvalidTransactionSignature
        | EthApiError::EmptyRawTransactionData
        | EthApiError::InvalidBlockRange
        | EthApiError::ConflictingFeeFieldsInRequest
        | EthApiError::Signing(_)
        | EthApiError::BothStateAndStateDiffInOverride(_)
        | EthApiError::InvalidTracerConfig
        | EthApiError::InvalidParams(_)
        | EthApiError::TransactionInputError(_) => INVALID_PARAMS_CODE,
        EthApiError::InvalidTransaction(err) => spec_error_code(err),
        EthApiError::PoolError(err) => spec_pool_code(err),
        EthApiError::UnknownBlockNumber | EthApiError::UnknownBlockOrTxIndex => RESOURCE_NOT_FOUND_CODE,
        EthApiError::UnknownSafeOrFinalizedBlock => UNKNOWN_BLOCK_CODE,
        EthApiError::ExecutionTimedOut { .. } => CALL_EXECUTION_FAILED_CODE,
        _ => INTERNAL_ERROR_CODE,
    }
}

/// The revert whose output an invalid transaction is answered with, if it is one.
pub open spec fn revert_of(e: RpcInvalidTransactionError) -> Option<RevertError> {
    match e {
        RpcInvalidTransactionError::Revert(r) => Some(r),
        _ => None,
    }
}

/// The revert whose output an `eth_` error is answered with, if any.
pub open spec fn spec_revert(e: EthApiError) -> Option<RevertError> {
    match e {
        EthApiError::InvalidTransaction(err) => revert_of(err),
        EthApiError::PoolError(RpcPoolError::Invalid(err)) => revert_of(err),
        _ => None,
    }
}

/// The data an `eth_` error is answered with: the output of a revert, in hexadecimal.
pub open spec fn spec_rpc_data(e: EthApiError) -> Option<Seq<char>> {
    match spec_revert(e) {
        Some(r) => match r.spec_output() {
            Some(out) => Some("0x"@ + hex_of(out)),
            None => None,
        },
        None => None,
    }
}

/// The message an `eth_` error is answered with, given the error's text: the error's own
/// message where it carries one, its text otherwise.
pub open spec fn spec_rpc_message(e: EthApiError, text: Seq<char>) -> Seq<char> {
    match e {
        EthApiError::Unsupported(msg) => msg@,
        EthApiError::InternalJsTracerError(msg) => msg@,
        EthApiError::InvalidParams(msg) => msg@,
        _ => text,
    }
}

/// The `eth_` error for a provider failure: a missing block is an unknown block number, a
/// missing finalized or safe block is an unknown block, anything else is internal.
pub open spec fn spec_from_provider(err: ProviderError) -> EthApiError {
    match err {
        ProviderError::HeaderNotFound
        | ProviderError::BlockHashNotFound
        | ProviderError::BestBlockNotFound
        | ProviderError::BlockNumberForTransactionIndexNotFound
        | ProviderError::TotalDifficultyNotFound
        | ProviderError::UnknownBlockHash => EthApiError::UnknownBlockNumber,
        ProviderError::FinalizedBlockNotFound | ProviderError::SafeBlockNotFound => EthApiError::UnknownSafeOrFinalizedBlock,
        ProviderError::Other(text) => EthApiError::Internal(text),
    }
}

/// Whether an `eth_` error is one of a malformed request: raw data that is empty or does not
/// decode to a signed transaction, an invalid signature or block range, conflicting fee fields,
/// a failed signing, a contradictory state override, an invalid tracer configuration, invalid
/// parameters, or call input fields that differ.
pub open spec fn is_malformed_request(e: EthApiError) -> bool {
    ||| e is EmptyRawTransactionData
    ||| e is FailedToDecodeSignedTransaction
    ||| e is InvalidTransactionSignature
    ||| e is InvalidBlockRange
    ||| e is ConflictingFeeFieldsInRequest
    ||| e is Signing
    ||| e is BothStateAndStateDiffInOverride
    ||| e is InvalidTracerConfig
    ||| e is InvalidParams
    ||| e is TransactionInputError
}

/// Whether a provider failure is a block that is not known: a missing header, block hash, best
/// block, block number of a transaction index or total difficulty, or an unknown block hash.
pub open spec fn is_missing_block(err: ProviderError) -> bool {
    ||| err is HeaderNotFound
    ||| err is BlockHashNotFound
    ||| err is BestBlockNotFound
    ||| err is BlockNumberForTransactionIndexNotFound
    ||| err is TotalDifficultyNotFound
    ||| err is UnknownBlockHash
}

/// An invalid transaction is answered with invalid input (-32000) exactly when its chain id or
/// gas is wrong, with an execution error (3) exactly when it reverted, and as a rejected
/// transaction (-32003) otherwise; as an `eth_` error it is answered with that same code.
pub proof fn lemma_invalid_transaction_codes(e: RpcInvalidTransactionError)
    ensures
        (spec_error_code(e) == -32000i32) <==> (e is InvalidChainId || e is GasTooLow || e is GasTooHigh),
        (spec_error_code(e) == 3i32) <==> e is Revert,
        (spec_error_code(e) == -32003i32) <==> !(e is InvalidChainId || e is GasTooLow || e is GasTooHigh || e is Revert),
        spec_rpc_code(EthApiError::InvalidTransaction(e)) == spec_error_code(e),
{
}

/// An `eth_` error is answered with invalid parameters (-32602) exactly when it is one of a
/// malformed request.
pub proof fn lemma_malformed_requests_are_invalid_params(e: EthApiError)
    ensures
        (spec_rpc_code(e) == -32602i32) <==> is_malformed_request(e),
{
}

/// Whether an `eth_` error is an internal failure of the node: a header without prevrandao or
/// excess blob gas, bad block data, an internal or EVM-specific failure, a missing
/// transaction, an unsupported feature, a tracer failure, invalid reward percentiles, or a
/// failed blocking task.
pub open spec fn is_internal_failure(e: EthApiError) -> bool {
    ||| e is PrevrandaoNotSet
    ||| e is ExcessBlobGasNotSet
    ||| e is InvalidBlockData
    ||| e is Internal
    ||| e is TransactionNotFound
    ||| e is EvmCustom
    ||| e is Unsupported
    ||| e is InternalJsTracerError
    ||| e is InvalidRewardPercentiles
    ||| e is InternalBlockingTaskError
    ||| e is InternalEthError
}

/// How every other `eth_` error is answered: an unknown block number or block-or-index with
/// -32001 and nothing else with it; an unknown safe or finalized block with -39001 and nothing
/// else with it; a timed-out call with -32000; an internal failure with -32603; a pool error
/// with the code of the invalid transaction it carries, or -32603 when it carries none.
pub proof fn lemma_rpc_codes(e: EthApiError)
    ensures
        (spec_rpc_code(e) == -32001i32) <==> (e is UnknownBlockNumber || e is UnknownBlockOrTxIndex),
        (spec_rpc_code(e) == -39001i32) <==> e is UnknownSafeOrFinalizedBlock,
        e is ExecutionTimedOut ==> spec_rpc_code(e) == -32000i32,
        is_internal_failure(e) ==> spec_rpc_code(e) == -32603i32,
        e matches EthApiError::PoolError(RpcPoolError::Invalid(err)) ==> spec_rpc_code(e) == spec_error_code(err),
        (e matches EthApiError::PoolError(p) && !(p is Invalid)) ==> spec_rpc_code(e) == -32603i32,
{
}

/// A provider failure becomes an unknown safe or finalized block exactly when the finalized or
/// the safe block is missing, and is then answered with -39001; it becomes an unknown block
/// number exactly when another block is not known, answered with -32001; any other failure is
/// internal, with its text.
pub proof fn lemma_missing_blocks(err: ProviderError)
    ensures
        (spec_from_provider(err) == EthApiError::UnknownSafeOrFinalizedBlock) <==> (err is FinalizedBlockNotFound || err is SafeBlockNotFound),
        (spec_rpc_code(spec_from_provider(err)) == -39001i32) <==> (err is FinalizedBlockNotFound || err is SafeBlockNotFound),
        (spec_from_provider(err) == EthApiError::UnknownBlockNumber) <==> is_missing_block(err),
        (spec_rpc_code(spec_from_provider(err)) == -32001i32) <==> is_missing_block(err),
        err matches ProviderError::Other(text) ==> spec_from_provider(err) == EthApiError::Internal(text),
{
}

/// The `eth_` error for an error of the EVM; there is none for an error of the database,
/// which cannot fail, nor for a refused transaction without an RPC error.
pub open spec fn spec_from_evm(err: EvmError) -> Option<EthApiError> {
    match err {
        EvmError::Transaction(t) => match spec_from_invalid_transaction(t) {
            Some(e) => Some(EthApiError::InvalidTransaction(e)),
            None => None,
        },
        EvmError::Header(InvalidHeader::PrevrandaoNotSet) => Some(EthApiError::PrevrandaoNotSet),
        EvmError::Header(InvalidHeader::ExcessBlobGasNotSet) => Some(EthApiError::ExcessBlobGasNotSet),
        EvmError::Custom(data) => Some(EthApiError::EvmCustom(data)),
        EvmError::Database => None,
    }
}

impl RpcPoolError {
    /// The code the error is answered with: that of the invalid transaction, or an internal
    /// error.
    pub fn error_code(&self) -> (c: i32)
        ensures
            c == spec_pool_code(*self),
    {
        match self {
            RpcPoolError::Invalid(err) => err.error_code(),
            _ => INTERNAL_ERROR_CODE,
        }
    }
}

impl EthApiError {
    /// The code the error is answered with.
    pub fn rpc_error_code(&self) -> (c: i32)
        ensures
            c == spec_rpc_code(*self),
            (c == -32602i32) <==> is_malformed_request(*self),
            (c == -32001i32) <==> (*self is UnknownBlockNumber || *self is UnknownBlockOrTxIndex),
            (c == -39001i32) <==> *self is UnknownSafeOrFinalizedBlock,
            *self is ExecutionTimedOut ==> c == -32000i32,
            is_internal_failure(*self) ==> c == -32603i32,
            *self matches EthApiError::InvalidTransaction(err) ==> c == spec_error_code(err),
    {
        match self {
            EthApiError::FailedToDecodeSignedTransaction
            | EthApiError::InvalidTransactionSignature
            | EthApiError::EmptyRawTransactionData
            | EthApiError::InvalidBlockRange
            | EthApiError::ConflictingFeeFieldsInRequest
            | EthApiError::Signing(_)
            | EthApiError::BothStateAndStateDiffInOverride(_)
            | EthApiError::InvalidTracerConfig
            | EthApiError::InvalidParams(_)
            | EthApiError::TransactionInputError(_) => INVALID_PARAMS_CODE,
            EthApiError::InvalidTransaction(err) => err.error_code(),
            EthApiError::PoolError(err) => err.error_code(),
            EthApiError::UnknownBlockNumber | EthApiError::UnknownBlockOrTxIndex => RESOURCE_NOT_FOUND_CODE,
            EthApiError::UnknownSafeOrFinalizedBlock => UNKNOWN_BLOCK_CODE,
            EthApiError::ExecutionTimedOut { .. } => CALL_EXECUTION_FAILED_CODE,
            _ => INTERNAL_ERROR_CODE,
        }
    }

    /// The JSON-RPC answer to the error, given the error's text: the code, the message (the
    /// error's own message where it carries one, the text otherwise) and, for a revert with
    /// output, the output in hexadecimal.
    pub fn to_rpc_error(&self, text: String) -> (o: RpcErrorObject)
        ensures
            o.code == spec_rpc_code(*self),
            (o.code == -32602i32) <==> is_malformed_request(*self),
            o.message@ == spec_rpc_message(*self, text@),
            match spec_rpc_data(*self) {
                Some(d) => o.data matches Some(s) && s@ == d,
                None => o.data is None,
            },
    {
        let code = self.rpc_error_code();
        let message = match self {
            EthApiError::Unsupported(msg) => msg.clone(),
            EthApiError::InternalJsTracerError(msg) => msg.clone(),
            EthApiError::InvalidParams(msg) => msg.clone(),
            _ => text,
        };
        let revert = match self {
            EthApiError::InvalidTransaction(RpcInvalidTransactionError::Revert(r)) => Some(r),
            EthApiError::PoolError(RpcPoolError::Invalid(RpcInvalidTransactionError::Revert(r))) => Some(r),
            _ => None,
        };
        let data = match revert {
            Some(r) => match r.output() {
                Some(out) => Some(hex_data(out.as_slice())),
                None => None,
            },
            None => None,
        };
        RpcErrorObject { code, message, data }
    }

    /// The error for a provider failure.
    pub fn from_provider_error(err: ProviderError) -> (e: Self)
        ensures
            e == spec_from_provider(err),
            (e == EthApiError::UnknownSafeOrFinalizedBlock) <==> (err is FinalizedBlockNotFound || err is SafeBlockNotFound),
            (e == EthApiError::UnknownBlockNumber) <==> is_missing_block(err),
            err matches ProviderError::Other(text) ==> e == EthApiError::Internal(text),
    {
        match err {
            ProviderError::HeaderNotFound
            | ProviderError::BlockHashNotFound
            | ProviderError::BestBlockNotFound
            | ProviderError::BlockNumberForTransactionIndexNotFound
            | ProviderError::TotalDifficultyNotFound
            | ProviderError::UnknownBlockHash => EthApiError::UnknownBlockNumber,
            ProviderError::FinalizedBlockNotFound | ProviderError::SafeBlockNotFound => EthApiError::UnknownSafeOrFinalizedBlock,
            ProviderError::Other(text) => EthApiError::Internal(text),
        }
    }

    /// The error for an error of the EVM; the database cannot fail, and a transaction the EVM
    /// refused for a reason with no RPC error has none.
    pub fn from_evm_error(err: EvmError) -> (e: Self)
        requires
            !(err is Database),
            !(err matches EvmError::Transaction(t) && t is Other),
        ensures
            spec_from_evm(err) == Some(e),
    {
        match err {
            EvmError::Transaction(t) => EthApiError::InvalidTransaction(RpcInvalidTransactionError::from_invalid_transaction(t)),
            EvmError::Header(InvalidHeader::PrevrandaoNotSet) => EthApiError::PrevrandaoNotSet,
            EvmError::Header(InvalidHeader::ExcessBlobGasNotSet) => EthApiError::ExcessBlobGasNotSet,
            EvmError::Custom(data) => EthApiError::EvmCustom(data),
            EvmError::Database => {
                proof { assert(false); }
                EthApiError::InternalEthError
            },
        }
    }
}

/// The output of a transaction that ran; a revert is an error carrying its output, and a halt
/// is an error carrying the gas used as the transaction's gas limit.
pub fn ensure_success(result: ExecutionResult) -> (r: Result<Vec<u8>, EthApiError>)
    ensures
        result matches ExecutionResult::Success { output } ==> r matches Ok(o) && o@ == output@,
        result matches ExecutionResult::Revert { output } ==> r matches Err(EthApiError::InvalidTransaction(RpcInvalidTransactionError::Revert(rev)))
            && (output@.len() == 0 ==> rev.spec_output() is None)
            && (output@.len() > 0 ==> rev.spec_output() == Some(output@)),
        result matches ExecutionResult::Halt { reason, gas_used } ==> r == Err::<Vec<u8>, EthApiError>(EthApiError::InvalidTransaction(spec_halt(reason, gas_used))),
{
    match result {
        ExecutionResult::Success { output } => Ok(output),
        ExecutionResult::Revert { output } => Err(EthApiError::InvalidTransaction(RpcInvalidTransactionError::Revert(RevertError::new(output)))),
        ExecutionResult::Halt { reason, gas_used } => Err(EthApiError::InvalidTransaction(RpcInvalidTransactionError::halt(reason, gas_used))),
    }
}

/// The last `width` decimal digits of `n`, with leading zeros.
pub open spec fn padded(n: nat, width: nat) -> Seq<char>
    decreases width,
{
    if width == 0 {
        Seq::empty()
    } else {
        padded(n / 10, (width - 1) as nat).push(digit_char(n % 10))
    }
}

/// A fraction of `width` digits with its trailing zeros dropped: what is left of the digits,
/// and how many are left.
pub open spec fn trimmed(frac: nat, width: nat) -> (nat, nat)
    decreases width,
{
    if width > 0 && frac > 0 && frac % 10 == 0 {
        trimmed(frac / 10, (width - 1) as nat)
    } else {
        (frac, width)
    }
}

/// An amount with a fraction of `width` digits and a unit: the integer part in decimal, the
/// fraction's digits after a point, without trailing zeros and only when it is not zero, then
/// the unit.
pub open spec fn with_fraction(integer: nat, frac: nat, width: nat, unit: Seq<char>) -> Seq<char> {
    decimal(integer) + (if frac == 0 { Seq::empty() } else {
        "."@ + padded(trimmed(frac, width).0, trimmed(frac, width).1)
    }) + unit
}

/// The text of a duration of `secs` seconds and `nanos` nanoseconds, as std's `Debug` for
/// durations writes it: in seconds when there is a whole second, else in milliseconds,
/// microseconds or nanoseconds, the largest unit with a whole one.
pub open spec fn duration_debug(secs: u64, nanos: u32) -> Seq<char> {
    if secs > 0 {
        with_fraction(secs as nat, nanos as nat, 9, "s"@)
    } else if nanos >= 1_000_000 {
        with_fraction((nanos / 1_000_000) as nat, (nanos % 1_000_000) as nat, 6, "ms"@)
    } else if nanos >= 1_000 {
        with_fraction((nanos / 1_000) as nat, (nanos % 1_000) as nat, 3, "\u{b5}s"@)
    } else {
        decimal(nanos as nat) + "ns"@
    }
}

/// Appends the last `width` decimal digits of `n`, with leading zeros.
fn append_padded(s: &mut String, n: u64, width: u64)
    ensures
        final(s)@ == old(s)@ + padded(n as nat, width as nat),
    decreases width,
{
    if width > 0 {
        append_padded(s, n / 10, width - 1);
        s.append(digit_str(n % 10));
        assert(padded(n as nat, width as nat) == padded((n / 10) as nat, (width - 1) as nat).push(digit_char((n % 10) as nat)));
    }
}

/// Appends an amount with a fraction of `width` digits and a unit.
fn append_with_fraction(s: &mut String, integer: u64, frac: u64, width: u64, unit: &str)
    ensures
        final(s)@ == old(s)@ + with_fraction(integer as nat, frac as nat, width as nat, unit@),
{
    proof { reveal_strlit("."); }
    let ghost start = s@;
    append_decimal(s, integer);
    if frac != 0 {
        let mut f = frac;
        let mut w = width;
        while w > 0 && f > 0 && f % 10 == 0
            invariant
                trimmed(f as nat, w as nat) == trimmed(frac as nat, width as nat),
            decreases w,
        {
            f = f / 10;
            w = w - 1;
        }
        s.append(".");
        append_padded(s, f, w);
    }
    s.append(unit);
    assert(s@ =~= start + with_fraction(integer as nat, frac as nat, width as nat, unit@));
}

/// The text of the duration of `secs` seconds and `nanos` nanoseconds, as std's `Debug` for
/// durations writes it.
fn duration_text(secs: u64, nanos: u32) -> (s: String)
    requires
        nanos < 1_000_000_000,
    ensures
        s@ == duration_debug(secs, nanos),
{
    let mut s = String::new();
    if secs > 0 {
        append_with_fraction(&mut s, secs, nanos as u64, 9, "s");
    } else if nanos >= 1_000_000 {
        append_with_fraction(&mut s, (nanos / 1_000_000) as u64, (nanos % 1_000_000) as u64, 6, "ms");
    } else if nanos >= 1_000 {
        append_with_fraction(&mut s, (nanos / 1_000) as u64, (nanos % 1_000) as u64, 3, "\u{b5}s");
    } else {
        append_decimal(&mut s, nanos as u64);
        s.append("ns");
    }
    s
}

/// The view of an optional text.
pub open spec fn text_view(t: Option<&str>) -> Option<Seq<char>> {
    match t {
        Some(s) => Some(s@),
        None => None,
    }
}

/// The name of a way of running out of gas.
pub open spec fn out_of_gas_name(e: OutOfGasError) -> Seq<char> {
    match e {
        OutOfGasError::Basic => "Basic"@,
        OutOfGasError::MemoryLimit => "MemoryLimit"@,
        OutOfGasError::Memory => "Memory"@,
        OutOfGasError::Precompile => "Precompile"@,
        OutOfGasError::InvalidOperand => "InvalidOperand"@,
    }
}

/// The text of a halt reason.
pub open spec fn halt_text(r: HaltReason) -> Seq<char> {
    match r {
        HaltReason::OutOfGas(e) => "OutOfGas("@ + out_of_gas_name(e) + ")"@,
        HaltReason::NonceOverflow => "NonceOverflow"@,
        HaltReason::Other(name) => name@,
    }
}

/// The text of a revert, given its decoded reason, if any.
pub open spec fn revert_text(reason: Option<Seq<char>>) -> Seq<char> {
    match reason {
        Some(r) => "execution reverted: "@ + r,
        None => "execution reverted"@,
    }
}

/// The text of an invalid transaction error, given the decoded reason of a revert.
pub open spec fn tx_text(e: RpcInvalidTransactionError, reason: Option<Seq<char>>) -> Seq<char> {
    match e {
        RpcInvalidTransactionError::NonceTooLow => "nonce too low"@,
        RpcInvalidTransactionError::NonceTooHigh => "nonce too high"@,
        RpcInvalidTransactionError::NonceMaxValue => "nonce has max value"@,
        RpcInvalidTransactionError::InsufficientFundsForTransfer => "insufficient funds for transfer"@,
        RpcInvalidTransactionError::MaxInitCodeSizeExceeded => "max initcode size exceeded"@,
        RpcInvalidTransactionError::InsufficientFunds => "insufficient funds for gas * price + value"@,
        RpcInvalidTransactionError::GasUintOverflow => "gas uint64 overflow"@,
        RpcInvalidTransactionError::GasTooLow => "intrinsic gas too low"@,
        RpcInvalidTransactionError::GasTooHigh => "intrinsic gas too high"@,
        RpcInvalidTransactionError::TxTypeNotSupported => "transaction type not supported"@,
        RpcInvalidTransactionError::TipAboveFeeCap => "max priority fee per gas higher than max fee per gas"@,
        RpcInvalidTransactionError::TipVeryHigh => "max priority fee per gas higher than 2^256-1"@,
        RpcInvalidTransactionError::FeeCapVeryHigh => "max fee per gas higher than 2^256-1"@,
        RpcInvalidTransactionError::FeeCapTooLow => "max fee per gas less than block base fee"@,
        RpcInvalidTransactionError::SenderNoEOA => "sender not an eoa"@,
        RpcInvalidTransactionError::BasicOutOfGas(g) => "Out of gas: gas required exceeds allowance: "@ + decimal(g as nat),
        RpcInvalidTransactionError::MemoryOutOfGas(g) => "Out of gas: gas exhausts during memory expansion: "@ + decimal(g as nat),
        RpcInvalidTransactionError::PrecompileOutOfGas(g) => "Out of gas: gas exhausts during precompiled contract execution: "@ + decimal(g as nat),
        RpcInvalidTransactionError::InvalidOperandOutOfGas(g) => "Out of gas: revm's Type cast error, U256 casts down to a u64 with overflow "@ + decimal(g as nat),
        RpcInvalidTransactionError::Revert(_) => revert_text(reason),
        RpcInvalidTransactionError::EvmHalt(r) => "EVM error "@ + halt_text(r),
        RpcInvalidTransactionError::InvalidChainId => "Invalid chain id"@,
        RpcInvalidTransactionError::OldLegacyChainId => "Transactions before Spurious Dragon should not have a chain ID."@,
        RpcInvalidTransactionError::AccessListNotSupported => "Transactions before Berlin should not have access list"@,
        RpcInvalidTransactionError::MaxFeePerBlobGasNotSupported => "max_fee_per_blob_gas is not supported for blocks before the Cancun hard fork."@,
        RpcInvalidTransactionError::BlobVersionedHashesNotSupported => "blob_versioned_hashes is not supported for blocks before the Cancun hard fork."@,
        RpcInvalidTransactionError::BlobFeeCapTooLow => "max fee per blob gas less than block blob gas fee"@,
        RpcInvalidTransactionError::BlobHashVersionMismatch => "blob hash version mismatch"@,
        RpcInvalidTransactionError::BlobTransactionMissingBlobHashes => "blob transaction missing blob hashes"@,
        RpcInvalidTransactionError::TooManyBlobs => "blob transaction exceeds max blobs per block"@,
        RpcInvalidTransactionError::BlobTransactionIsCreate => "blob transaction is a create transaction"@,
    }
}

/// The text of a pool error, given the decoded reason of a revert.
pub open spec fn pool_text(e: RpcPoolError, reason: Option<Seq<char>>) -> Seq<char> {
    match e {
        RpcPoolError::AlreadyKnown => "already known"@,
        RpcPoolError::InvalidSender => "invalid sender"@,
        RpcPoolError::Underpriced => "transaction underpriced"@,
        RpcPoolError::TxPoolOverflow => "txpool is full"@,
        RpcPoolError::ReplaceUnderpriced => "replacement transaction underpriced"@,
        RpcPoolError::ExceedsGasLimit => "exceeds block gas limit"@,
        RpcPoolError::NegativeValue => "negative value"@,
        RpcPoolError::OversizedData => "oversized data"@,
        RpcPoolError::ExceedsMaxInitCodeSize => "max initcode size exceeded"@,
        RpcPoolError::Invalid(err) => tx_text(err, reason),
        RpcPoolError::PoolTransactionError(t) => t@,
        RpcPoolError::Eip4844(t) => t@,
        RpcPoolError::AddressAlreadyReserved => "address already reserved"@,
        RpcPoolError::Other(t) => t@,
    }
}

/// The text of an `eth_` error, given the decoded reason of a revert.
pub open spec fn eth_text(e: EthApiError, reason: Option<Seq<char>>) -> Seq<char> {
    match e {
        EthApiError::EmptyRawTransactionData => "Empty transaction data"@,
        EthApiError::FailedToDecodeSignedTransaction => "Failed to decode signed transaction"@,
        EthApiError::InvalidTransactionSignature => "Invalid transaction signature"@,
        EthApiError::PoolError(err) => pool_text(err, reason),
        EthApiError::UnknownBlockNumber => "Unknown block number"@,
        EthApiError::UnknownSafeOrFinalizedBlock => "Unknown block"@,
        EthApiError::UnknownBlockOrTxIndex => "unknown block or tx index"@,
        EthApiError::InvalidBlockRange => "Invalid block range"@,
        EthApiError::PrevrandaoNotSet => "Prevrandao not in the EVM's environment after merge"@,
        EthApiError::ExcessBlobGasNotSet => "Excess blob gas missing in the EVM's environment after Cancun"@,
        EthApiError::ConflictingFeeFieldsInRequest => "Both gasPrice and (maxFeePerGas or maxPriorityFeePerGas) specified"@,
        EthApiError::InvalidTransaction(err) => tx_text(err, reason),
        EthApiError::InvalidBlockData(t) => t@,
        EthApiError::BothStateAndStateDiffInOverride(a) => "Account "@ + "0x"@ + hex_of(a@) + " has both 'state' and 'stateDiff'"@,
        EthApiError::Internal(t) => t@,
        EthApiError::Signing(err) => sign_text(err),
        EthApiError::TransactionNotFound => "transaction not found"@,
        EthApiError::Unsupported(_) => "unsupported"@,
        EthApiError::InvalidParams(t) => t@,
        EthApiError::InvalidTracerConfig => "invalid tracer config"@,
        EthApiError::InvalidRewardPercentiles => "invalid reward percentiles"@,
        EthApiError::InternalBlockingTaskError => "internal blocking task error"@,
        EthApiError::InternalEthError => "internal eth error"@,
        EthApiError::ExecutionTimedOut { secs, nanos } => "execution aborted (timeout = "@ + duration_debug(secs, nanos) + ")"@,
        EthApiError::InternalJsTracerError(t) => t@,
        EthApiError::TransactionInputError(t) => t@,
        EthApiError::EvmCustom(t) => "Revm error: "@ + t@,
    }
}

/// The text of a signing error.
pub open spec fn sign_text(e: SignError) -> Seq<char> {
    match e {
        SignError::CouldNotSign => "Could not sign"@,
        SignError::NoAccount => "Unknown account"@,
        SignError::InvalidTypedData => "Given typed data is not valid"@,
        SignError::InvalidTransactionRequest => "Invalid transaction request"@,
        SignError::NoChainId => "No chain id"@,
    }
}

/// Text that is `prefix`, then `middle`, then `suffix`.
fn framed(prefix: &str, middle: &str, suffix: &str) -> (s: String)
    ensures
        s@ == prefix@ + middle@ + suffix@,
{
    let mut s = prefix.to_owned();
    s.append(middle);
    s.append(suffix);
    s
}

/// Text that is `prefix` followed by `rest`.
fn prefixed(prefix: &str, rest: &str) -> (s: String)
    ensures
        s@ == prefix@ + rest@,
{
    let mut s = prefix.to_owned();
    s.append(rest);
    s
}

/// Text that is `prefix` followed by the decimal representation of `n`.
fn with_decimal(prefix: &str, n: u64) -> (s: String)
    ensures
        s@ == prefix@ + decimal(n as nat),
{
    let mut s = prefix.to_owned();
    append_decimal(&mut s, n);
    s
}

/// The text of a halt reason.
fn halt_message(r: &HaltReason) -> (s: String)
    ensures
        s@ == halt_text(*r),
{
    match r {
        HaltReason::OutOfGas(e) => {
            let name = match e {
                OutOfGasError::Basic => "Basic",
                OutOfGasError::MemoryLimit => "MemoryLimit",
                OutOfGasError::Memory => "Memory",
                OutOfGasError::Precompile => "Precompile",
                OutOfGasError::InvalidOperand => "InvalidOperand",
            };
            framed("OutOfGas(", name, ")")
        },
        HaltReason::NonceOverflow => "NonceOverflow".to_owned(),
        HaltReason::Other(name) => name.clone(),
    }
}

impl RpcInvalidTransactionError {
    /// The text of the error; a revert's text carries the reason decoded from its output.
    pub fn message(&self, revert_reason: Option<&str>) -> (s: String)
        ensures
            s@ == tx_text(*self, text_view(revert_reason)),
    {
        match self {
            RpcInvalidTransactionError::NonceTooLow => "nonce too low".to_owned(),
            RpcInvalidTransactionError::NonceTooHigh => "nonce too high".to_owned(),
            RpcInvalidTransactionError::NonceMaxValue => "nonce has max value".to_owned(),
            RpcInvalidTransactionError::InsufficientFundsForTransfer => "insufficient funds for transfer".to_owned(),
            RpcInvalidTransactionError::MaxInitCodeSizeExceeded => "max initcode size exceeded".to_owned(),
            RpcInvalidTransactionError::InsufficientFunds => "insufficient funds for gas * price + value".to_owned(),
            RpcInvalidTransactionError::GasUintOverflow => "gas uint64 overflow".to_owned(),
            RpcInvalidTransactionError::GasTooLow => "intrinsic gas too low".to_owned(),
            RpcInvalidTransactionError::GasTooHigh => "intrinsic gas too high".to_owned(),
            RpcInvalidTransactionError::TxTypeNotSupported => "transaction type not supported".to_owned(),
            RpcInvalidTransactionError::TipAboveFeeCap => "max priority fee per gas higher than max fee per gas".to_owned(),
            RpcInvalidTransactionError::TipVeryHigh => "max priority fee per gas higher than 2^256-1".to_owned(),
            RpcInvalidTransactionError::FeeCapVeryHigh => "max fee per gas higher than 2^256-1".to_owned(),
            RpcInvalidTransactionError::FeeCapTooLow => "max fee per gas less than block base fee".to_owned(),
            RpcInvalidTransactionError::SenderNoEOA => "sender not an eoa".to_owned(),
            RpcInvalidTransactionError::BasicOutOfGas(g) => with_decimal("Out of gas: gas required exceeds allowance: ", *g),
            RpcInvalidTransactionError::MemoryOutOfGas(g) => with_decimal("Out of gas: gas exhausts during memory expansion: ", *g),
            RpcInvalidTransactionError::PrecompileOutOfGas(g) => with_decimal("Out of gas: gas exhausts during precompiled contract execution: ", *g),
            RpcInvalidTransactionError::InvalidOperandOutOfGas(g) => with_decimal("Out of gas: revm's Type cast error, U256 casts down to a u64 with overflow ", *g),
            RpcInvalidTransactionError::Revert(_) => match revert_reason {
                Some(reason) => prefixed("execution reverted: ", reason),
                None => "execution reverted".to_owned(),
            },
            RpcInvalidTransactionError::EvmHalt(r) => {
                let halt = halt_message(r);
                prefixed("EVM error ", halt.as_str())
            },
            RpcInvalidTransactionError::InvalidChainId => "Invalid chain id".to_owned(),
            RpcInvalidTransactionError::OldLegacyChainId => "Transactions before Spurious Dragon should not have a chain ID.".to_owned(),
            RpcInvalidTransactionError::AccessListNotSupported => "Transactions before Berlin should not have access list".to_owned(),
            RpcInvalidTransactionError::MaxFeePerBlobGasNotSupported => "max_fee_per_blob_gas is not supported for blocks before the Cancun hard fork.".to_owned(),
            RpcInvalidTransactionError::BlobVersionedHashesNotSupported => "blob_versioned_hashes is not supported for blocks before the Cancun hard fork.".to_owned(),
            RpcInvalidTransactionError::BlobFeeCapTooLow => "max fee per blob gas less than block blob gas fee".to_owned(),
            RpcInvalidTransactionError::BlobHashVersionMismatch => "blob hash version mismatch".to_owned(),
            RpcInvalidTransactionError::BlobTransactionMissingBlobHashes => "blob transaction missing blob hashes".to_owned(),
            RpcInvalidTransactionError::TooManyBlobs => "blob transaction exceeds max blobs per block".to_owned(),
            RpcInvalidTransactionError::BlobTransactionIsCreate => "blob transaction is a create transaction".to_owned(),
        }
    }
}

impl RpcPoolError {
    /// The text of the error; a revert's text carries the reason decoded from its output.
    pub fn message(&self, revert_reason: Option<&str>) -> (s: String)
        ensures
            s@ == pool_text(*self, text_view(revert_reason)),
    {
        match self {
            RpcPoolError::AlreadyKnown => "already known".to_owned(),
            RpcPoolError::InvalidSender => "invalid sender".to_owned(),
            RpcPoolError::Underpriced => "transaction underpriced".to_owned(),
            RpcPoolError::TxPoolOverflow => "txpool is full".to_owned(),
            RpcPoolError::ReplaceUnderpriced => "replacement transaction underpriced".to_owned(),
            RpcPoolError::ExceedsGasLimit => "exceeds block gas limit".to_owned(),
            RpcPoolError::NegativeValue => "negative value".to_owned(),
            RpcPoolError::OversizedData => "oversized data".to_owned(),
            RpcPoolError::ExceedsMaxInitCodeSize => "max initcode size exceeded".to_owned(),
            RpcPoolError::Invalid(err) => err.message(revert_reason),
            RpcPoolError::PoolTransactionError(t) => t.clone(),
            RpcPoolError::Eip4844(t) => t.clone(),
            RpcPoolError::AddressAlreadyReserved => "address already reserved".to_owned(),
            RpcPoolError::Other(t) => t.clone(),
        }
    }
}

impl EthApiError {
    /// The text of the error; a revert's text carries the reason decoded from its output.
    pub fn message(&self, revert_reason: Option<&str>) -> (s: String)
        requires
            self matches EthApiError::ExecutionTimedOut { nanos, .. } ==> nanos < 1_000_000_000,
        ensures
            s@ == eth_text(*self, text_view(revert_reason)),
    {
        match self {
            EthApiError::EmptyRawTransactionData => "Empty transaction data".to_owned(),
            EthApiError::FailedToDecodeSignedTransaction => "Failed to decode signed transaction".to_owned(),
            EthApiError::InvalidTransactionSignature => "Invalid transaction signature".to_owned(),
            EthApiError::PoolError(err) => err.message(revert_reason),
            EthApiError::UnknownBlockNumber => "Unknown block number".to_owned(),
            EthApiError::UnknownSafeOrFinalizedBlock => "Unknown block".to_owned(),
            EthApiError::UnknownBlockOrTxIndex => "unknown block or tx index".to_owned(),
            EthApiError::InvalidBlockRange => "Invalid block range".to_owned(),
            EthApiError::PrevrandaoNotSet => "Prevrandao not in the EVM's environment after merge".to_owned(),
            EthApiError::ExcessBlobGasNotSet => "Excess blob gas missing in the EVM's environment after Cancun".to_owned(),
            EthApiError::ConflictingFeeFieldsInRequest => "Both gasPrice and (maxFeePerGas or maxPriorityFeePerGas) specified".to_owned(),
            EthApiError::InvalidTransaction(err) => err.message(revert_reason),
            EthApiError::InvalidBlockData(t) => t.clone(),
            EthApiError::BothStateAndStateDiffInOverride(a) => {
                let address = hex_data(a);
                let m = framed("Account ", address.as_str(), " has both 'state' and 'stateDiff'");
                assert(m@ =~= "Account "@ + "0x"@ + hex_of(a@) + " has both 'state' and 'stateDiff'"@);
                m
            },
            EthApiError::Internal(t) => t.clone(),
            EthApiError::Signing(err) => err.message().to_owned(),
            EthApiError::TransactionNotFound => "transaction not found".to_owned(),
            EthApiError::Unsupported(_) => "unsupported".to_owned(),
            EthApiError::InvalidParams(t) => t.clone(),
            EthApiError::InvalidTracerConfig => "invalid tracer config".to_owned(),
            EthApiError::InvalidRewardPercentiles => "invalid reward percentiles".to_owned(),
            EthApiError::InternalBlockingTaskError => "internal blocking task error".to_owned(),
            EthApiError::InternalEthError => "internal eth error".to_owned(),
            EthApiError::ExecutionTimedOut { secs, nanos } => {
                let d = duration_text(*secs, *nanos);
                framed("execution aborted (timeout = ", d.as_str(), ")")
            },
            EthApiError::InternalJsTracerError(t) => t.clone(),
            EthApiError::TransactionInputError(t) => t.clone(),
            EthApiError::EvmCustom(t) => prefixed("Revm error: ", t.as_str()),
        }
    }
}

} // verus!
