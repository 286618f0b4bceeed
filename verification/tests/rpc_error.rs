use protocol_units::aptos_vm::rpc_error::{
    ensure_success, hex_data, EthApiError, EvmError, ExecutionResult, HaltReason, InvalidHeader,
    InvalidTransaction, InvalidTransactionError, OutOfGasError, ProviderError, RevertError,
    RpcInvalidTransactionError, RpcPoolError, CALL_EXECUTION_FAILED_CODE, EXECUTION_ERROR_CODE,
    INTERNAL_ERROR_CODE, INVALID_INPUT_CODE, INVALID_PARAMS_CODE, RESOURCE_NOT_FOUND_CODE,
    TRANSACTION_REJECTED_CODE, UNKNOWN_BLOCK_CODE,
};
use protocol_units::aptos_vm::SignError;
use protocol_units::aptos_vm::rpc_error::InvalidTransaction as I;
use protocol_units::aptos_vm::rpc_error::InvalidTransactionError as C;
use protocol_units::aptos_vm::rpc_error::RpcInvalidTransactionError as R;

#[test]
fn invalid_transactions_map_to_rpc_errors() {
    let cases = vec![
        (I::InvalidChainId, R::InvalidChainId),
        (I::PriorityFeeGreaterThanMaxFee, R::TipAboveFeeCap),
        (I::GasPriceLessThanBasefee, R::FeeCapTooLow),
        (I::CallerGasLimitMoreThanBlock, R::GasTooHigh),
        (I::CallGasCostMoreThanGasLimit, R::GasTooHigh),
        (I::RejectCallerWithCode, R::SenderNoEOA),
        (I::LackOfFundForMaxFee, R::InsufficientFunds),
        (I::OverflowPaymentInTransaction, R::GasUintOverflow),
        (I::NonceOverflowInTransaction, R::NonceMaxValue),
        (I::CreateInitCodeSizeLimit, R::MaxInitCodeSizeExceeded),
        (I::NonceTooHigh { tx: 5, state: 3 }, R::NonceTooHigh),
        (I::NonceTooLow { tx: 1, state: 3 }, R::NonceTooLow),
        (I::AccessListNotSupported, R::AccessListNotSupported),
        (I::MaxFeePerBlobGasNotSupported, R::MaxFeePerBlobGasNotSupported),
        (I::BlobVersionedHashesNotSupported, R::BlobVersionedHashesNotSupported),
        (I::BlobGasPriceGreaterThanMax, R::BlobFeeCapTooLow),
        (I::EmptyBlobs, R::BlobTransactionMissingBlobHashes),
        (I::BlobVersionNotSupported, R::BlobHashVersionMismatch),
        (I::TooManyBlobs, R::TooManyBlobs),
        (I::BlobCreateTransaction, R::BlobTransactionIsCreate),
    ];
    for (from, to) in cases {
        assert_eq!(R::from_invalid_transaction(from), to);
    }
}

#[test]
fn consensus_errors_map_to_rpc_errors() {
    assert_eq!(R::from_consensus(C::InsufficientFunds), R::InsufficientFunds);
    assert_eq!(R::from_consensus(C::NonceNotConsistent), R::NonceTooLow);
    assert_eq!(R::from_consensus(C::OldLegacyChainId), R::OldLegacyChainId);
    assert_eq!(R::from_consensus(C::ChainIdMismatch), R::InvalidChainId);
    for c in [C::Eip2930Disabled, C::Eip1559Disabled, C::Eip4844Disabled, C::TxTypeNotSupported] {
        assert_eq!(R::from_consensus(c), R::TxTypeNotSupported);
    }
    assert_eq!(R::from_consensus(C::GasUintOverflow), R::GasUintOverflow);
    assert_eq!(R::from_consensus(C::GasTooLow), R::GasTooLow);
    assert_eq!(R::from_consensus(C::GasTooHigh), R::GasTooHigh);
    assert_eq!(R::from_consensus(C::TipAboveFeeCap), R::TipAboveFeeCap);
    assert_eq!(R::from_consensus(C::FeeCapTooLow), R::FeeCapTooLow);
    assert_eq!(R::from_consensus(C::SignerAccountHasBytecode), R::SenderNoEOA);
}

#[test]
fn halts_and_out_of_gas_carry_the_gas_limit() {
    assert_eq!(R::out_of_gas(OutOfGasError::Basic, 21000), R::BasicOutOfGas(21000));
    assert_eq!(R::out_of_gas(OutOfGasError::Memory, 7), R::MemoryOutOfGas(7));
    assert_eq!(R::out_of_gas(OutOfGasError::MemoryLimit, 8), R::MemoryOutOfGas(8));
    assert_eq!(R::out_of_gas(OutOfGasError::Precompile, 9), R::PrecompileOutOfGas(9));
    assert_eq!(R::out_of_gas(OutOfGasError::InvalidOperand, 10), R::InvalidOperandOutOfGas(10));
    assert_eq!(R::halt(HaltReason::OutOfGas(OutOfGasError::Basic), 5), R::BasicOutOfGas(5));
    assert_eq!(R::halt(HaltReason::NonceOverflow, 5), R::NonceMaxValue);
    assert_eq!(
        R::halt(HaltReason::Other("StackOverflow".to_string()), 5),
        R::EvmHalt(HaltReason::Other("StackOverflow".to_string()))
    );
}

#[test]
fn error_codes() {
    assert_eq!(R::InvalidChainId.error_code(), INVALID_INPUT_CODE);
    assert_eq!(R::GasTooLow.error_code(), -32000);
    assert_eq!(R::GasTooHigh.error_code(), -32000);
    assert_eq!(R::Revert(RevertError::new(vec![])).error_code(), EXECUTION_ERROR_CODE);
    assert_eq!(R::Revert(RevertError::new(vec![])).error_code(), 3);
    assert_eq!(R::NonceTooLow.error_code(), TRANSACTION_REJECTED_CODE);
    assert_eq!(R::BasicOutOfGas(1).error_code(), -32003);
    assert_eq!(RevertError::new(vec![1]).error_code(), 3);
    assert_eq!(RpcPoolError::Invalid(R::GasTooLow).error_code(), -32000);
    assert_eq!(RpcPoolError::Underpriced.error_code(), INTERNAL_ERROR_CODE);
}

#[test]
fn revert_output() {
    assert!(RevertError::new(vec![]).output().is_none());
    assert_eq!(RevertError::new(vec![0xde, 0xad]).output(), Some(&vec![0xde, 0xad]));
}

#[test]
fn hex_encoding() {
    assert_eq!(hex_data(&[]), "0x");
    assert_eq!(hex_data(&[0x00, 0x0f, 0xa0, 0xff, 0x12]), "0x000fa0ff12");
}

#[test]
fn eth_api_errors_answer_with_codes() {
    let t = || "text".to_string();
    assert_eq!(EthApiError::EmptyRawTransactionData.to_rpc_error(t()).code, INVALID_PARAMS_CODE);
    assert_eq!(EthApiError::Signing(SignError::NoAccount).to_rpc_error(t()).code, -32602);
    assert_eq!(EthApiError::BothStateAndStateDiffInOverride([1; 20]).to_rpc_error(t()).code, -32602);
    assert_eq!(EthApiError::TransactionInputError("x".to_string()).to_rpc_error(t()).code, -32602);
    assert_eq!(EthApiError::PrevrandaoNotSet.to_rpc_error(t()).code, INTERNAL_ERROR_CODE);
    assert_eq!(EthApiError::TransactionNotFound.to_rpc_error(t()).code, -32603);
    assert_eq!(EthApiError::InternalEthError.to_rpc_error(t()).code, -32603);
    assert_eq!(EthApiError::UnknownBlockNumber.to_rpc_error(t()).code, RESOURCE_NOT_FOUND_CODE);
    assert_eq!(EthApiError::UnknownBlockOrTxIndex.to_rpc_error(t()).code, -32001);
    assert_eq!(EthApiError::UnknownSafeOrFinalizedBlock.to_rpc_error(t()).code, UNKNOWN_BLOCK_CODE);
    assert_eq!(EthApiError::ExecutionTimedOut { secs: 10, nanos: 0 }.to_rpc_error(t()).code, CALL_EXECUTION_FAILED_CODE);
    assert_eq!(
        EthApiError::InvalidTransaction(RpcInvalidTransactionError::GasTooHigh).to_rpc_error(t()).code,
        INVALID_INPUT_CODE
    );
    assert_eq!(EthApiError::PoolError(RpcPoolError::AlreadyKnown).to_rpc_error(t()).code, -32603);
}

#[test]
fn eth_api_errors_answer_with_messages_and_data() {
    let o = EthApiError::Unsupported("eth_mining".to_string()).to_rpc_error("unsupported".to_string());
    assert_eq!(o.message, "eth_mining");
    assert_eq!(o.code, INTERNAL_ERROR_CODE);
    let o = EthApiError::InvalidParams("bad".to_string()).to_rpc_error("other".to_string());
    assert_eq!(o.message, "bad");
    assert_eq!(o.code, INVALID_PARAMS_CODE);
    let o = EthApiError::InternalJsTracerError("js".to_string()).to_rpc_error("other".to_string());
    assert_eq!(o.message, "js");
    let o = EthApiError::InvalidBlockRange.to_rpc_error("Invalid block range".to_string());
    assert_eq!(o.message, "Invalid block range");
    assert_eq!(o.data, None);
    let reverted = RpcInvalidTransactionError::Revert(RevertError::new(vec![0xca, 0xfe]));
    let o = EthApiError::InvalidTransaction(reverted.clone()).to_rpc_error("execution reverted".to_string());
    assert_eq!(o.code, EXECUTION_ERROR_CODE);
    assert_eq!(o.message, "execution reverted");
    assert_eq!(o.data, Some("0xcafe".to_string()));
    let o = EthApiError::PoolError(RpcPoolError::Invalid(reverted)).to_rpc_error("execution reverted".to_string());
    assert_eq!(o.data, Some("0xcafe".to_string()));
    let empty = RpcInvalidTransactionError::Revert(RevertError::new(vec![]));
    assert_eq!(EthApiError::InvalidTransaction(empty).to_rpc_error(String::new()).data, None);
}

#[test]
fn evm_and_provider_errors() {
    assert_eq!(
        EthApiError::from_evm_error(EvmError::Transaction(InvalidTransaction::InvalidChainId)),
        EthApiError::InvalidTransaction(RpcInvalidTransactionError::InvalidChainId)
    );
    assert_eq!(EthApiError::from_evm_error(EvmError::Header(InvalidHeader::PrevrandaoNotSet)), EthApiError::PrevrandaoNotSet);
    assert_eq!(EthApiError::from_evm_error(EvmError::Header(InvalidHeader::ExcessBlobGasNotSet)), EthApiError::ExcessBlobGasNotSet);
    assert_eq!(EthApiError::from_evm_error(EvmError::Custom("c".to_string())), EthApiError::EvmCustom("c".to_string()));
    assert_eq!(EthApiError::from_provider_error(ProviderError::HeaderNotFound), EthApiError::UnknownBlockNumber);
    assert_eq!(EthApiError::from_provider_error(ProviderError::TotalDifficultyNotFound), EthApiError::UnknownBlockNumber);
    assert_eq!(EthApiError::from_provider_error(ProviderError::SafeBlockNotFound), EthApiError::UnknownSafeOrFinalizedBlock);
    assert_eq!(
        EthApiError::from_provider_error(ProviderError::Other("db".to_string())),
        EthApiError::Internal("db".to_string())
    );
}

#[test]
fn execution_results() {
    assert_eq!(ensure_success(ExecutionResult::Success { output: vec![1, 2] }), Ok(vec![1, 2]));
    assert_eq!(
        ensure_success(ExecutionResult::Revert { output: vec![9] }),
        Err(EthApiError::InvalidTransaction(RpcInvalidTransactionError::Revert(RevertError::new(vec![9]))))
    );
    assert_eq!(
        ensure_success(ExecutionResult::Halt { reason: HaltReason::OutOfGas(OutOfGasError::Precompile), gas_used: 30 }),
        Err(EthApiError::InvalidTransaction(RpcInvalidTransactionError::PrecompileOutOfGas(30)))
    );
}

#[test]
fn timed_out_error() {
    let err = EthApiError::ExecutionTimedOut { secs: 10, nanos: 0 };
    assert_eq!(err.message(None), "execution aborted (timeout = 10s)");
}

#[test]
fn error_texts() {
    assert_eq!(R::NonceTooLow.message(None), "nonce too low");
    assert_eq!(R::BasicOutOfGas(21000).message(None), "Out of gas: gas required exceeds allowance: 21000");
    assert_eq!(R::Revert(RevertError::new(vec![1])).message(None), "execution reverted");
    assert_eq!(R::Revert(RevertError::new(vec![1])).message(Some("no")), "execution reverted: no");
    assert_eq!(R::EvmHalt(HaltReason::OutOfGas(OutOfGasError::Memory)).message(None), "EVM error OutOfGas(Memory)");
    assert_eq!(R::EvmHalt(HaltReason::Other("StackOverflow".to_string())).message(None), "EVM error StackOverflow");
    assert_eq!(RpcPoolError::TxPoolOverflow.message(None), "txpool is full");
    assert_eq!(RpcPoolError::Invalid(R::GasTooLow).message(None), "intrinsic gas too low");
    assert_eq!(EthApiError::Unsupported("x".to_string()).message(None), "unsupported");
    assert_eq!(EthApiError::EvmCustom("c".to_string()).message(None), "Revm error: c");
    assert_eq!(EthApiError::Signing(SignError::NoChainId).message(None), "No chain id");
    assert_eq!(
        EthApiError::BothStateAndStateDiffInOverride([0xab; 20]).message(None),
        format!("Account 0x{} has both 'state' and 'stateDiff'", "ab".repeat(20))
    );
    assert_eq!(EthApiError::ExecutionTimedOut { secs: 1, nanos: 500_000_000 }.message(None), "execution aborted (timeout = 1.5s)");
}

#[test]
fn timeout_texts_match_std_durations() {
    let cases: [(u64, u32); 12] = [
        (0, 0), (0, 7), (0, 999), (0, 1_000), (0, 1_050), (0, 1_500_000), (0, 999_999_999),
        (1, 0), (1, 5), (10, 0), (3, 250_000_000), (u64::MAX, 999_999_999),
    ];
    for (secs, nanos) in cases {
        let expected = format!("execution aborted (timeout = {:?})", std::time::Duration::new(secs, nanos));
        assert_eq!(EthApiError::ExecutionTimedOut { secs, nanos }.message(None), expected);
    }
}
