use protocol_units::settlement::anvil::pair_anvil_addresses;
use protocol_units::settlement::config::{
    append_decimal, connection_url, Config, DeployConfig, EthConnectionConfig, McrEthSettlementConfig,
    SettlementConfig, TransactionsConfig, DEFAULT_TRANSACTION_GAS_LIMIT, MRC_CONTRACT_ADDRESS,
};
use protocol_units::settlement::eth_client::{
    commitment_call, contract_commitment, CommitmentCall, StubConnectorError, StubSendPlan, MAX_TX_SEND_RETRY,
};
use protocol_units::settlement::manager::SettlementState;
use protocol_units::settlement::mock::McrSettlementClient as MockClient;
use protocol_units::settlement::send_tx::{
    contains_bytes, max_retry_exceeded, message_mentions, raise_gas, InsufficentFunds, McrEthConnectorError,
    ReceiptStep, RuleStep, SendTxError, SendTxErrorRule, SendTxPlan, UnderPriced, VerifyRule,
};
use protocol_units::settlement::stub::McrSettlementClient as StubClient;
use protocol_units::settlement::types::{
    BlockCommitment, BlockCommitmentEvent, BlockCommitmentRejectionReason, Commitment, Id,
};

fn commitment(height: u64, byte: u8) -> BlockCommitment {
    BlockCommitment::new(height, Id([0; 32]), Commitment::new([byte; 32]))
}

fn same(a: &BlockCommitment, b: &BlockCommitment) -> bool {
    a.height == b.height && a.block_id.0 == b.block_id.0 && a.commitment.0 == b.commitment.0
}

#[test]
fn mock_test_post_block_commitment() {
    let mut client = MockClient::new();
    let c = commitment(1, 7);
    let streamed = client.post_block_commitment(c);
    assert!(same(&client.get_commitment_at_height(1).unwrap(), &c));
    assert!(same(&streamed.unwrap(), &c));
    assert_eq!(client.current_height, 1);
    assert_eq!(client.get_max_tolerable_block_height(), 17);
}

#[test]
fn mock_test_stream_block_commitments() {
    let mut client = MockClient::new();
    let c = commitment(1, 7);
    let streamed = client.post_block_commitment(c).expect("not paused");
    assert!(same(&streamed, &c));
}

#[test]
fn test_override_block_commitments() {
    let mut client = MockClient::new();
    let overriding = commitment(2, 9);
    client.override_block_commitment(overriding);
    let streamed = client.post_block_commitment(commitment(2, 1)).expect("stream has ended");
    assert!(same(&streamed, &overriding));
    assert!(same(&client.get_commitment_at_height(2).unwrap(), &overriding));
}

#[test]
fn mock_first_commitment_at_a_height_settles() {
    let mut client = MockClient::new();
    let first = commitment(3, 1);
    client.post_block_commitment(first);
    let streamed = client.post_block_commitment(commitment(3, 2)).unwrap();
    assert!(same(&streamed, &first));
    assert!(same(&client.get_commitment_at_height(3).unwrap(), &first));
    assert!(client.get_commitment_at_height(4).is_none());
}

#[test]
fn mock_pause_holds_back_higher_commitments_until_resume() {
    let mut client = MockClient::new();
    client.pause_after(1);
    assert!(client.post_block_commitment(commitment(1, 1)).is_some());
    assert!(client.post_block_commitment(commitment(3, 3)).is_none());
    assert!(client.post_block_commitment(commitment(2, 2)).is_none());
    assert_eq!(client.current_height, 3);
    let resumed = client.resume();
    assert_eq!(resumed.len(), 2);
    assert!(same(&resumed[0], &commitment(2, 2)));
    assert!(same(&resumed[1], &commitment(3, 3)));
    assert!(client.post_block_commitment(commitment(4, 4)).is_some());
}

#[test]
fn stub_test_post_block_commitment() {
    let mut client = StubClient::new();
    let c = commitment(1, 7);
    client.post_block_commitment(c);
    assert!(same(&client.get_commitment_at_height(1).unwrap(), &c));
    assert_eq!(client.current_height, 1);
    assert_eq!(client.get_max_tolerable_block_height(), 17);
}

#[test]
fn stub_test_post_block_commitment_batch() {
    let mut client = StubClient::new();
    let c1 = commitment(1, 1);
    let c2 = commitment(2, 2);
    for c in [c1, c2] {
        client.post_block_commitment(c);
    }
    assert!(same(&client.get_commitment_at_height(1).unwrap(), &c1));
    assert!(same(&client.get_commitment_at_height(2).unwrap(), &c2));
}

#[test]
fn stub_test_stream_block_commitments() {
    let mut client = StubClient::new();
    let c = commitment(1, 7);
    let streamed = client.post_block_commitment(c);
    assert!(same(&streamed, &c));
}

#[test]
fn stub_last_commitment_at_a_height_is_kept() {
    let mut client = StubClient::new();
    client.post_block_commitment(commitment(5, 1));
    let second = commitment(5, 2);
    client.post_block_commitment(second);
    assert!(same(&client.get_commitment_at_height(5).unwrap(), &second));
    client.post_block_commitment(commitment(2, 3));
    assert_eq!(client.current_height, 5);
}

/// Drives the manager's decisions against the mock client, as the manager's loop does:
/// posts what the manager hands out and feeds back what the client streams.
fn run_manager(client: &mut MockClient, commitments: Vec<BlockCommitment>) -> Vec<BlockCommitmentEvent> {
    let mut state = SettlementState::new(client.get_max_tolerable_block_height());
    let mut events = Vec::new();
    for c in commitments {
        assert!(state.accepts_commitments());
        if let Some(batch) = state.on_commitment(c) {
            for posted in batch {
                if let Some(settled) = client.post_block_commitment(posted) {
                    let reply = state.on_settled(settled);
                    assert!(!reply.fell_behind);
                    if let Some(e) = reply.event {
                        events.push(e);
                    }
                    if reply.check_max_height {
                        state.on_max_height(client.get_max_tolerable_block_height());
                    }
                }
            }
        }
    }
    events
}

#[test]
fn test_block_commitment_accepted() {
    let mut client = MockClient::new();
    client.block_lead_tolerance = 1;
    let c1 = commitment(1, 1);
    let events = run_manager(&mut client, vec![c1, commitment(2, 2)]);
    match &events[0] {
        BlockCommitmentEvent::Accepted(c) => assert!(same(c, &c1)),
        _ => panic!("expected acceptance"),
    }
}

#[test]
fn test_block_commitment_rejected() {
    let mut client = MockClient::new();
    client.block_lead_tolerance = 1;
    client.override_block_commitment(commitment(1, 3));
    let events = run_manager(&mut client, vec![commitment(1, 1), commitment(2, 2)]);
    match &events[0] {
        BlockCommitmentEvent::Rejected { height, reason } => {
            assert_eq!(*height, 1);
            assert_eq!(*reason, BlockCommitmentRejectionReason::InvalidCommitment);
        }
        _ => panic!("expected rejection"),
    }
}

#[test]
fn manager_batches_until_past_max_height() {
    let mut state = SettlementState::new(2);
    assert!(state.on_commitment(commitment(1, 1)).is_none());
    assert!(state.on_commitment(commitment(2, 2)).is_none());
    assert!(state.accepts_commitments());
    let batch = state.on_commitment(commitment(3, 3)).expect("past max height");
    assert_eq!(batch.len(), 2);
    assert_eq!(batch[0].height, 1);
    assert_eq!(batch[1].height, 2);
    assert!(!state.accepts_commitments());
    state.on_max_height(2);
    assert!(!state.accepts_commitments());
    state.on_max_height(5);
    assert!(state.accepts_commitments());
    let next = state.on_commitment(commitment(6, 6)).expect("past max height again");
    assert_eq!(next.len(), 1);
    assert_eq!(next[0].height, 3);
}

#[test]
fn manager_reports_falling_behind() {
    let mut state = SettlementState::new(10);
    state.on_commitment(commitment(1, 1));
    let reply = state.on_settled(commitment(4, 4));
    assert!(reply.event.is_none());
    assert!(reply.fell_behind);
    assert!(!reply.check_max_height);
    let reply = state.on_settled(commitment(1, 1));
    assert!(matches!(reply.event, Some(BlockCommitmentEvent::Accepted(_))));
    let reply = state.on_settled(commitment(7, 7));
    assert!(!reply.fell_behind);
}

#[test]
fn send_tx_rules() {
    let underpriced = SendTxError::ErrorResp { code: -32000, message: "replacement transaction underpriced".to_string() };
    let funds = SendTxError::ErrorResp { code: -32000, message: "insufficient funds for gas".to_string() };
    let other_code = SendTxError::ErrorResp { code: -32001, message: "transaction underpriced".to_string() };
    let other = SendTxError::Other("timeout".to_string());
    let up = SendTxErrorRule::<UnderPriced>::new();
    let fu = SendTxErrorRule::<InsufficentFunds>::new();
    assert!(matches!(up.verify(&underpriced), Ok(true)));
    assert!(matches!(up.verify(&funds), Ok(false)));
    assert!(matches!(up.verify(&other_code), Ok(false)));
    assert!(matches!(up.verify(&other), Ok(false)));
    match fu.verify(&funds) {
        Err(McrEthConnectorError::InsufficientFunds(m)) => assert_eq!(m, "insufficient funds for gas"),
        _ => panic!("expected insufficient funds"),
    }
    assert!(matches!(fu.verify(&underpriced), Ok(false)));
    assert!(matches!(fu.verify(&other), Ok(false)));
}

#[test]
fn substring_search() {
    assert!(contains_bytes(b"hello world", b"o w"));
    assert!(contains_bytes(b"abc", b""));
    assert!(!contains_bytes(b"ab", b"abc"));
    assert!(!contains_bytes(b"hello", b"hex"));
    assert!(message_mentions("gas: transaction underpriced!", "transaction underpriced"));
    assert!(!message_mentions("underpriced", "transaction underpriced"));
}

#[test]
fn send_tx_plan_raises_gas() {
    assert_eq!(raise_gas(100, 20), 120);
    assert_eq!(raise_gas(105, 10), 115);
    let mut plan = SendTxPlan::new(1000, 2, 1_000_000);
    assert!(matches!(plan.gas_for_price(100), Ok(1200)));
    match plan.gas_for_price(1_000_000) {
        Err(McrEthConnectorError::GasLimitExceed(fee, limit)) => {
            assert_eq!(fee, 1_200_000_000);
            assert_eq!(limit, 1_000_000);
        }
        _ => panic!("expected the gas limit to be exceeded"),
    }
    assert!(plan.begin_attempt());
    assert!(matches!(plan.on_rule_verdict(Ok(true)), RuleStep::Resend(1320)));
    assert!(matches!(plan.gas_for_price(1), Ok(1320)));
    assert!(matches!(plan.on_rule_verdict(Ok(false)), RuleStep::NextRule));
    assert!(matches!(plan.on_rule_verdict(Err(McrEthConnectorError::EventNotificationStreamClosed)),
        RuleStep::Stop(McrEthConnectorError::EventNotificationStreamClosed)));
    assert!(matches!(plan.on_receipt(false, 1320, "r".to_string()), ReceiptStep::Retry(1452)));
    match plan.on_receipt(false, 7, "receipt".to_string()) {
        ReceiptStep::Fail(McrEthConnectorError::RpcTransactionExecution(m)) => assert_eq!(m, "receipt"),
        _ => panic!("expected failure"),
    }
    assert!(matches!(plan.on_receipt(true, 7, String::new()), ReceiptStep::Done));
    assert!(plan.begin_attempt());
    assert!(!plan.begin_attempt());
    match max_retry_exceeded() {
        McrEthConnectorError::RpcTransactionExecution(m) => {
            assert_eq!(m, "Send commitment Tx fail because of exceed max retry")
        }
        _ => panic!("expected execution error"),
    }
}

fn eth_connection(protocol: &str, host: &str, port: u16) -> EthConnectionConfig {
    EthConnectionConfig {
        eth_rpc_connection_protocol: protocol.to_string(),
        eth_rpc_connection_hostname: host.to_string(),
        eth_rpc_connection_port: port,
        eth_ws_connection_protocol: "ws".to_string(),
        eth_ws_connection_hostname: host.to_string(),
        eth_ws_connection_port: 8545,
        eth_chain_id: 3073,
    }
}

#[test]
fn connection_urls() {
    assert_eq!(connection_url("https", "ethereum-holesky-rpc.publicnode.com", 443), "https://ethereum-holesky-rpc.publicnode.com:443");
    assert_eq!(connection_url("http", "localhost", 0), "http://localhost:0");
    assert_eq!(connection_url("ws", "h", 65535), "ws://h:65535");
    let mut s = String::from("n=");
    append_decimal(&mut s, 1_000_000_007);
    assert_eq!(s, "n=1000000007");
    let config = Config {
        eth_connection: eth_connection("http", "localhost", 8545),
        settle: SettlementConfig {
            should_settle: true,
            signer_private_key: String::new(),
            mcr_contract_address: String::new(),
            settlement_super_block_size: 1,
            settlement_admin_mode: false,
        },
        transactions: TransactionsConfig::with_defaults(),
        maybe_run_local: true,
        deploy: Some(DeployConfig {
            mcr_deployment_working_directory: "contracts".to_string(),
            mcr_deployment_account_private_key: String::new(),
        }),
        testing: None,
    };
    assert_eq!(config.eth_rpc_connection_url(), "http://localhost:8545");
    assert_eq!(config.eth_ws_connection_url(), "ws://localhost:8545");
    assert!(config.should_settle());
    assert_eq!(config.transactions.transaction_send_retries, 10);
    assert_eq!(config.transactions.gas_limit, 10_000_000_000);
    assert_eq!(config.transactions.batch_timeout, 2000);
}

#[test]
fn eth_settlement_config_defaults() {
    let c = McrEthSettlementConfig::with_defaults();
    assert_eq!(c.mrc_contract_address, MRC_CONTRACT_ADDRESS);
    assert_eq!(c.gas_limit, DEFAULT_TRANSACTION_GAS_LIMIT);
    assert_eq!(c.transaction_send_number_retry, 10);
    let c = McrEthSettlementConfig::from_values(Some("0xabc".to_string()), 5, 3);
    assert_eq!(c.mrc_contract_address, "0xabc");
    assert_eq!(c.gas_limit, 5);
    assert_eq!(c.transaction_send_number_retry, 3);
    let c = McrEthSettlementConfig::from_values(None, 5, 3);
    assert_eq!(c.mrc_contract_address, "0xBf7c7AE15E23B2E19C7a1e3c36e245A71500e181");
}

#[test]
fn anvil_accounts_pair_in_order() {
    let entries = pair_anvil_addresses(
        vec!["a1".to_string(), "a2".to_string(), "a3".to_string()],
        vec!["k1".to_string(), "k2".to_string()],
    );
    assert_eq!(entries.len(), 2);
    assert_eq!(entries[0].address, "a1");
    assert_eq!(entries[0].private_key, "k1");
    assert_eq!(entries[1].address, "a2");
    assert_eq!(entries[1].private_key, "k2");
}

#[test]
fn eth_client_decisions() {
    assert_eq!(commitment_call(true), CommitmentCall::ForceLatestCommitment);
    assert_eq!(commitment_call(false), CommitmentCall::SubmitBlockCommitment);
    assert!(contract_commitment(0, [1; 32], [2; 32]).is_none());
    let c = contract_commitment(4, [1; 32], [2; 32]).unwrap();
    assert!(same(&c, &BlockCommitment::new(4, Id([1; 32]), Commitment::new([2; 32]))));
}

#[test]
fn signer_key_prefers_deployment_account() {
    let mut config = Config {
        eth_connection: eth_connection("http", "localhost", 8545),
        settle: SettlementConfig {
            should_settle: true,
            signer_private_key: "settle-key".to_string(),
            mcr_contract_address: String::new(),
            settlement_super_block_size: 1,
            settlement_admin_mode: false,
        },
        transactions: TransactionsConfig::with_defaults(),
        maybe_run_local: false,
        deploy: None,
        testing: None,
    };
    assert_eq!(config.signer_private_key(), "settle-key");
    config.deploy = Some(DeployConfig {
        mcr_deployment_working_directory: String::new(),
        mcr_deployment_account_private_key: "deploy-key".to_string(),
    });
    assert_eq!(config.signer_private_key(), "deploy-key");
}

#[test]
fn stub_send_plan() {
    match StubSendPlan::new(100, 10, 999) {
        Err(StubConnectorError::GasLimitExceed(fee, limit)) => {
            assert_eq!(fee, 1000);
            assert_eq!(limit, 999);
        }
        _ => panic!("expected the gas limit to be exceeded"),
    }
    let mut plan = StubSendPlan::new(100, 10, 1000).ok().unwrap();
    assert_eq!(plan.gas_to_send(), 100);
    let underpriced = SendTxError::ErrorResp { code: -32000, message: "transaction underpriced".to_string() };
    for _ in 0..MAX_TX_SEND_RETRY {
        assert!(plan.begin_attempt());
        assert!(plan.on_send_error(underpriced.clone()).is_none());
    }
    assert_eq!(plan.gas_to_send(), 133);
    assert!(!plan.begin_attempt());
    let mut plan = StubSendPlan::new(100, 1, 1000).ok().unwrap();
    match plan.on_send_error(SendTxError::ErrorResp { code: -32000, message: "insufficient funds!".to_string() }) {
        Some(StubConnectorError::InsuffisantFund(m)) => assert_eq!(m, "insufficient funds!"),
        _ => panic!("expected insufficient funds"),
    }
    match plan.on_send_error(SendTxError::ErrorResp { code: 1, message: "transaction underpriced".to_string() }) {
        Some(StubConnectorError::SendTxError(SendTxError::ErrorResp { code, .. })) => assert_eq!(code, 1),
        _ => panic!("expected the send error"),
    }
    assert!(matches!(plan.on_send_error(SendTxError::Other("x".to_string())), Some(StubConnectorError::SendTxError(SendTxError::Other(_)))));
    assert_eq!(plan.gas_to_send(), 100);
}

#[test]
fn settled_commitment_stays_and_gets_one_event() {
    let mut client = MockClient::new();
    let overriding = commitment(2, 9);
    client.override_block_commitment(overriding);
    for byte in [1u8, 2, 3] {
        let streamed = client.post_block_commitment(commitment(2, byte)).unwrap();
        assert!(same(&streamed, &overriding));
    }
    assert!(same(&client.get_commitment_at_height(2).unwrap(), &overriding));
    let mut state = SettlementState::new(10);
    state.on_commitment(commitment(2, 9));
    assert!(state.on_settled(overriding).event.is_some());
    assert!(state.on_settled(overriding).event.is_none());
}
