//! Configuration of the MCR settlement: the Ethereum connection, settlement, transactions,
//! deployment and testing parameters.
use vstd::prelude::*;

verus! {

/// The decimal digit for `d`.
pub open spec fn digit_char(d: nat) -> char {
    if d == 0 { '0' }
    else if d == 1 { '1' }
    else if d == 2 { '2' }
    else if d == 3 { '3' }
    else if d == 4 { '4' }
    else if d == 5 { '5' }
    else if d == 6 { '6' }
    else if d == 7 { '7' }
    else if d == 8 { '8' }
    else { '9' }
}

/// The decimal representation of `n`, without leading zeros.
pub open spec fn decimal(n: nat) -> Seq<char>
    decreases n,
{
    if n < 10 {
        seq![digit_char(n)]
    } else {
        decimal(n / 10).push(digit_char(n % 10))
    }
}

/// The text of the digit `d`.
pub(crate) fn digit_str(d: u64) -> (s: &'static str)
    requires
        d < 10,
    ensures
        s@ == seq![digit_char(d as nat)],
{
    proof {
        reveal_strlit("0");
        reveal_strlit("1");
        reveal_strlit("2");
        reveal_strlit("3");
        reveal_strlit("4");
        reveal_strlit("5");
        reveal_strlit("6");
        reveal_strlit("7");
        reveal_strlit("8");
        reveal_strlit("9");
    }
    if d == 0 { "0" }
    else if d == 1 { "1" }
    else if d == 2 { "2" }
    else if d == 3 { "3" }
    else if d == 4 { "4" }
    else if d == 5 { "5" }
    else if d == 6 { "6" }
    else if d == 7 { "7" }
    else if d == 8 { "8" }
    else { "9" }
}

/// Appends the decimal representation of `n` to `s`.
pub fn append_decimal(s: &mut String, n: u64)
    ensures
        final(s)@ == old(s)@ + decimal(n as nat),
    decreases n,
{
    if n >= 10 {
        append_decimal(s, n / 10);
    }
    s.append(digit_str(n % 10));
    proof {
        if n >= 10 {
            assert(decimal(n as nat) == decimal((n / 10) as nat).push(digit_char((n % 10) as nat)));
        }
    }
}

/// The URL `protocol://hostname:port`.
pub open spec fn spec_url(protocol: Seq<char>, hostname: Seq<char>, port: u16) -> Seq<char> {
    protocol + "://"@ + hostname + ":"@ + decimal(port as nat)
}

/// Builds the URL `protocol://hostname:port`.
pub fn connection_url(protocol: &str, hostname: &str, port: u16) -> (url: String)
    ensures
        url@ == spec_url(protocol@, hostname@, port),
{
    let mut url = protocol.to_owned();
    url.append("://");
    url.append(hostname);
    url.append(":");
    append_decimal(&mut url, port as u64);
    url
}

/// The Ethereum connection configuration.
#[derive(Clone, Debug)]
pub struct EthConnectionConfig {
    pub eth_rpc_connection_protocol: String,
    pub eth_rpc_connection_hostname: String,
    pub eth_rpc_connection_port: u16,
    pub eth_ws_connection_protocol: String,
    pub eth_ws_connection_hostname: String,
    pub eth_ws_connection_port: u16,
    pub eth_chain_id: u64,
}

impl EthConnectionConfig {
    /// The URL of the Ethereum RPC connection.
    pub fn eth_rpc_connection_url(&self) -> (url: String)
        ensures
            url@ == spec_url(self.eth_rpc_connection_protocol@, self.eth_rpc_connection_hostname@, self.eth_rpc_connection_port),
    {
        connection_url(self.eth_rpc_connection_protocol.as_str(), self.eth_rpc_connection_hostname.as_str(), self.eth_rpc_connection_port)
    }

    /// The URL of the Ethereum WebSocket connection.
    pub fn eth_ws_connection_url(&self) -> (url: String)
        ensures
            url@ == spec_url(self.eth_ws_connection_protocol@, self.eth_ws_connection_hostname@, self.eth_ws_connection_port),
    {
        connection_url(self.eth_ws_connection_protocol.as_str(), self.eth_ws_connection_hostname.as_str(), self.eth_ws_connection_port)
    }
}

/// The default host of the Ethereum RPC connection.
pub const DEFAULT_ETH_RPC_CONNECTION_HOSTNAME: &'static str = "ethereum-holesky-rpc.publicnode.com";
/// The default port of the Ethereum RPC connection.
pub const DEFAULT_ETH_RPC_CONNECTION_PORT: u16 = 443;
/// The default host of the Ethereum WebSocket connection.
pub const DEFAULT_ETH_WS_CONNECTION_HOSTNAME: &'static str = "ethereum-holesky-rpc.publicnode.com";
/// The default port of the Ethereum WebSocket connection, the same as RPC.
pub const DEFAULT_ETH_WS_CONNECTION_PORT: u16 = 443;

/// The settlement configuration.
#[derive(Clone, Debug)]
pub struct SettlementConfig {
    pub should_settle: bool,
    pub signer_private_key: String,
    pub mcr_contract_address: String,
    pub settlement_super_block_size: u64,
    pub settlement_admin_mode: bool,
}

/// The default address of the MCR contract.
pub const DEFAULT_MCR_CONTRACT_ADDRESS: &'static str = "0x5fc8d32690cc91d4c39d9d3abcbd16989f875707";

/// The transactions configuration.
#[derive(Clone, Debug)]
pub struct TransactionsConfig {
    pub gas_limit: u64,
    /// Timeout for batching blocks, in milliseconds.
    pub batch_timeout: u64,
    pub transaction_send_retries: u32,
}

/// The default gas limit of settlement transactions.
pub const DEFAULT_GAS_LIMIT: u64 = 10_000_000_000u64;
/// The default timeout for batching blocks, in milliseconds.
pub const DEFAULT_BATCH_TIMEOUT: u64 = 2000u64;
/// The default number of attempts at sending a transaction.
pub const DEFAULT_TRANSACTION_SEND_RETRIES: u32 = 10u32;

impl TransactionsConfig {
    /// The defaults: the default gas limit, batch timeout and attempts.
    pub fn with_defaults() -> (c: Self)
        ensures
            c.gas_limit == DEFAULT_GAS_LIMIT,
            c.batch_timeout == DEFAULT_BATCH_TIMEOUT,
            c.transaction_send_retries == DEFAULT_TRANSACTION_SEND_RETRIES,
    {
        TransactionsConfig {
            gas_limit: DEFAULT_GAS_LIMIT,
            batch_timeout: DEFAULT_BATCH_TIMEOUT,
            transaction_send_retries: DEFAULT_TRANSACTION_SEND_RETRIES,
        }
    }
}

/// The contract deployment configuration.
#[derive(Clone, Debug)]
pub struct DeployConfig {
    pub mcr_deployment_working_directory: String,
    pub mcr_deployment_account_private_key: String,
}

/// The testing configuration.
#[derive(Clone, Debug)]
pub struct TestingConfig {
    pub well_known_account_private_keys: Vec<String>,
    pub move_token_contract_address: String,
    pub movement_staking_contract_address: String,
}

/// The configuration of the MCR settlement.
#[derive(Clone, Debug)]
pub struct Config {
    pub eth_connection: EthConnectionConfig,
    pub settle: SettlementConfig,
    pub transactions: TransactionsConfig,
    pub maybe_run_local: bool,
    pub deploy: Option<DeployConfig>,
    pub testing: Option<TestingConfig>,
}

impl Config {
    /// The URL of the Ethereum RPC connection.
    pub fn eth_rpc_connection_url(&self) -> (url: String)
        ensures
            url@ == spec_url(self.eth_connection.eth_rpc_connection_protocol@, self.eth_connection.eth_rpc_connection_hostname@, self.eth_connection.eth_rpc_connection_port),
    {
        self.eth_connection.eth_rpc_connection_url()
    }

    /// The URL of the Ethereum WebSocket connection.
    pub fn eth_ws_connection_url(&self) -> (url: String)
        ensures
            url@ == spec_url(self.eth_connection.eth_ws_connection_protocol@, self.eth_connection.eth_ws_connection_hostname@, self.eth_connection.eth_ws_connection_port),
    {
        self.eth_connection.eth_ws_connection_url()
    }

    /// Whether the settlement should settle.
    pub fn should_settle(&self) -> (b: bool)
        ensures
            b == self.settle.should_settle,
    {
        self.settle.should_settle
    }
}

/// A well-known account of a test network.
#[derive(Clone, Debug)]
pub struct WellKnownAccount {
    pub address: String,
    pub name: String,
}

/// The MCR Ethereum settlement configuration read from the environment.
#[derive(Clone, Debug)]
pub struct McrEthSettlementConfig {
    pub mrc_contract_address: String,
    pub gas_limit: u128,
    pub transaction_send_number_retry: usize,
}

/// The default address of the MCR contract of the Ethereum settlement.
pub const MRC_CONTRACT_ADDRESS: &'static str = "0xBf7c7AE15E23B2E19C7a1e3c36e245A71500e181";
/// The default number of attempts at sending a transaction.
pub const MAX_TRANSACTION_SEND_RETRY: usize = 10usize;
/// The default gas limit of a transaction.
pub const DEFAULT_TRANSACTION_GAS_LIMIT: u128 = 10_000_000_000_000_000u128;

impl McrEthSettlementConfig {
    /// The configuration from the values found in the environment: the contract address, when
    /// given, else the default one; the gas limit and the number of attempts.
    pub fn from_values(mrc_contract_address: Option<String>, gas_limit: u128, transaction_send_number_retry: usize) -> (c: Self)
        ensures
            mrc_contract_address matches Some(a) ==> c.mrc_contract_address == a,
            mrc_contract_address is None ==> c.mrc_contract_address@ == MRC_CONTRACT_ADDRESS@,
            c.gas_limit == gas_limit,
            c.transaction_send_number_retry == transaction_send_number_retry,
    {
        let address = match mrc_contract_address {
            Some(a) => a,
            None => MRC_CONTRACT_ADDRESS.to_owned(),
        };
        McrEthSettlementConfig { mrc_contract_address: address, gas_limit, transaction_send_number_retry }
    }

    /// The default configuration.
    pub fn with_defaults() -> (c: Self)
        ensures
            c.mrc_contract_address@ == MRC_CONTRACT_ADDRESS@,
            c.gas_limit == DEFAULT_TRANSACTION_GAS_LIMIT,
            c.transaction_send_number_retry == MAX_TRANSACTION_SEND_RETRY,
    {
        McrEthSettlementConfig {
            mrc_contract_address: MRC_CONTRACT_ADDRESS.to_owned(),
            gas_limit: DEFAULT_TRANSACTION_GAS_LIMIT,
            transaction_send_number_retry: MAX_TRANSACTION_SEND_RETRY,
        }
    }
}

} // verus!
