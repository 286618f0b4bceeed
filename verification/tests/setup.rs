use protocol_units::settlement::anvil::AnvilAddressEntry;
use protocol_units::settlement::config::{
    Config, DeployConfig, EthConnectionConfig, SettlementConfig, TestingConfig, TransactionsConfig,
};
use protocol_units::settlement::anvil::AnvilConf;
use protocol_units::setup::anvil_local::{self, Local as LocalPorts};
use protocol_units::setup::deploy_remote::{
    deployed_addresses, DeployError, DeployRemote, DeployRemoteConfig, DeployedTransaction, DeploymentSummary, GeneratedAccount,
};
use protocol_units::setup::forge::{is_white_space, saved_transactions_path, ForgeOutputError};
use protocol_units::setup::local::{Local, SetupError, ANVIL_START_CHECKS, LOCAL_CHAIN_ID};

fn config(deploy: bool, testing: bool) -> Config {
    Config {
        eth_connection: EthConnectionConfig {
            eth_rpc_connection_protocol: "http".to_string(),
            eth_rpc_connection_hostname: "localhost".to_string(),
            eth_rpc_connection_port: 8545,
            eth_ws_connection_protocol: "ws".to_string(),
            eth_ws_connection_hostname: "localhost".to_string(),
            eth_ws_connection_port: 8545,
            eth_chain_id: 1,
        },
        settle: SettlementConfig {
            should_settle: false,
            signer_private_key: "signer".to_string(),
            mcr_contract_address: "mcr".to_string(),
            settlement_super_block_size: 1,
            settlement_admin_mode: false,
        },
        transactions: TransactionsConfig::with_defaults(),
        maybe_run_local: true,
        deploy: if deploy {
            Some(DeployConfig {
                mcr_deployment_working_directory: "contracts".to_string(),
                mcr_deployment_account_private_key: "old".to_string(),
            })
        } else {
            None
        },
        testing: if testing {
            Some(TestingConfig {
                well_known_account_private_keys: vec!["old".to_string()],
                move_token_contract_address: "token".to_string(),
                movement_staking_contract_address: "staking".to_string(),
            })
        } else {
            None
        },
    }
}

fn entry(address: &str, key: &str) -> AnvilAddressEntry {
    AnvilAddressEntry { address: address.to_string(), private_key: key.to_string() }
}

#[test]
fn anvil_accounts_go_to_deploy_and_testing() {
    let mut c = config(true, true);
    let addresses = vec![entry("a1", "k1"), entry("a2", "k2")];
    assert!(Local::apply_anvil_accounts(&mut c, &addresses).is_ok());
    let deploy = c.deploy.as_ref().unwrap();
    assert_eq!(deploy.mcr_deployment_account_private_key, "k1");
    assert_eq!(deploy.mcr_deployment_working_directory, "contracts");
    let testing = c.testing.as_ref().unwrap();
    assert_eq!(testing.well_known_account_private_keys, vec!["k1".to_string(), "k2".to_string()]);
    assert_eq!(testing.move_token_contract_address, "token");
}

#[test]
fn anvil_without_accounts_cannot_deploy() {
    let mut c = config(true, false);
    assert_eq!(Local::apply_anvil_accounts(&mut c, &Vec::new()), Err(SetupError::NoAnvilAddress));
    assert_eq!(c.deploy.as_ref().unwrap().mcr_deployment_account_private_key, "old");
    let mut c = config(false, true);
    assert!(Local::apply_anvil_accounts(&mut c, &Vec::new()).is_ok());
    assert!(c.testing.as_ref().unwrap().well_known_account_private_keys.is_empty());
}

#[test]
fn local_chain_and_start_checks() {
    let mut c = config(false, false);
    Local::use_local_chain(&mut c);
    assert_eq!(c.eth_connection.eth_chain_id, 3073);
    assert_eq!(LOCAL_CHAIN_ID, 3073);
    assert!(!Local::anvil_wait_exhausted(ANVIL_START_CHECKS));
    assert!(Local::anvil_wait_exhausted(ANVIL_START_CHECKS + 1));
}

#[test]
fn local_ports_give_urls() {
    let local = LocalPorts::new(8545, 8546);
    assert_eq!(local.rpc_url_or_local(None), "http://localhost:8545");
    assert_eq!(local.ws_url_or_local(None), "ws://localhost:8546");
    assert_eq!(local.rpc_url_or_local(Some("http://node:1".to_string())), "http://node:1");
    let default = LocalPorts::with_default_ports();
    assert_eq!(default.ws_url_or_local(None), "ws://localhost:8545");
    for _ in 0..20 {
        let id = LocalPorts::temporary_chain_id();
        assert!((100..32768).contains(&id));
    }
}

#[test]
fn forge_output_gives_saved_transactions_path() {
    let output = "\n  Compiling...\r\nScript ran successfully.\r\nTransactions saved to:  /tmp/broadcast/run-latest.json \r\nSensitive values saved to: /tmp/cache\n";
    assert_eq!(saved_transactions_path(output), Ok("/tmp/broadcast/run-latest.json".to_string()));
    assert_eq!(saved_transactions_path("Transactions saved to:"), Ok(String::new()));
    assert_eq!(saved_transactions_path("nothing here\nat all"), Err(ForgeOutputError::NoTransactionsLine));
    assert_eq!(saved_transactions_path(""), Err(ForgeOutputError::NoTransactionsLine));
    assert_eq!(saved_transactions_path("a\nTransactions saved to: x\nTransactions saved to: y"), Ok("x".to_string()));
}

#[test]
fn white_space_matches_std() {
    for c in [' ', '\t', '\n', '\r', '\u{0b}', '\u{0c}', '\u{85}', '\u{a0}', '\u{2003}', '\u{3000}', 'a', '0', ':', '\u{200b}'] {
        assert_eq!(is_white_space(c), c.is_whitespace(), "{:?}", c);
    }
}

fn summary(addresses: &[Option<&str>]) -> DeploymentSummary {
    DeploymentSummary {
        transactions: addresses.iter().map(|a| DeployedTransaction { contract_address: a.map(|s| s.to_string()) }).collect(),
    }
}

#[test]
fn deployed_contracts_are_transactions_three_to_five() {
    let full = summary(&[None, Some("a1"), None, Some("token"), Some("staking"), Some("mcr-new"), Some("later")]);
    assert_eq!(deployed_addresses(&full), Ok(("token".to_string(), "staking".to_string(), "mcr-new".to_string())));
    assert_eq!(deployed_addresses(&summary(&[None, None, None, Some("t"), None, Some("m")])), Err(DeployError::NoContractAddress));
    assert_eq!(deployed_addresses(&summary(&[None, None, None, Some("t"), Some("s")])), Err(DeployError::NoContractAddress));
    let mut c = remote_config();
    assert!(DeployRemote::apply_deployment(&mut c, &full).is_ok());
    assert_eq!(c.mcr_contract_address, "mcr-new");
    assert_eq!(c.move_token_contract_address, "token");
    assert_eq!(c.movement_staking_contract_address, "staking");
    assert_eq!(c.governor_private_key, "governor");
    let mut c = remote_config();
    assert_eq!(DeployRemote::apply_deployment(&mut c, &summary(&[])), Err(DeployError::NoContractAddress));
    assert_eq!(c, remote_config());
    assert_eq!(DeployError::NoContractAddress.message(), "No contract address in forge script exec deployment result file.");
}

fn remote_config() -> DeployRemoteConfig {
    DeployRemoteConfig {
        governor_private_key: "governor".to_string(),
        move_token_contract_address: "0x0".to_string(),
        movement_staking_contract_address: "0x0".to_string(),
        mcr_contract_address: "mcr".to_string(),
        well_known_accounts: vec!["k0".to_string()],
        well_known_addresses: vec!["a0".to_string()],
    }
}

#[test]
fn well_known_accounts_are_appended() {
    let mut c = remote_config();
    DeployRemote::append_well_known_accounts(
        &mut c,
        &vec![
            GeneratedAccount { secret: [0xab; 32], address: "a1".to_string() },
            GeneratedAccount { secret: [0x01; 32], address: "a2".to_string() },
        ],
    );
    assert_eq!(c.well_known_accounts, vec!["k0".to_string(), format!("0x{}", "ab".repeat(32)), format!("0x{}", "01".repeat(32))]);
    assert_eq!(c.well_known_addresses, vec!["a0".to_string(), "a1".to_string(), "a2".to_string()]);
}

#[test]
fn anvil_conf_and_legacy_local_strategy() {
    let conf = AnvilConf {
        available_accounts: vec!["a1".to_string(), "a2".to_string()],
        private_keys: vec!["k1".to_string(), "k2".to_string(), "k3".to_string()],
    };
    let mut accounts = conf.addresses();
    assert_eq!(accounts.len(), 2);
    let deployer = anvil_local::take_deployer(&mut accounts);
    assert_eq!(deployer.address, "a1");
    assert_eq!(accounts.len(), 1);
    assert_eq!(anvil_local::settlement_signer_key(&accounts), "k2");
    assert!(anvil_local::runs_anvil(&None));
    assert!(!anvil_local::runs_anvil(&Some("key".to_string())));
    assert!(!anvil_local::anvil_wait_exhausted(10));
    assert!(anvil_local::anvil_wait_exhausted(11));
    assert_eq!(anvil_local::deployed_mcr_address(&summary(&[Some("m"), None])), Ok("m".to_string()));
    assert_eq!(anvil_local::deployed_mcr_address(&summary(&[None, Some("x")])), Err(DeployError::NoContractAddress));
    assert_eq!(anvil_local::deployed_mcr_address(&summary(&[])), Err(DeployError::NoContractAddress));
}
