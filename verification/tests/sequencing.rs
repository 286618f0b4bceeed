use protocol_units::aptos_vm::SignError;
use protocol_units::sequencing::config::{Config, ConfigError};
use protocol_units::sequencing::memseq::{BlockBuilder, Memseq};
use protocol_units::settlement::types::Id;
use protocol_units::syncing::{syncly, syncup};
use std::sync::Arc;
use tokio::sync::RwLock;

#[test]
fn memseq_initialization() {
    let mempool = Arc::new(RwLock::new(Vec::<u8>::new()));
    let parent_block = Arc::new(RwLock::new(Id([7; 32])));
    let memseq = Memseq::new(mempool, 50, Arc::clone(&parent_block), 2000);
    assert_eq!(memseq.block_size(), 50);
    assert_eq!(memseq.building_time_ms(), 2000);
    assert!(Arc::ptr_eq(&memseq.parent_block, &parent_block));
}

#[test]
fn memseq_with_methods() {
    let mempool = Arc::new(RwLock::new(Vec::<u8>::new()));
    let parent_block = Arc::new(RwLock::new(Id([0; 32])));
    let memseq = Memseq::new(mempool, 50, parent_block, 2000);
    let memseq = memseq.with_block_size(100);
    assert_eq!(memseq.block_size(), 100);
    assert_eq!(memseq.building_time_ms(), 2000);
    let memseq = memseq.with_building_time_ms(5000);
    assert_eq!(memseq.building_time_ms(), 5000);
    assert_eq!(memseq.block_size(), 100);
}

#[test]
fn block_respects_size() {
    let mempool = Arc::new(RwLock::new(Vec::<u8>::new()));
    let memseq = Memseq::new(mempool, 3, Arc::new(RwLock::new(Id([0; 32]))), 10);
    let mut block: BlockBuilder<u32> = memseq.start_block();
    assert_eq!(block.wanted(), 3);
    block.offer(1);
    block.offer(2);
    assert_eq!(block.wanted(), 1);
    block.offer(3);
    assert_eq!(block.wanted(), 0);
    assert_eq!(block.finish(), Some(vec![1, 2, 3]));
}

#[test]
fn empty_block_is_no_block() {
    let block: BlockBuilder<u32> = BlockBuilder::new(10);
    assert_eq!(block.finish(), None);
    let zero: BlockBuilder<u32> = BlockBuilder::new(0);
    assert_eq!(zero.wanted(), 0);
}

#[test]
fn sequencer_config() {
    let c = Config::with_defaults();
    assert_eq!(c.try_sequencer_chain_id(), Ok("test"));
    assert_eq!(c.try_sequencer_database_path(), Ok("/tmp/sequencer".to_string()));
    assert_eq!(c.memseq_build_time, 1000);
    assert_eq!(c.memseq_max_block_size, 2048);
    let none = Config { sequencer_chain_id: None, sequencer_database_path: None, ..c };
    assert_eq!(none.try_sequencer_chain_id(), Err(ConfigError::NoSequencerChainId));
    assert_eq!(none.try_sequencer_database_path(), Err(ConfigError::NoSequencerDatabasePath));
    assert_eq!(ConfigError::NoSequencerChainId.message(), "No sequencer chain id provided");
    assert_eq!(ConfigError::NoSequencerDatabasePath.message(), "No sequencer database path provided");
}

#[test]
fn sync_targets_name_their_bucket() {
    assert_eq!(syncup::Target::S3("up".to_string()).bucket(), "up");
    assert_eq!(syncly::Target::S3("ly".to_string()).bucket(), "ly");
}

#[test]
fn sign_error_messages() {
    assert_eq!(SignError::CouldNotSign.message(), "Could not sign");
    assert_eq!(SignError::NoAccount.message(), "Unknown account");
    assert_eq!(SignError::InvalidTypedData.message(), "Given typed data is not valid");
    assert_eq!(SignError::InvalidTransactionRequest.message(), "Invalid transaction request");
    assert_eq!(SignError::NoChainId.message(), "No chain id");
}

#[test]
fn syncup_roles() {
    assert!(syncup::pulls_first(false));
    assert!(!syncup::pulls_first(true));
    assert!(syncup::pushes_on_tick(true));
    assert!(!syncup::pushes_on_tick(false));
}
