//! The configuration of the in-memory sequencer.
use vstd::prelude::*;

verus! {

/// Errors of reading the sequencer configuration.
#[derive(Debug, Clone, Copy, PartialEq, Eq, Structural)]
pub enum ConfigError {
    /// No sequencer chain id provided.
    NoSequencerChainId,
    /// No sequencer database path provided.
    NoSequencerDatabasePath,
}

impl ConfigError {
    /// The message that describes the error.
    pub fn message(&self) -> (s: &'static str)
        ensures
            *self == ConfigError::NoSequencerChainId ==> s@ == "No sequencer chain id provided"@,
            *self == ConfigError::NoSequencerDatabasePath ==> s@ == "No sequencer database path provided"@,
    {
        match self {
            ConfigError::NoSequencerChainId => "No sequencer chain id provided",
            ConfigError::NoSequencerDatabasePath => "No sequencer database path provided",
        }
    }
}

/// The configuration of the in-memory sequencer.
#[derive(Debug, Clone)]
pub struct Config {
    /// The chain id of the sequencer.
    pub sequencer_chain_id: Option<String>,
    /// The path to the sequencer database.
    pub sequencer_database_path: Option<String>,
    /// The time to build a block, in milliseconds.
    pub memseq_build_time: u64,
    /// The largest number of transactions in a block.
    pub memseq_max_block_size: u32,
}

/// The default chain id of the sequencer.
pub const DEFAULT_SEQUENCER_CHAIN_ID: &'static str = "test";
/// The default path to the sequencer database.
pub const DEFAULT_SEQUENCER_DATABASE_PATH: &'static str = "/tmp/sequencer";
/// The default time to build a block, in milliseconds.
pub const DEFAULT_MEMSEQ_BUILD_TIME: u64 = 1000u64;
/// The default largest number of transactions in a block.
pub const DEFAULT_MEMSEQ_MAX_BLOCK_SIZE: u32 = 2048u32;

impl Config {
    /// The default sequencer chain id.
    pub fn default_sequencer_chain_id() -> (id: Option<String>)
        ensures
            id matches Some(s) && s@ == DEFAULT_SEQUENCER_CHAIN_ID@,
    {
        Some(DEFAULT_SEQUENCER_CHAIN_ID.to_owned())
    }

    /// The default sequencer database path.
    pub fn default_sequencer_database_path() -> (path: Option<String>)
        ensures
            path matches Some(s) && s@ == DEFAULT_SEQUENCER_DATABASE_PATH@,
    {
        Some(DEFAULT_SEQUENCER_DATABASE_PATH.to_owned())
    }

    /// The configuration with every default.
    pub fn with_defaults() -> (c: Self)
        ensures
            c.sequencer_chain_id matches Some(s) && s@ == DEFAULT_SEQUENCER_CHAIN_ID@,
            c.sequencer_database_path matches Some(s) && s@ == DEFAULT_SEQUENCER_DATABASE_PATH@,
            c.memseq_build_time == DEFAULT_MEMSEQ_BUILD_TIME,
            c.memseq_max_block_size == DEFAULT_MEMSEQ_MAX_BLOCK_SIZE,
    {
        Config {
            sequencer_chain_id: Config::default_sequencer_chain_id(),
            sequencer_database_path: Config::default_sequencer_database_path(),
            memseq_build_time: DEFAULT_MEMSEQ_BUILD_TIME,
            memseq_max_block_size: DEFAULT_MEMSEQ_MAX_BLOCK_SIZE,
        }
    }

    /// The sequencer chain id, if one is provided.
    pub fn try_sequencer_chain_id(&self) -> (r: Result<&str, ConfigError>)
        ensures
            self.sequencer_chain_id matches Some(s) ==> r matches Ok(id) && id@ == s@,
            self.sequencer_chain_id is None ==> r == Err::<&str, ConfigError>(ConfigError::NoSequencerChainId),
    {
        match &self.sequencer_chain_id {
            Some(s) => Ok(s.as_str()),
            None => Err(ConfigError::NoSequencerChainId),
        }
    }

    /// The sequencer database path, if one is provided.
    pub fn try_sequencer_database_path(&self) -> (r: Result<String, ConfigError>)
        ensures
            self.sequencer_database_path matches Some(s) ==> r matches Ok(p) && p@ == s@,
            self.sequencer_database_path is None ==> r == Err::<String, ConfigError>(ConfigError::NoSequencerDatabasePath),
    {
        match &self.sequencer_database_path {
            Some(s) => Ok(s.clone()),
            None => Err(ConfigError::NoSequencerDatabasePath),
        }
    }
}

} // verus!
