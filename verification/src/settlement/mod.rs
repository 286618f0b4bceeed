//! MCR settlement: block commitments, the settlement manager's decisions, the settlement
//! clients' bookkeeping and the rules for sending settlement transactions.
pub mod types;
pub mod config;
pub mod manager;
pub mod mock;
pub mod stub;
pub mod send_tx;
pub mod anvil;
pub mod eth_client;
