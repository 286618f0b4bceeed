//! Verified protocol units of a Movement node: the Hot-Cold set and its checkpoint
//! variant, the MCR settlement manager and client decisions, the settlement setup, the
//! sequencer's block building, the `eth_` RPC errors, and the storage keys of Move data.
pub mod set;
pub mod checkpoint_set;
pub mod settlement;
pub mod setup;
pub mod sequencing;
pub mod syncing;
pub mod aptos_vm;
pub mod jelly_move;
