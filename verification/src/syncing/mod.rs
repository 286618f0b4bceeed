//! Targets of syncing files up to shared storage.
pub mod syncup;
pub mod syncly;
