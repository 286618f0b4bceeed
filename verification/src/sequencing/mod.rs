//! The in-memory sequencer: its configuration and how it builds blocks.
pub mod config;
pub mod memseq;
