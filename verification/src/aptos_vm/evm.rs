//! Encoded transactions.
use vstd::prelude::*;

verus! {

/// An RLP encoded transaction.
#[derive(Debug, Clone)]
pub struct RlpEvmTransaction {
    /// RLP data.
    pub rlp: Vec<u8>,
}

} // verus!
