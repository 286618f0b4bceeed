//! How the in-memory sequencer builds a block: it takes transactions from the mempool until the
//! block is full or the building time is over; a block with no transaction is no block.
//!
//! Building awaits the mempool and the clock in turn, so the decisions stand here as
//! transitions of [BlockBuilder]; the loop that awaits feeds the transactions in.
use crate::settlement::types::Id;
use std::sync::Arc;
use tokio::sync::RwLock;
use vstd::prelude::*;

verus! {

/// A block under construction.
pub struct BlockBuilder<T> {
    block_size: u32,
    transactions: Vec<T>,
}

impl<T> BlockBuilder<T> {
    /// A block never holds more transactions than its size.
    #[verifier::type_invariant]
    spec fn within_size(&self) -> bool {
        self.transactions@.len() <= self.block_size
    }

    /// The largest number of transactions in the block.
    pub closed spec fn size(&self) -> u32 {
        self.block_size
    }

    /// The transactions taken so far, in order.
    pub closed spec fn taken(&self) -> Seq<T> {
        self.transactions@
    }

    /// An empty block of at most `block_size` transactions.
    pub fn new(block_size: u32) -> (b: Self)
        ensures
            b.size() == block_size,
            b.taken() == Seq::<T>::empty(),
    {
        BlockBuilder { block_size, transactions: Vec::new() }
    }

    /// How many more transactions the block takes: none once it is full.
    pub fn wanted(&self) -> (n: u32)
        ensures
            self.taken().len() <= self.size(),
            n == self.size() - self.taken().len(),
    {
        proof { use_type_invariant(self); }
        let current = self.transactions.len();
        self.block_size - (current as u32)
    }

    /// Takes a transaction into a block that is not full.
    pub fn offer(&mut self, transaction: T)
        requires
            old(self).taken().len() < old(self).size(),
        ensures
            final(self).taken() == old(self).taken().push(transaction),
            final(self).size() == old(self).size(),
            final(self).taken().len() <= final(self).size(),
    {
        let mut transactions: Vec<T> = Vec::new();
        core::mem::swap(&mut transactions, &mut self.transactions);
        transactions.push(transaction);
        core::mem::swap(&mut transactions, &mut self.transactions);
    }

    /// The transactions of the block, or none when none was taken; a block holds between one
    /// transaction and its size.
    pub fn finish(self) -> (block: Option<Vec<T>>)
        ensures
            self.taken().len() == 0 ==> block is None,
            self.taken().len() > 0 ==> (block matches Some(txs) && txs@ == self.taken()),
            block matches Some(txs) ==> 1 <= txs@.len() <= self.size(),
    {
        proof { use_type_invariant(&self); }
        if self.transactions.len() == 0 {
            None
        } else {
            Some(self.transactions)
        }
    }
}

#[verifier::external_type_specification]
#[verifier::external_body]
#[verifier::reject_recursive_types(T)]
pub struct ExRwLock<T: ?Sized>(RwLock<T>);

/// The block size of a sequencer over a RocksDB mempool.
pub const MOVE_ROCKS_BLOCK_SIZE: u32 = 10u32;
/// The building time of a sequencer over a RocksDB mempool, in milliseconds.
pub const MOVE_ROCKS_BUILDING_TIME_MS: u64 = 1000u64;

/// The in-memory sequencer over a shared mempool.
#[verifier::reject_recursive_types(T)]
pub struct Memseq<T> {
    pub mempool: Arc<RwLock<T>>,
    block_size: u32,
    pub parent_block: Arc<RwLock<Id>>,
    building_time_ms: u64,
}

impl<T> Memseq<T> {
    /// The largest number of transactions in a block.
    pub closed spec fn spec_block_size(&self) -> u32 {
        self.block_size
    }

    /// The shared mempool.
    pub closed spec fn pool(&self) -> Arc<RwLock<T>> {
        self.mempool
    }

    /// The shared parent block.
    pub closed spec fn parent(&self) -> Arc<RwLock<Id>> {
        self.parent_block
    }

    /// The time to build a block, in milliseconds.
    pub closed spec fn spec_building_time_ms(&self) -> u64 {
        self.building_time_ms
    }

    /// A sequencer over the mempool, building on the parent block.
    pub fn new(mempool: Arc<RwLock<T>>, block_size: u32, parent_block: Arc<RwLock<Id>>, building_time_ms: u64) -> (m: Self)
        ensures
            m.pool() == mempool,
            m.parent() == parent_block,
            m.spec_block_size() == block_size,
            m.spec_building_time_ms() == building_time_ms,
    {
        Memseq { mempool, block_size, parent_block, building_time_ms }
    }

    /// The same sequencer with another block size.
    pub fn with_block_size(self, block_size: u32) -> (m: Self)
        ensures
            m.pool() == self.pool(),
            m.parent() == self.parent(),
            m.spec_block_size() == block_size,
            m.spec_building_time_ms() == self.spec_building_time_ms(),
    {
        let mut m = self;
        m.block_size = block_size;
        m
    }

    /// The same sequencer with another building time.
    pub fn with_building_time_ms(self, building_time_ms: u64) -> (m: Self)
        ensures
            m.pool() == self.pool(),
            m.parent() == self.parent(),
            m.spec_block_size() == self.spec_block_size(),
            m.spec_building_time_ms() == building_time_ms,
    {
        let mut m = self;
        m.building_time_ms = building_time_ms;
        m
    }

    /// The largest number of transactions in a block.
    pub fn block_size(&self) -> (n: u32)
        ensures
            n == self.spec_block_size(),
    {
        self.block_size
    }

    /// The time to build a block, in milliseconds.
    pub fn building_time_ms(&self) -> (ms: u64)
        ensures
            ms == self.spec_building_time_ms(),
    {
        self.building_time_ms
    }

    /// An empty block of this sequencer's block size.
    pub fn start_block<Tx>(&self) -> (b: BlockBuilder<Tx>)
        ensures
            b.size() == self.spec_block_size(),
            b.taken() == Seq::<Tx>::empty(),
    {
        BlockBuilder::new(self.block_size)
    }
}

} // verus!
