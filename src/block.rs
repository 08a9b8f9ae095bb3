//! Block records.

use crate::transaction::Transaction;
use crate::utils::CompactBytes;
use vstd::prelude::*;

verus! {

/// A block: its header fields and its transactions.
#[derive(Debug)]
pub struct Block {
    /// The version number of the block.
    pub version: [u8; 4],
    /// The hash of the block this one builds on.
    pub previous_block: [u8; 32],
    /// A fingerprint of all the transactions in the block.
    pub merkle_root: [u8; 32],
    /// The time, as a Unix timestamp.
    pub time: [u8; 4],
    /// A compact representation of the current target.
    pub bits: u8,
    /// The number of transactions that follow.
    pub transaction_count: CompactBytes,
    /// The transactions of the block.
    pub transactions: Vec<Transaction>,
}

} // verus!
