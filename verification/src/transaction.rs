//! The plain values that the prover handles: identifiers, transactions,
//! blocks, and the addresses of peers and of reward recipients.

use vstd::prelude::*;

verus! {

/// The unique identifier of a transaction, 256 bits wide.
#[derive(Clone, Copy, Debug, PartialEq, Eq, Structural)]
pub struct TransactionId {
    pub hi: u128,
    pub lo: u128,
}

/// A transaction as the prover sees it: its identifier, and the verdict of
/// the validity rules, which are decided where the transaction is decoded.
#[derive(Clone, Copy, Debug, PartialEq, Eq, Structural)]
pub struct Transaction {
    pub id: TransactionId,
    pub well_formed: bool,
}

/// The network address of a peer: an IPv6 address (IPv4 addresses mapped
/// into it) and a port.
#[derive(Clone, Copy, Debug, PartialEq, Eq, Structural)]
pub struct PeerAddr {
    pub ip: u128,
    pub port: u16,
}

/// The account address that receives the reward of a mined block.
#[derive(Clone, Copy, Debug, PartialEq, Eq, Structural)]
pub struct Address {
    pub hi: u128,
    pub lo: u128,
}

/// A block: its height and the transactions it confirms.
#[derive(Clone, Debug, PartialEq, Eq)]
pub struct Block {
    pub height: u32,
    pub transactions: Vec<Transaction>,
}

impl TransactionId {
    /// Returns the identifier made of the two given halves.
    pub fn new(hi: u128, lo: u128) -> (id: TransactionId)
        ensures
            id.hi == hi,
            id.lo == lo,
    {
        TransactionId { hi, lo }
    }
}

impl Transaction {
    /// Returns a transaction with the given identifier and validity verdict.
    pub fn new(id: TransactionId, well_formed: bool) -> (transaction: Transaction)
        ensures
            transaction.id == id,
            transaction.well_formed == well_formed,
    {
        Transaction { id, well_formed }
    }

    /// Returns the identifier of the transaction.
    pub fn transaction_id(&self) -> (id: TransactionId)
        ensures
            id == self.id,
    {
        self.id
    }
}

impl Block {
    /// Returns the block of the given height that confirms the given transactions.
    pub fn new(height: u32, transactions: Vec<Transaction>) -> (block: Block)
        ensures
            block.height == height,
            block.transactions == transactions,
    {
        Block { height, transactions }
    }

    /// Returns the height of the block.
    pub fn height(&self) -> (height: u32)
        ensures
            height == self.height,
    {
        self.height
    }

    /// Returns the transactions that the block confirms.
    pub fn transactions(&self) -> (transactions: &Vec<Transaction>)
        ensures
            transactions == &self.transactions,
    {
        &self.transactions
    }
}

} // verus!
