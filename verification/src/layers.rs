//! The pipeline layer capability contracts: thin typed interfaces — message
//! intake, block proposal, data availability, execution, settlement,
//! storage and message relay — that a node composes the state manager with.
//! They carry no behavior of their own; each deployment supplies the
//! implementations.

use vstd::prelude::*;

verus! {

/// Receives transactions and hands them on toward block proposal.
pub trait SequencerLayer {
    type Transaction;

    type TransactionId;

    type Error;

    /// Receives a transaction and internally sends it on to the next layer.
    fn receive_transaction(&self, transaction: Self::Transaction) -> Result<(), Self::Error>;

    /// Gets a received transaction.
    fn get_transaction(&self, transaction_id: Self::TransactionId) -> Result<
        Option<Self::Transaction>,
        Self::Error,
    >;
}

/// Builds blocks out of sequenced transactions and hands them on.
pub trait ProposerLayer {
    type Transaction;

    type Block;

    type BlockId;

    type Error;

    /// Gets the next transaction from the previous layer.
    fn get_next_transaction(&self) -> Result<Option<Self::Transaction>, Self::Error>;

    /// Constructs a block from some transactions.
    fn build_block(&self) -> Result<Self::Block, Self::Error>;

    /// Sends a constructed block to the next layer.
    fn send_block(&self, block: Self::Block) -> Result<(), Self::Error>;

    /// Gets a constructed and sent block.
    fn get_block(&self, block_id: Self::BlockId) -> Result<Option<Self::Block>, Self::Error>;
}

/// Makes proposed blocks retrievable by the execution layer.
pub trait DataAvailabilityLayer {
    type Block;

    type BlockId;

    type Error;

    /// Gets the next block from the previous layer.
    fn get_next_block(&self) -> Result<Option<Self::Block>, Self::Error>;

    /// Sends a block onward, or to a place the next layer retrieves from.
    fn send_block(&self, block: Self::Block) -> Result<(), Self::Error>;

    /// Gets a block that was sent to the next layer.
    fn get_block(&self, block_id: Self::BlockId) -> Result<Option<Self::Block>, Self::Error>;
}

/// Executes blocks, producing change sets for the storage layer.
pub trait ExecutionLayer {
    type Block;

    type BlockId;

    type ChangeSet;

    type Error;

    /// Gets the next block from the previous layer.
    fn get_next_block(&self) -> Result<Option<Self::Block>, Self::Error>;

    /// Executes a block and produces a change set.
    fn execute_block(&self, block: Self::Block) -> Result<Self::ChangeSet, Self::Error>;

    /// Sends a change set to the next layer, i.e. the storage layer.
    fn send_change_set(&self, change_set: Self::ChangeSet) -> Result<(), Self::Error>;

    /// Gets an executed block.
    fn get_block(&self, block_id: Self::BlockId) -> Result<Option<Self::Block>, Self::Error>;
}

/// Applies change sets and answers state queries.
pub trait StorageLayer {
    type Block;

    type BlockId;

    type ChangeSet;

    type StateEntry;

    type Address;

    type Error;

    /// Gets the next change set from the previous layer.
    fn get_next_change_set(&self) -> Result<Option<Self::ChangeSet>, Self::Error>;

    /// Applies a change set to the storage layer.
    fn derive_state(&self, change_set: Self::ChangeSet) -> Result<(), Self::Error>;

    /// Gets a state entry from the storage layer.
    fn get_state_entry(&self, address: Self::Address) -> Result<
        Option<Self::StateEntry>,
        Self::Error,
    >;

    /// Gets an applied change set.
    fn get_change_set(&self, block_id: Self::BlockId) -> Result<
        Option<Self::ChangeSet>,
        Self::Error,
    >;
}

/// Commits executed blocks to a settlement target.
pub trait SettlementLayer {
    type Block;

    type BlockId;

    type Commitment;

    type Error;

    /// Gets the next block from the previous layer.
    fn get_next_block(&self) -> Result<Option<Self::Block>, Self::Error>;

    /// Builds a commitment from the previous layer.
    fn build_commitment(&self) -> Result<Self::Commitment, Self::Error>;

    /// Applies a commitment to itself.
    fn apply_commitment(&self, commitment: Self::Commitment) -> Result<(), Self::Error>;
}

/// Relays messages between layers.
pub trait MessagingLayer {
    type Message;

    type Error;

    /// Sends a message to other layers.
    fn send_message(&self, message: Self::Message) -> Result<(), Self::Error>;

    /// Receives a message from another layer and handles it internally.
    fn receive_message(&self, message: Self::Message) -> Result<(), Self::Error>;
}

} // verus!
