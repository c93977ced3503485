//! What a datasource hands to the pipeline.
use crate::chain::{Account, Reward, TransactionStatusMeta, VersionedTransaction};
use crate::keys::{BlockHash, Pubkey, Signature};
use vstd::prelude::*;

verus! {

/// The kinds of update.
#[derive(Debug, Clone, Copy, PartialEq, Eq, Structural)]
pub enum UpdateType {
    AccountUpdate,
    Transaction,
    AccountDeletion,
    BlockDetails,
}

/// The new state of an account.
#[derive(Debug, PartialEq, Eq)]
pub struct AccountUpdate {
    pub pubkey: Pubkey,
    pub account: Account,
    pub slot: u64,
    pub transaction_signature: Option<Signature>,
    /// The order of writes to the account, where the source tells it.
    pub write_version: Option<u64>,
}

/// The end of an account.
#[derive(Debug, PartialEq, Eq)]
pub struct AccountDeletion {
    pub pubkey: Pubkey,
    pub slot: u64,
    pub transaction_signature: Option<Signature>,
    /// The order of writes to the account, where the source tells it.
    pub write_version: Option<u64>,
}

/// A transaction that was executed.
#[derive(Debug, PartialEq, Eq)]
pub struct TransactionUpdate {
    pub signature: Signature,
    pub transaction: VersionedTransaction,
    pub meta: TransactionStatusMeta,
    pub is_vote: bool,
    pub slot: u64,
    /// The place of the transaction in its slot, where the source tells it.
    pub index: Option<u64>,
    pub block_time: Option<i64>,
    pub block_hash: Option<BlockHash>,
}

/// A block, without its transactions.
#[derive(Debug, PartialEq, Eq)]
pub struct BlockDetails {
    pub slot: u64,
    pub block_hash: Option<BlockHash>,
    pub previous_block_hash: Option<BlockHash>,
    pub rewards: Option<Vec<Reward>>,
    pub num_reward_partitions: Option<u64>,
    pub block_time: Option<i64>,
    pub block_height: Option<u64>,
}

/// An update of the pipeline.
#[derive(Debug, PartialEq, Eq)]
pub enum Update {
    Account(AccountUpdate),
    Transaction(Box<TransactionUpdate>),
    AccountDeletion(AccountDeletion),
    BlockDetails(BlockDetails),
}

/// A point in time: seconds of the Unix epoch, and the nanoseconds past them.
#[derive(Debug, Clone, Copy, PartialEq, Eq, Structural)]
pub struct Timestamp {
    pub seconds: i64,
    pub nanos: u32,
}

/// A gap in a stream, from its loss to the first slot after its return.
#[derive(Debug, PartialEq, Eq)]
pub struct DatasourceDisconnection {
    pub source: String,
    pub disconnect_time: Timestamp,
    pub last_slot_before_disconnect: u64,
    pub first_slot_after_reconnect: u64,
    pub missed_slots: u64,
}

impl Update {
    /// The kind of the update.
    pub open spec fn kind(&self) -> UpdateType {
        match self {
            Update::Account(_) => UpdateType::AccountUpdate,
            Update::Transaction(_) => UpdateType::Transaction,
            Update::AccountDeletion(_) => UpdateType::AccountDeletion,
            Update::BlockDetails(_) => UpdateType::BlockDetails,
        }
    }

    /// The kind of the update.
    pub fn update_type(&self) -> (r: UpdateType)
        ensures
            r == self.kind(),
    {
        match self {
            Update::Account(_) => UpdateType::AccountUpdate,
            Update::Transaction(_) => UpdateType::Transaction,
            Update::AccountDeletion(_) => UpdateType::AccountDeletion,
            Update::BlockDetails(_) => UpdateType::BlockDetails,
        }
    }
}

impl UpdateType {
    /// The name of the kind.
    pub open spec fn name_text(&self) -> Seq<char> {
        match self {
            UpdateType::AccountUpdate => "AccountUpdate"@,
            UpdateType::Transaction => "Transaction"@,
            UpdateType::AccountDeletion => "AccountDeletion"@,
            UpdateType::BlockDetails => "BlockDetails"@,
        }
    }

    /// The name of the kind.
    pub fn name(&self) -> (r: &'static str)
        ensures
            r@ == self.name_text(),
    {
        match self {
            UpdateType::AccountUpdate => "AccountUpdate",
            UpdateType::Transaction => "Transaction",
            UpdateType::AccountDeletion => "AccountDeletion",
            UpdateType::BlockDetails => "BlockDetails",
        }
    }
}

} // verus!
