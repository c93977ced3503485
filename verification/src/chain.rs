//! The converted messages: transactions, their status, and blocks, as the chain has them.
use crate::keys::{BlockHash, Pubkey, Signature};
use vstd::prelude::*;

verus! {

/// `solana_transaction_error::TransactionError`, carried through unread.
#[verifier::external_type_specification]
#[verifier::external_body]
pub struct ExTransactionError(solana_transaction_error::TransactionError);

#[derive(Debug, Clone, Copy, PartialEq, Eq)]
pub struct MessageHeader {
    pub num_required_signatures: u8,
    pub num_readonly_signed_accounts: u8,
    pub num_readonly_unsigned_accounts: u8,
}

#[derive(Debug, Clone, PartialEq, Eq)]
pub struct CompiledInstruction {
    pub program_id_index: u8,
    pub accounts: Vec<u8>,
    pub data: Vec<u8>,
}

#[derive(Debug, Clone, PartialEq, Eq)]
pub struct MessageAddressTableLookup {
    pub account_key: Pubkey,
    pub writable_indexes: Vec<u8>,
    pub readonly_indexes: Vec<u8>,
}

/// A message from before versions.
#[derive(Debug, Clone, PartialEq, Eq)]
pub struct LegacyMessage {
    pub header: MessageHeader,
    pub account_keys: Vec<Pubkey>,
    pub recent_blockhash: BlockHash,
    pub instructions: Vec<CompiledInstruction>,
}

/// A message that loads addresses from lookup tables.
#[derive(Debug, Clone, PartialEq, Eq)]
pub struct MessageV0 {
    pub header: MessageHeader,
    pub account_keys: Vec<Pubkey>,
    pub recent_blockhash: BlockHash,
    pub instructions: Vec<CompiledInstruction>,
    pub address_table_lookups: Vec<MessageAddressTableLookup>,
}

#[derive(Debug, Clone, Copy, PartialEq, Eq)]
pub struct TransactionConfig {
    pub priority_fee: Option<u64>,
    pub compute_unit_limit: Option<u32>,
    pub loaded_accounts_data_size_limit: Option<u32>,
    pub heap_size: Option<u32>,
}

/// A message that carries its own compute budget.
#[derive(Debug, Clone, PartialEq, Eq)]
pub struct MessageV1 {
    pub header: MessageHeader,
    pub config: TransactionConfig,
    pub lifetime_specifier: BlockHash,
    pub account_keys: Vec<Pubkey>,
    pub instructions: Vec<CompiledInstruction>,
}

#[derive(Debug, Clone, PartialEq, Eq)]
pub enum VersionedMessage {
    Legacy(LegacyMessage),
    V0(MessageV0),
    V1(MessageV1),
}

#[derive(Debug, Clone, PartialEq, Eq)]
pub struct VersionedTransaction {
    pub signatures: Vec<Signature>,
    pub message: VersionedMessage,
}

#[derive(Debug, Clone, PartialEq, Eq)]
pub struct InnerInstruction {
    pub instruction: CompiledInstruction,
    pub stack_height: Option<u32>,
}

#[derive(Debug, Clone, PartialEq, Eq)]
pub struct InnerInstructions {
    pub index: u8,
    pub instructions: Vec<InnerInstruction>,
}

#[derive(Debug, Clone, Copy, PartialEq, Eq, Structural)]
pub enum RewardType {
    Fee,
    Rent,
    Staking,
    Voting,
    DeactivatedStake,
}

#[derive(Debug, Clone, PartialEq, Eq)]
pub struct Reward {
    pub pubkey: String,
    pub lamports: i64,
    pub post_balance: u64,
    pub reward_type: Option<RewardType>,
    pub commission: Option<u8>,
    pub commission_bps: Option<u16>,
}

#[derive(Debug, Clone, PartialEq, Eq)]
pub struct RewardsAndNumPartitions {
    pub rewards: Vec<Reward>,
    pub num_partitions: Option<u64>,
}

/// A token amount. The amount as a double-precision number is held by its bits.
#[derive(Debug, Clone, PartialEq, Eq)]
pub struct UiTokenAmount {
    pub ui_amount_bits: Option<u64>,
    pub decimals: u8,
    pub amount: String,
    pub ui_amount_string: String,
}

#[derive(Debug, Clone, PartialEq, Eq)]
pub struct TransactionTokenBalance {
    pub account_index: u8,
    pub mint: String,
    pub ui_token_amount: UiTokenAmount,
    pub owner: String,
    pub program_id: String,
}

#[derive(Debug, Clone, PartialEq, Eq)]
pub struct LoadedAddresses {
    pub writable: Vec<Pubkey>,
    pub readonly: Vec<Pubkey>,
}

#[derive(Debug, Clone, PartialEq, Eq)]
pub struct TransactionReturnData {
    pub program_id: Pubkey,
    pub data: Vec<u8>,
}

#[derive(Debug, PartialEq, Eq)]
pub struct TransactionStatusMeta {
    pub status: Result<(), solana_transaction_error::TransactionError>,
    pub fee: u64,
    pub pre_balances: Vec<u64>,
    pub post_balances: Vec<u64>,
    pub inner_instructions: Option<Vec<InnerInstructions>>,
    pub log_messages: Option<Vec<String>>,
    pub pre_token_balances: Option<Vec<TransactionTokenBalance>>,
    pub post_token_balances: Option<Vec<TransactionTokenBalance>>,
    pub rewards: Option<Vec<Reward>>,
    pub loaded_addresses: LoadedAddresses,
    pub return_data: Option<TransactionReturnData>,
    pub compute_units_consumed: Option<u64>,
    pub cost_units: Option<u64>,
}

#[derive(Debug, PartialEq, Eq)]
pub struct VersionedTransactionWithStatusMeta {
    pub transaction: VersionedTransaction,
    pub meta: TransactionStatusMeta,
}

#[derive(Debug, PartialEq, Eq)]
pub enum TransactionWithStatusMeta {
    Complete(VersionedTransactionWithStatusMeta),
}

#[derive(Debug, PartialEq, Eq)]
pub struct ConfirmedBlock {
    pub previous_blockhash: String,
    pub blockhash: String,
    pub parent_slot: u64,
    pub transactions: Vec<TransactionWithStatusMeta>,
    pub rewards: Vec<Reward>,
    pub num_partitions: Option<u64>,
    pub block_time: Option<i64>,
    pub block_height: Option<u64>,
}

#[derive(Debug, Clone, PartialEq, Eq)]
pub struct Account {
    pub lamports: u64,
    pub data: Vec<u8>,
    pub owner: Pubkey,
    pub executable: bool,
    pub rent_epoch: u64,
}

impl VersionedMessage {
    /// The header of the message, whatever its version.
    pub open spec fn header_of(&self) -> MessageHeader {
        match self {
            VersionedMessage::Legacy(message) => message.header,
            VersionedMessage::V0(message) => message.header,
            VersionedMessage::V1(message) => message.header,
        }
    }

    /// The addresses that the message itself lists, whatever its version.
    pub open spec fn static_keys(&self) -> Seq<Pubkey> {
        match self {
            VersionedMessage::Legacy(message) => message.account_keys@,
            VersionedMessage::V0(message) => message.account_keys@,
            VersionedMessage::V1(message) => message.account_keys@,
        }
    }

    /// The block hash that bounds the life of the message, whatever its version.
    pub open spec fn blockhash(&self) -> BlockHash {
        match self {
            VersionedMessage::Legacy(message) => message.recent_blockhash,
            VersionedMessage::V0(message) => message.recent_blockhash,
            VersionedMessage::V1(message) => message.lifetime_specifier,
        }
    }

    /// The instructions of the message, whatever its version.
    pub open spec fn instruction_list(&self) -> Seq<CompiledInstruction> {
        match self {
            VersionedMessage::Legacy(message) => message.instructions@,
            VersionedMessage::V0(message) => message.instructions@,
            VersionedMessage::V1(message) => message.instructions@,
        }
    }

    /// The header of the message, whatever its version.
    pub fn header(&self) -> (r: &MessageHeader)
        ensures
            *r == self.header_of(),
    {
        match self {
            VersionedMessage::Legacy(message) => &message.header,
            VersionedMessage::V0(message) => &message.header,
            VersionedMessage::V1(message) => &message.header,
        }
    }

    /// The addresses that the message itself lists, whatever its version.
    pub fn static_account_keys(&self) -> (r: &Vec<Pubkey>)
        ensures
            r@ == self.static_keys(),
    {
        match self {
            VersionedMessage::Legacy(message) => &message.account_keys,
            VersionedMessage::V0(message) => &message.account_keys,
            VersionedMessage::V1(message) => &message.account_keys,
        }
    }
}

} // verus!
