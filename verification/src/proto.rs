//! The messages of the subscription stream, as they come off the wire.
//!
//! Every part that the wire format can leave out is an `Option`, keys and hashes are
//! byte strings of any length, and small numbers are wider than the chain allows.
use vstd::prelude::*;

verus! {

#[derive(Debug, Clone, Default, PartialEq)]
pub struct SubscribeUpdateBlock {
    pub slot: u64,
    pub blockhash: String,
    pub rewards: Option<Rewards>,
    pub block_time: Option<UnixTimestamp>,
    pub block_height: Option<BlockHeight>,
    pub parent_slot: u64,
    pub parent_blockhash: String,
    pub transactions: Vec<SubscribeUpdateTransactionInfo>,
    pub accounts: Vec<SubscribeUpdateAccountInfo>,
}

#[derive(Debug, Clone, Default, PartialEq)]
pub struct SubscribeUpdateTransactionInfo {
    pub signature: Vec<u8>,
    pub is_vote: bool,
    pub transaction: Option<Transaction>,
    pub meta: Option<TransactionStatusMeta>,
    pub index: u64,
}

#[derive(Debug, Clone, Default, PartialEq)]
pub struct SubscribeUpdateAccountInfo {
    pub pubkey: Vec<u8>,
    pub lamports: u64,
    pub owner: Vec<u8>,
    pub executable: bool,
    pub rent_epoch: u64,
    pub data: Vec<u8>,
    pub write_version: u64,
    pub txn_signature: Option<Vec<u8>>,
}

#[derive(Debug, Clone, Default, PartialEq)]
pub struct SubscribeUpdateAccount {
    pub account: Option<SubscribeUpdateAccountInfo>,
    pub slot: u64,
}

#[derive(Debug, Clone, Default, PartialEq)]
pub struct SubscribeUpdateTransaction {
    pub transaction: Option<SubscribeUpdateTransactionInfo>,
    pub slot: u64,
}

/// What one message of the stream brings.
#[derive(Debug, Clone, PartialEq)]
pub enum UpdateOneof {
    Account(SubscribeUpdateAccount),
    Slot(u64),
    Transaction(SubscribeUpdateTransaction),
    TransactionStatus,
    Block(SubscribeUpdateBlock),
    Ping,
    Pong,
    BlockMeta,
    Entry,
}

#[derive(Debug, Clone, Default, PartialEq)]
pub struct Transaction {
    pub signatures: Vec<Vec<u8>>,
    pub message: Option<Message>,
}

#[derive(Debug, Clone, Default, PartialEq)]
pub struct Message {
    pub header: Option<MessageHeader>,
    pub account_keys: Vec<Vec<u8>>,
    pub recent_blockhash: Vec<u8>,
    pub instructions: Vec<CompiledInstruction>,
    pub versioned: bool,
    pub address_table_lookups: Vec<MessageAddressTableLookup>,
    pub config: Option<TransactionConfig>,
}

#[derive(Debug, Clone, Copy, Default, PartialEq)]
pub struct MessageHeader {
    pub num_required_signatures: u32,
    pub num_readonly_signed_accounts: u32,
    pub num_readonly_unsigned_accounts: u32,
}

#[derive(Debug, Clone, Copy, Default, PartialEq)]
pub struct TransactionConfig {
    pub priority_fee: Option<u64>,
    pub compute_unit_limit: Option<u32>,
    pub loaded_accounts_data_size_limit: Option<u32>,
    pub heap_size: Option<u32>,
}

#[derive(Debug, Clone, Default, PartialEq)]
pub struct MessageAddressTableLookup {
    pub account_key: Vec<u8>,
    pub writable_indexes: Vec<u8>,
    pub readonly_indexes: Vec<u8>,
}

#[derive(Debug, Clone, Default, PartialEq)]
pub struct CompiledInstruction {
    pub program_id_index: u32,
    pub accounts: Vec<u8>,
    pub data: Vec<u8>,
}

#[derive(Debug, Clone, Default, PartialEq)]
pub struct InnerInstruction {
    pub program_id_index: u32,
    pub accounts: Vec<u8>,
    pub data: Vec<u8>,
    pub stack_height: Option<u32>,
}

#[derive(Debug, Clone, Default, PartialEq)]
pub struct InnerInstructions {
    pub index: u32,
    pub instructions: Vec<InnerInstruction>,
}

#[derive(Debug, Clone, Default, PartialEq)]
pub struct TransactionStatusMeta {
    pub err: Option<EncodedTransactionError>,
    pub fee: u64,
    pub pre_balances: Vec<u64>,
    pub post_balances: Vec<u64>,
    pub inner_instructions: Vec<InnerInstructions>,
    pub log_messages: Vec<String>,
    pub pre_token_balances: Vec<TokenBalance>,
    pub post_token_balances: Vec<TokenBalance>,
    pub rewards: Vec<Reward>,
    pub loaded_writable_addresses: Vec<Vec<u8>>,
    pub loaded_readonly_addresses: Vec<Vec<u8>>,
    pub return_data: Option<ReturnData>,
    pub return_data_none: bool,
    pub compute_units_consumed: Option<u64>,
    pub cost_units: Option<u64>,
}

/// A transaction error in its binary encoding.
#[derive(Debug, Clone, Default, PartialEq)]
pub struct EncodedTransactionError {
    pub err: Vec<u8>,
}

#[derive(Debug, Clone, Default, PartialEq)]
pub struct TokenBalance {
    pub account_index: u32,
    pub mint: String,
    pub ui_token_amount: Option<UiTokenAmount>,
    pub owner: String,
    pub program_id: String,
}

/// A token amount. The amount as a double-precision number is held by its bits.
#[derive(Debug, Clone, Default, PartialEq)]
pub struct UiTokenAmount {
    pub ui_amount_bits: u64,
    pub decimals: u32,
    pub amount: String,
    pub ui_amount_string: String,
}

#[derive(Debug, Clone, Default, PartialEq)]
pub struct ReturnData {
    pub program_id: Vec<u8>,
    pub data: Vec<u8>,
}

#[derive(Debug, Clone, Default, PartialEq)]
pub struct Reward {
    pub pubkey: String,
    pub lamports: i64,
    pub post_balance: u64,
    pub reward_type: i32,
    pub commission: String,
    pub commission_bps: String,
}

#[derive(Debug, Clone, Default, PartialEq)]
pub struct Rewards {
    pub rewards: Vec<Reward>,
    pub num_partitions: Option<NumPartitions>,
}

#[derive(Debug, Clone, Copy, Default, PartialEq)]
pub struct UnixTimestamp {
    pub timestamp: i64,
}

#[derive(Debug, Clone, Copy, Default, PartialEq)]
pub struct BlockHeight {
    pub block_height: u64,
}

#[derive(Debug, Clone, Copy, Default, PartialEq)]
pub struct NumPartitions {
    pub num_partitions: u64,
}

/// The kinds of reward of the wire format.
#[derive(Debug, Clone, Copy, PartialEq, Eq, Structural)]
pub enum RewardType {
    Unspecified,
    Fee,
    Rent,
    Staking,
    Voting,
    DeactivatedStake,
}

/// The kind of reward that a number of the wire format stands for.
pub open spec fn reward_type_of_code(code: i32) -> Option<RewardType> {
    if code == 0 {
        Some(RewardType::Unspecified)
    } else if code == 1 {
        Some(RewardType::Fee)
    } else if code == 2 {
        Some(RewardType::Rent)
    } else if code == 3 {
        Some(RewardType::Staking)
    } else if code == 4 {
        Some(RewardType::Voting)
    } else if code == 5 {
        Some(RewardType::DeactivatedStake)
    } else {
        None
    }
}

/// `yellowstone_grpc_proto::prelude::RewardType::try_from` on a number: the six kinds of
/// reward are numbered from zero, and no other number stands for one.
#[verifier::external_body]
fn decode_reward_type(code: i32) -> (r: Option<RewardType>)
    ensures
        r == reward_type_of_code(code),
{
    match yellowstone_grpc_proto::prelude::RewardType::try_from(code) {
        Err(_) => None,
        Ok(yellowstone_grpc_proto::prelude::RewardType::Unspecified) => Some(RewardType::Unspecified),
        Ok(yellowstone_grpc_proto::prelude::RewardType::Fee) => Some(RewardType::Fee),
        Ok(yellowstone_grpc_proto::prelude::RewardType::Rent) => Some(RewardType::Rent),
        Ok(yellowstone_grpc_proto::prelude::RewardType::Staking) => Some(RewardType::Staking),
        Ok(yellowstone_grpc_proto::prelude::RewardType::Voting) => Some(RewardType::Voting),
        Ok(yellowstone_grpc_proto::prelude::RewardType::DeactivatedStake) => Some(RewardType::DeactivatedStake),
    }
}

impl RewardType {
    /// The kind of reward that a number of the wire format stands for.
    pub fn from_code(code: i32) -> (r: Option<RewardType>)
        ensures
            r == reward_type_of_code(code),
    {
        decode_reward_type(code)
    }
}

} // verus!
