//! What the conversions give back, over what is put into them.
use crate::chain::{
    Account, CompiledInstruction, ConfirmedBlock, InnerInstructions, LoadedAddresses, MessageV1, Reward, RewardType,
    RewardsAndNumPartitions, TransactionStatusMeta, TransactionTokenBalance, TransactionWithStatusMeta,
    VersionedMessage, VersionedTransaction,
};
use crate::error::ConversionError;
use crate::keys::{BlockHash, Pubkey, Signature};
use crate::proto;
use solana_transaction_error::TransactionError;
use vstd::prelude::*;

verus! {

/// A slice is an address, a signature or a hash exactly if it has the length of one, and keeps
/// its bytes.
pub proof fn law_keys_of_slices(
    bytes: &[u8],
    address: Option<Pubkey>,
    signature: Option<Signature>,
    hash: Option<BlockHash>,
)
    requires
        call_ensures(Pubkey::from_slice, (bytes,), address),
        call_ensures(Signature::from_slice, (bytes,), signature),
        call_ensures(BlockHash::from_slice, (bytes,), hash),
    ensures
        address is Some <==> bytes@.len() == 32,
        address matches Some(out) ==> out.bytes@ == bytes@,
        signature is Some <==> bytes@.len() == 64,
        signature matches Some(out) ==> out.bytes@ == bytes@,
        hash is Some <==> bytes@.len() == 32,
        hash matches Some(out) ==> out.bytes@ == bytes@,
{
}

/// An address is made of exactly 32 bytes, and keeps them; anything else is refused.
pub proof fn law_create_pubkey(bytes: &[u8], r: Result<Pubkey, ConversionError>)
    requires
        call_ensures(crate::convert_from::create_pubkey, (bytes,), r),
    ensures
        bytes@.len() == 32 ==> (r matches Ok(key) && key.bytes@ == bytes@),
        bytes@.len() != 32 ==> r == Err::<Pubkey, _>(ConversionError::Legacy("failed to parse Pubkey")),
{
}

/// Addresses are made of 32 bytes each: all of them, in order, or none.
pub proof fn law_create_pubkey_vec(bytes: Vec<Vec<u8>>, r: Result<Vec<Pubkey>, ConversionError>)
    requires
        call_ensures(crate::convert_from::create_pubkey_vec, (bytes,), r),
    ensures
        r is Ok <==> forall|i: int| 0 <= i < bytes@.len() ==> (#[trigger] bytes@[i])@.len() == 32,
        r matches Ok(keys) ==> {
            &&& keys@.len() == bytes@.len()
            &&& forall|i: int| 0 <= i < bytes@.len() ==> (#[trigger] keys@[i]).bytes@ == bytes@[i]@
        },
        r matches Err(error) ==> error == ConversionError::Legacy("failed to parse Pubkey"),
{
    crate::laws::accounts::law_addresses_have_32_bytes_each(bytes@);
    if let Ok(keys) = r {
        crate::laws::accounts::law_addresses_are_kept(bytes@, keys@);
    }
}

/// Loaded addresses: those to write stay those to write, those to read stay those to read.
pub proof fn law_create_loaded_addresses(
    writable: Vec<Vec<u8>>,
    readonly: Vec<Vec<u8>>,
    r: Result<LoadedAddresses, ConversionError>,
)
    requires
        call_ensures(crate::convert_from::create_loaded_addresses, (writable, readonly), r),
    ensures
        r is Ok <==> {
            &&& forall|i: int| 0 <= i < writable@.len() ==> (#[trigger] writable@[i])@.len() == 32
            &&& forall|i: int| 0 <= i < readonly@.len() ==> (#[trigger] readonly@[i])@.len() == 32
        },
        r matches Ok(out) ==> {
            &&& out.writable@.len() == writable@.len()
            &&& forall|i: int| 0 <= i < writable@.len() ==> (#[trigger] out.writable@[i]).bytes@ == writable@[i]@
            &&& out.readonly@.len() == readonly@.len()
            &&& forall|i: int| 0 <= i < readonly@.len() ==> (#[trigger] out.readonly@[i]).bytes@ == readonly@[i]@
        },
{
    crate::laws::accounts::law_loaded_addresses_are_checked(writable@, readonly@);
    if let Ok(out) = r {
        crate::laws::accounts::law_loaded_addresses_are_kept(writable@, readonly@, out);
    }
}

/// An account is accepted exactly if its address and its owner have 32 bytes, and keeps both,
/// its balance, its data, its flag and its rent epoch.
pub proof fn law_create_account(
    account: proto::SubscribeUpdateAccountInfo,
    r: Result<(Pubkey, Account), ConversionError>,
)
    requires
        call_ensures(crate::convert_from::create_account, (account,), r),
    ensures
        r is Ok <==> account.pubkey@.len() == 32 && account.owner@.len() == 32,
        r matches Ok(out) ==> {
            &&& out.0.bytes@ == account.pubkey@
            &&& out.1.lamports == account.lamports
            &&& out.1.data@ == account.data@
            &&& out.1.owner.bytes@ == account.owner@
            &&& out.1.executable == account.executable
            &&& out.1.rent_epoch == account.rent_epoch
        },
        r matches Err(error) ==> error == ConversionError::Legacy("failed to parse Pubkey"),
{
    crate::laws::accounts::law_account_is_checked(account);
    if let Ok(out) = r {
        crate::laws::accounts::law_account_is_kept(account, out.0, out.1);
    }
}

/// To take the data out of an account leaves it without data, and else as it was.
pub proof fn law_take_account_data(account: &mut proto::SubscribeUpdateAccountInfo, r: Vec<u8>)
    requires
        call_ensures(crate::convert_from::take_account_data, (account,), r),
    ensures
        r@ == old(account).data@,
        final(account).data@.len() == 0,
        final(account).pubkey == old(account).pubkey,
        final(account).lamports == old(account).lamports,
        final(account).owner == old(account).owner,
        final(account).executable == old(account).executable,
        final(account).rent_epoch == old(account).rent_epoch,
        final(account).write_version == old(account).write_version,
        final(account).txn_signature == old(account).txn_signature,
{
}

/// An instruction is accepted exactly if the index of its program fits a byte, and keeps that
/// index, its accounts and its data.
pub proof fn law_create_message_instruction(
    ix: proto::CompiledInstruction,
    r: Result<CompiledInstruction, ConversionError>,
)
    requires
        call_ensures(crate::convert_from::create_message_instruction, (ix,), r),
    ensures
        r is Ok <==> ix.program_id_index < 256,
        r matches Ok(out) ==> {
            &&& out.program_id_index as int == ix.program_id_index as int
            &&& out.accounts@ == ix.accounts@
            &&& out.data@ == ix.data@
        },
        r matches Err(error) ==> error == ConversionError::Legacy(
            "failed to decode CompiledInstruction.program_id_index)",
        ),
{
}

/// Instructions are accepted exactly if the index of each program fits a byte, and keep their
/// number, their order and their fields.
pub proof fn law_create_message_instructions(
    ixs: Vec<proto::CompiledInstruction>,
    r: Result<Vec<CompiledInstruction>, ConversionError>,
)
    requires
        call_ensures(crate::convert_from::create_message_instructions, (ixs,), r),
    ensures
        r is Ok <==> forall|i: int| 0 <= i < ixs@.len() ==> (#[trigger] ixs@[i]).program_id_index < 256,
        r matches Ok(out) ==> {
            &&& out@.len() == ixs@.len()
            &&& forall|i: int|
                0 <= i < ixs@.len() ==> {
                    &&& (#[trigger] out@[i]).program_id_index as int == ixs@[i].program_id_index as int
                    &&& out@[i].accounts@ == ixs@[i].accounts@
                    &&& out@[i].data@ == ixs@[i].data@
                }
        },
        r matches Err(error) ==> error == ConversionError::Legacy(
            "failed to decode CompiledInstruction.program_id_index)",
        ),
{
    crate::laws::messages::law_instructions_are_checked(ixs@);
    if let Ok(out) = r {
        crate::laws::messages::law_instructions_are_kept(ixs@, out@);
    }
}

/// An accepted message keeps its counts, its addresses, its block hash and its instructions,
/// whatever its version; a V0 message keeps all of its address table lookups, in order, and a
/// V1 message its configuration.
pub proof fn law_create_message(message: proto::Message, r: Result<VersionedMessage, ConversionError>)
    requires
        call_ensures(crate::convert_from::create_message, (message,), r),
    ensures
        r matches Ok(VersionedMessage::Legacy(out)) ==> {
            &&& message.config is None
            &&& !message.versioned
            &&& message.header matches Some(header)
            &&& out.header.num_required_signatures as int == header.num_required_signatures as int
            &&& out.header.num_readonly_signed_accounts as int == header.num_readonly_signed_accounts as int
            &&& out.header.num_readonly_unsigned_accounts as int == header.num_readonly_unsigned_accounts as int
            &&& out.account_keys@.len() == message.account_keys@.len()
            &&& forall|i: int|
                0 <= i < message.account_keys@.len() ==> (#[trigger] out.account_keys@[i]).bytes@
                    == message.account_keys@[i]@
            &&& out.recent_blockhash.bytes@ == message.recent_blockhash@
            &&& out.instructions@.len() == message.instructions@.len()
            &&& forall|i: int|
                0 <= i < message.instructions@.len() ==> {
                    &&& (#[trigger] out.instructions@[i]).program_id_index as int
                        == message.instructions@[i].program_id_index as int
                    &&& out.instructions@[i].accounts@ == message.instructions@[i].accounts@
                    &&& out.instructions@[i].data@ == message.instructions@[i].data@
                }
        },
        r matches Ok(VersionedMessage::V0(out)) ==> {
            &&& message.config is None
            &&& message.versioned
            &&& message.header matches Some(header)
            &&& out.header.num_required_signatures as int == header.num_required_signatures as int
            &&& out.header.num_readonly_signed_accounts as int == header.num_readonly_signed_accounts as int
            &&& out.header.num_readonly_unsigned_accounts as int == header.num_readonly_unsigned_accounts as int
            &&& out.account_keys@.len() == message.account_keys@.len()
            &&& forall|i: int|
                0 <= i < message.account_keys@.len() ==> (#[trigger] out.account_keys@[i]).bytes@
                    == message.account_keys@[i]@
            &&& out.recent_blockhash.bytes@ == message.recent_blockhash@
            &&& out.instructions@.len() == message.instructions@.len()
            &&& forall|i: int|
                0 <= i < message.instructions@.len() ==> {
                    &&& (#[trigger] out.instructions@[i]).program_id_index as int
                        == message.instructions@[i].program_id_index as int
                    &&& out.instructions@[i].accounts@ == message.instructions@[i].accounts@
                    &&& out.instructions@[i].data@ == message.instructions@[i].data@
                }
            &&& out.address_table_lookups@.len() == message.address_table_lookups@.len()
            &&& forall|i: int|
                0 <= i < message.address_table_lookups@.len() ==> {
                    &&& (#[trigger] out.address_table_lookups@[i]).account_key.bytes@
                        == message.address_table_lookups@[i].account_key@
                    &&& out.address_table_lookups@[i].writable_indexes@
                        == message.address_table_lookups@[i].writable_indexes@
                    &&& out.address_table_lookups@[i].readonly_indexes@
                        == message.address_table_lookups@[i].readonly_indexes@
                }
        },
        r matches Ok(VersionedMessage::V1(out)) ==> {
            &&& message.config matches Some(config)
            &&& out.config.priority_fee == config.priority_fee
            &&& out.config.compute_unit_limit == config.compute_unit_limit
            &&& out.config.loaded_accounts_data_size_limit == config.loaded_accounts_data_size_limit
            &&& out.config.heap_size == config.heap_size
            &&& message.header matches Some(header)
            &&& out.header.num_required_signatures as int == header.num_required_signatures as int
            &&& out.header.num_readonly_signed_accounts as int == header.num_readonly_signed_accounts as int
            &&& out.header.num_readonly_unsigned_accounts as int == header.num_readonly_unsigned_accounts as int
            &&& out.account_keys@.len() == message.account_keys@.len()
            &&& forall|i: int|
                0 <= i < message.account_keys@.len() ==> (#[trigger] out.account_keys@[i]).bytes@
                    == message.account_keys@[i]@
            &&& out.lifetime_specifier.bytes@ == message.recent_blockhash@
            &&& out.instructions@.len() == message.instructions@.len()
            &&& forall|i: int|
                0 <= i < message.instructions@.len() ==> {
                    &&& (#[trigger] out.instructions@[i]).program_id_index as int
                        == message.instructions@[i].program_id_index as int
                    &&& out.instructions@[i].accounts@ == message.instructions@[i].accounts@
                    &&& out.instructions@[i].data@ == message.instructions@[i].data@
                }
            &&& message.address_table_lookups@.len() == 0
        },
        r matches Err(error) ==> crate::convert_from::message_fault(message) == Some(error),
        r is Ok ==> crate::convert_from::message_fault(message) is None,
{
    match r {
        Ok(VersionedMessage::Legacy(out)) => crate::laws::messages::law_legacy_message_is_kept(message, out),
        Ok(VersionedMessage::V0(out)) => crate::laws::messages::law_v0_message_is_kept(message, out),
        Ok(VersionedMessage::V1(out)) => crate::laws::messages::law_v1_message_is_kept(message, out),
        Err(_) => {},
    }
}

/// A message without a configuration is accepted if and only if its header is whole, its block
/// hash and its addresses have 32 bytes each, its programs fit a byte and, where it is
/// versioned, its lookup tables have 32 bytes each.
pub proof fn law_create_message_accepts(message: proto::Message, r: Result<VersionedMessage, ConversionError>)
    requires
        call_ensures(crate::convert_from::create_message, (message,), r),
        message.config is None,
    ensures
        r is Ok <==> {
            &&& message.header matches Some(header)
            &&& header.num_required_signatures < 256
            &&& header.num_readonly_signed_accounts < 256
            &&& header.num_readonly_unsigned_accounts < 256
            &&& message.recent_blockhash@.len() == 32
            &&& forall|i: int|
                0 <= i < message.account_keys@.len() ==> (#[trigger] message.account_keys@[i])@.len() == 32
            &&& forall|i: int|
                0 <= i < message.instructions@.len() ==> (#[trigger] message.instructions@[i]).program_id_index < 256
            &&& message.versioned ==> forall|i: int|
                0 <= i < message.address_table_lookups@.len() ==> (#[trigger] message.address_table_lookups@[
                    i
                ]).account_key@.len() == 32
        },
        r matches Ok(out) ==> (out is V0 <==> message.versioned) && (out is Legacy <==> !message.versioned),
{
    crate::laws::messages::law_message_without_config_is_checked(message);
}

/// A V1 message that is checked comes back as it was, if it meets the rules of V1 messages and
/// its transaction has at most 4096 bytes, and only then.
pub proof fn law_check_v1_message(message: MessageV1, r: Result<MessageV1, ConversionError>)
    requires
        call_ensures(crate::v1::check_v1_message, (message,), r),
    ensures
        r is Ok <==> crate::v1::v1_rules(message@) && crate::v1::transaction_size(message@) <= 4096,
        r matches Ok(out) ==> out == message,
        crate::v1::v1_rules(message@) && crate::v1::transaction_size(message@) > 4096 ==> r == Err::<MessageV1, _>(
            ConversionError::V1TransactionTooLarge,
        ),
        crate::v1::broken_rule(message@) matches Some(kind) ==> r == Err::<MessageV1, _>(
            ConversionError::InvalidV1Message(crate::error::message_error(kind)),
        ),
{
    crate::v1::law_no_broken_rule(message@);
}

/// A V1 message that is found valid is accepted as it is if its transaction has at most 4096
/// bytes; one that is not is refused with what was found.
pub proof fn law_accept_v1_message(
    message: MessageV1,
    validity: Result<(), solana_message::v1::MessageError>,
    r: Result<MessageV1, ConversionError>,
)
    requires
        call_ensures(crate::v1::accept_v1_message, (message, validity), r),
    ensures
        validity matches Err(error) ==> r == Err::<MessageV1, _>(ConversionError::InvalidV1Message(error)),
        validity is Ok && crate::v1::transaction_size(message@) > 4096 ==> r == Err::<MessageV1, _>(
            ConversionError::V1TransactionTooLarge,
        ),
        validity is Ok && crate::v1::transaction_size(message@) <= 4096 ==> r == Ok::<_, ConversionError>(message),
{
}

/// Whatever its version, the header and the addresses of a message are its own.
pub proof fn law_message_accessors(message: &VersionedMessage, header: &crate::chain::MessageHeader, keys: &Vec<Pubkey>)
    requires
        call_ensures(VersionedMessage::header, (message,), header),
        call_ensures(VersionedMessage::static_account_keys, (message,), keys),
    ensures
        *message matches VersionedMessage::Legacy(inner) ==> *header == inner.header && keys@ == inner.account_keys@,
        *message matches VersionedMessage::V0(inner) ==> *header == inner.header && keys@ == inner.account_keys@,
        *message matches VersionedMessage::V1(inner) ==> *header == inner.header && keys@ == inner.account_keys@,
{
}

/// The kinds of reward of the wire format are numbered from 0 to 5.
pub proof fn law_reward_type_from_code(code: i32, r: Option<proto::RewardType>)
    requires
        call_ensures(proto::RewardType::from_code, (code,), r),
    ensures
        r is Some <==> 0 <= code <= 5,
        code == 0 ==> r == Some(proto::RewardType::Unspecified),
        code == 1 ==> r == Some(proto::RewardType::Fee),
        code == 2 ==> r == Some(proto::RewardType::Rent),
        code == 3 ==> r == Some(proto::RewardType::Staking),
        code == 4 ==> r == Some(proto::RewardType::Voting),
        code == 5 ==> r == Some(proto::RewardType::DeactivatedStake),
{
}

/// An accepted transaction keeps its signatures, in order, and what becomes of its message is
/// what becomes of a message.
pub proof fn law_create_tx_versioned(tx: proto::Transaction, r: Result<VersionedTransaction, ConversionError>)
    requires
        call_ensures(crate::convert_from::create_tx_versioned, (tx,), r),
    ensures
        r is Ok <==> {
            &&& forall|i: int| 0 <= i < tx.signatures@.len() ==> (#[trigger] tx.signatures@[i])@.len() == 64
            &&& tx.message matches Some(message)
            &&& crate::convert_from::message_fault(message) is None
            &&& message.config is Some ==> tx.signatures@.len() == message.header->0.num_required_signatures
        },
        r matches Ok(out) ==> {
            &&& out.signatures@.len() == tx.signatures@.len()
            &&& forall|i: int|
                0 <= i < tx.signatures@.len() ==> (#[trigger] out.signatures@[i]).bytes@ == tx.signatures@[i]@
            &&& tx.message matches Some(message)
            &&& crate::convert_from::message_matches(message, out.message)
        },
        r matches Err(error) ==> crate::convert_from::transaction_fault(tx) == Some(error),
{
    crate::laws::messages::law_transaction_is_checked(tx);
    if let Ok(out) = r {
        crate::laws::messages::law_transaction_is_kept(tx, out);
    }
}

/// An accepted reward keeps its account, its amounts and its kind, and has exactly the
/// commissions that are written.
pub proof fn law_create_reward(reward: proto::Reward, r: Result<Reward, ConversionError>)
    requires
        call_ensures(crate::convert_from::create_reward, (reward,), r),
    ensures
        r is Ok <==> {
            &&& reward.commission_bps@.len() > 0 ==> crate::text::parsed_unsigned(reward.commission_bps@, 65535)
                is Some
            &&& 0 <= reward.reward_type <= 5
            &&& reward.commission@.len() > 0 ==> crate::text::parsed_unsigned(reward.commission@, 255) is Some
        },
        r matches Ok(out) ==> {
            &&& out.pubkey@ == reward.pubkey@
            &&& out.lamports == reward.lamports
            &&& out.post_balance == reward.post_balance
            &&& reward.reward_type == 0 ==> out.reward_type is None
            &&& reward.reward_type == 1 ==> out.reward_type == Some(RewardType::Fee)
            &&& reward.reward_type == 2 ==> out.reward_type == Some(RewardType::Rent)
            &&& reward.reward_type == 3 ==> out.reward_type == Some(RewardType::Staking)
            &&& reward.reward_type == 4 ==> out.reward_type == Some(RewardType::Voting)
            &&& reward.reward_type == 5 ==> out.reward_type == Some(RewardType::DeactivatedStake)
            &&& out.commission is Some <==> reward.commission@.len() > 0
            &&& out.commission matches Some(percent) ==> crate::text::parsed_unsigned(reward.commission@, 255) == Some(
                percent as nat,
            )
            &&& out.commission_bps is Some <==> reward.commission_bps@.len() > 0
            &&& out.commission_bps matches Some(bps) ==> crate::text::parsed_unsigned(reward.commission_bps@, 65535)
                == Some(bps as nat)
        },
        r matches Err(error) ==> crate::convert_from::reward_fault(reward) == Some(error),
{
    crate::laws::statuses::law_reward_is_checked(reward);
    if let Ok(out) = r {
        crate::laws::statuses::law_reward_is_kept(reward, out);
    }
}

/// The accepted rewards of a block keep their number, their order and their fields, and the
/// number of partitions, where one is given.
pub proof fn law_create_rewards_obj(rewards: proto::Rewards, r: Result<RewardsAndNumPartitions, ConversionError>)
    requires
        call_ensures(crate::convert_from::create_rewards_obj, (rewards,), r),
    ensures
        r is Ok <==> forall|i: int|
            0 <= i < rewards.rewards@.len() ==> crate::convert_from::reward_fault(#[trigger] rewards.rewards@[i])
                is None,
        r matches Ok(out) ==> {
            &&& rewards.num_partitions is None ==> out.num_partitions is None
            &&& rewards.num_partitions matches Some(partitions) ==> out.num_partitions == Some(
                partitions.num_partitions,
            )
            &&& out.rewards@.len() == rewards.rewards@.len()
            &&& forall|i: int|
                0 <= i < rewards.rewards@.len() ==> {
                    &&& (#[trigger] out.rewards@[i]).pubkey@ == rewards.rewards@[i].pubkey@
                    &&& out.rewards@[i].lamports == rewards.rewards@[i].lamports
                    &&& out.rewards@[i].post_balance == rewards.rewards@[i].post_balance
                    &&& crate::convert_from::reward_matches(rewards.rewards@[i], out.rewards@[i])
                }
        },
{
    crate::laws::statuses::law_rewards_are_checked(rewards.rewards@);
    if let Ok(out) = r {
        crate::laws::statuses::law_partitions_are_kept(rewards, out);
        crate::laws::statuses::law_rewards_are_kept(rewards.rewards@, out.rewards@);
    }
}

/// Token balances are accepted exactly if each has an amount, and its account and its decimals
/// fit a byte; they keep their number, their order and their fields.
pub proof fn law_create_token_balances(
    balances: Vec<proto::TokenBalance>,
    r: Result<Vec<TransactionTokenBalance>, ConversionError>,
)
    requires
        call_ensures(crate::convert_from::create_token_balances, (balances,), r),
    ensures
        r is Ok <==> forall|i: int|
            0 <= i < balances@.len() ==> {
                &&& (#[trigger] balances@[i]).ui_token_amount matches Some(amount)
                &&& balances@[i].account_index < 256
                &&& amount.decimals < 256
            },
        r matches Ok(out) ==> {
            &&& out@.len() == balances@.len()
            &&& forall|i: int|
                0 <= i < balances@.len() ==> {
                    &&& (#[trigger] out@[i]).account_index as int == balances@[i].account_index as int
                    &&& out@[i].mint@ == balances@[i].mint@
                    &&& out@[i].owner@ == balances@[i].owner@
                    &&& out@[i].program_id@ == balances@[i].program_id@
                    &&& balances@[i].ui_token_amount matches Some(amount)
                    &&& out@[i].ui_token_amount.ui_amount_bits == Some(amount.ui_amount_bits)
                    &&& out@[i].ui_token_amount.decimals as int == amount.decimals as int
                    &&& out@[i].ui_token_amount.amount@ == amount.amount@
                    &&& out@[i].ui_token_amount.ui_amount_string@ == amount.ui_amount_string@
                }
        },
{
    crate::laws::statuses::law_token_balances_are_checked(balances@);
    assert forall|i: int| 0 <= i < balances@.len() implies (crate::convert_from::token_balance_fault(
        #[trigger] balances@[i],
    ) is None <==> {
        &&& balances@[i].ui_token_amount matches Some(amount)
        &&& balances@[i].account_index < 256
        &&& amount.decimals < 256
    }) by {
        crate::laws::statuses::law_token_balance_is_checked(balances@[i]);
    }
    if let Ok(out) = r {
        crate::laws::statuses::law_token_balances_are_kept(balances@, out@);
    }
}

/// The inner instructions of one instruction are accepted exactly if all indexes fit a byte;
/// they keep the index, their number, their order and their fields.
pub proof fn law_create_meta_inner_instruction(
    ix: proto::InnerInstructions,
    r: Result<InnerInstructions, ConversionError>,
)
    requires
        call_ensures(crate::convert_from::create_meta_inner_instruction, (ix,), r),
    ensures
        r is Ok <==> ix.index < 256 && forall|i: int|
            0 <= i < ix.instructions@.len() ==> (#[trigger] ix.instructions@[i]).program_id_index < 256,
        r matches Ok(out) ==> {
            &&& out.index as int == ix.index as int
            &&& out.instructions@.len() == ix.instructions@.len()
            &&& forall|i: int|
                0 <= i < ix.instructions@.len() ==> {
                    &&& (#[trigger] out.instructions@[i]).instruction.program_id_index as int
                        == ix.instructions@[i].program_id_index as int
                    &&& out.instructions@[i].instruction.accounts@ == ix.instructions@[i].accounts@
                    &&& out.instructions@[i].instruction.data@ == ix.instructions@[i].data@
                    &&& out.instructions@[i].stack_height == ix.instructions@[i].stack_height
                }
        },
{
    crate::laws::statuses::law_inner_instruction_is_checked(ix);
    if let Ok(out) = r {
        crate::laws::statuses::law_inner_instruction_is_kept(ix, out);
    }
}

/// The inner instructions of a transaction keep their number and their order, and each list its
/// index, its number, its order and its fields.
pub proof fn law_create_meta_inner_instructions(
    ixs: Vec<proto::InnerInstructions>,
    r: Result<Vec<InnerInstructions>, ConversionError>,
)
    requires
        call_ensures(crate::convert_from::create_meta_inner_instructions, (ixs,), r),
    ensures
        r matches Ok(out) ==> {
            &&& out@.len() == ixs@.len()
            &&& forall|i: int|
                0 <= i < ixs@.len() ==> {
                    &&& (#[trigger] out@[i]).index as int == ixs@[i].index as int
                    &&& out@[i].instructions@.len() == ixs@[i].instructions@.len()
                }
            &&& forall|i: int, j: int|
                0 <= i < ixs@.len() && 0 <= j < ixs@[i].instructions@.len() ==> {
                    let step = ixs@[i].instructions@[j];
                    let kept = #[trigger] out@[i].instructions@[j];
                    &&& kept.instruction.program_id_index as int == step.program_id_index as int
                    &&& kept.instruction.accounts@ == step.accounts@
                    &&& kept.instruction.data@ == step.data@
                    &&& kept.stack_height == step.stack_height
                }
        },
        r matches Err(error) ==> crate::convert_from::inner_instructions_fault(ixs@) == Some(error),
{
    if let Ok(out) = r {
        crate::laws::statuses::law_inner_instructions_are_kept(ixs@, out@);
    }
}

/// The error of a transaction is the one that is encoded; where none is encoded, there is none.
pub proof fn law_create_tx_error(
    encoded: &proto::EncodedTransactionError,
    none: Result<Option<TransactionError>, ConversionError>,
    some: Result<Option<TransactionError>, ConversionError>,
)
    requires
        call_ensures(crate::convert_from::create_tx_error, (None::<&proto::EncodedTransactionError>,), none),
        call_ensures(crate::convert_from::create_tx_error, (Some(encoded),), some),
    ensures
        none == Ok::<_, ConversionError>(None::<TransactionError>),
        crate::convert_from::decoded_transaction_error(encoded.err@) is None ==> some == Err::<
            Option<TransactionError>,
            _,
        >(ConversionError::Legacy("failed to decode TransactionError")),
        crate::convert_from::decoded_transaction_error(encoded.err@) matches Some(error) ==> some == Ok::<
            _,
            ConversionError,
        >(Some(error)),
{
}

/// What was decoded is the error; what could not be decoded is refused.
pub proof fn law_read_tx_error(
    decoded: Option<TransactionError>,
    r: Result<Option<TransactionError>, ConversionError>,
)
    requires
        call_ensures(crate::convert_from::read_tx_error, (decoded,), r),
    ensures
        decoded is Some ==> r == Ok::<_, ConversionError>(decoded),
        decoded is None ==> r == Err::<Option<TransactionError>, _>(
            ConversionError::Legacy("failed to decode TransactionError"),
        ),
{
}

/// For an accepted status, the token balances before the transaction are those of the input
/// before it, and the token balances after it are those of the input after it: as many, in
/// order, each with the fields of its own.
pub proof fn law_create_tx_meta_token_balances(
    meta: proto::TransactionStatusMeta,
    r: Result<TransactionStatusMeta, ConversionError>,
)
    requires
        call_ensures(crate::convert_from::create_tx_meta, (meta,), r),
    ensures
        r matches Ok(out) ==> {
            &&& out.pre_token_balances matches Some(pre)
            &&& pre@.len() == meta.pre_token_balances@.len()
            &&& forall|i: int|
                0 <= i < meta.pre_token_balances@.len() ==> {
                    let balance = meta.pre_token_balances@[i];
                    let kept = #[trigger] pre@[i];
                    &&& kept.account_index as int == balance.account_index as int
                    &&& kept.mint@ == balance.mint@
                    &&& kept.owner@ == balance.owner@
                    &&& kept.program_id@ == balance.program_id@
                    &&& balance.ui_token_amount matches Some(amount)
                    &&& kept.ui_token_amount.ui_amount_bits == Some(amount.ui_amount_bits)
                    &&& kept.ui_token_amount.decimals as int == amount.decimals as int
                    &&& kept.ui_token_amount.amount@ == amount.amount@
                    &&& kept.ui_token_amount.ui_amount_string@ == amount.ui_amount_string@
                }
            &&& out.post_token_balances matches Some(post)
            &&& post@.len() == meta.post_token_balances@.len()
            &&& forall|i: int|
                0 <= i < meta.post_token_balances@.len() ==> {
                    let balance = meta.post_token_balances@[i];
                    let kept = #[trigger] post@[i];
                    &&& kept.account_index as int == balance.account_index as int
                    &&& kept.mint@ == balance.mint@
                    &&& kept.owner@ == balance.owner@
                    &&& kept.program_id@ == balance.program_id@
                    &&& balance.ui_token_amount matches Some(amount)
                    &&& kept.ui_token_amount.ui_amount_bits == Some(amount.ui_amount_bits)
                    &&& kept.ui_token_amount.decimals as int == amount.decimals as int
                    &&& kept.ui_token_amount.amount@ == amount.amount@
                    &&& kept.ui_token_amount.ui_amount_string@ == amount.ui_amount_string@
                }
        },
{
    if let Ok(out) = r {
        crate::laws::statuses::law_status_token_balances_are_kept(meta, out);
    }
}

/// An accepted status keeps its outcome, its fee, its balances before and after, its logs, its
/// costs, its rewards, its loaded addresses and its returned data, each in its place.
pub proof fn law_create_tx_meta_fields(
    meta: proto::TransactionStatusMeta,
    r: Result<TransactionStatusMeta, ConversionError>,
)
    requires
        call_ensures(crate::convert_from::create_tx_meta, (meta,), r),
    ensures
        r matches Ok(out) ==> {
            &&& out.status is Ok <==> meta.err is None
            &&& meta.err matches Some(error) ==> out.status == Err::<(), _>(
                crate::convert_from::decoded_transaction_error(error.err@)->0,
            )
            &&& out.fee == meta.fee
            &&& out.pre_balances@ == meta.pre_balances@
            &&& out.post_balances@ == meta.post_balances@
            &&& out.log_messages matches Some(logs)
            &&& logs@ == meta.log_messages@
            &&& out.compute_units_consumed == meta.compute_units_consumed
            &&& out.cost_units == meta.cost_units
            &&& out.rewards matches Some(rewards)
            &&& rewards@.len() == meta.rewards@.len()
            &&& forall|i: int|
                0 <= i < meta.rewards@.len() ==> {
                    &&& (#[trigger] rewards@[i]).pubkey@ == meta.rewards@[i].pubkey@
                    &&& rewards@[i].lamports == meta.rewards@[i].lamports
                    &&& rewards@[i].post_balance == meta.rewards@[i].post_balance
                    &&& crate::convert_from::reward_matches(meta.rewards@[i], rewards@[i])
                }
            &&& out.loaded_addresses.writable@.len() == meta.loaded_writable_addresses@.len()
            &&& forall|i: int|
                0 <= i < meta.loaded_writable_addresses@.len() ==> (
                #[trigger] out.loaded_addresses.writable@[i]).bytes@ == meta.loaded_writable_addresses@[i]@
            &&& out.loaded_addresses.readonly@.len() == meta.loaded_readonly_addresses@.len()
            &&& forall|i: int|
                0 <= i < meta.loaded_readonly_addresses@.len() ==> (
                #[trigger] out.loaded_addresses.readonly@[i]).bytes@ == meta.loaded_readonly_addresses@[i]@
            &&& meta.return_data_none ==> out.return_data is None
            &&& !meta.return_data_none ==> ({
                &&& out.return_data matches Some(returned)
                &&& meta.return_data matches Some(data)
                &&& returned.program_id.bytes@ == data.program_id@
                &&& returned.data@ == data.data@
            })
        },
        r matches Err(error) ==> crate::convert_from::meta_fault(meta) == Some(error),
        r is Ok ==> crate::convert_from::meta_fault(meta) is None,
{
    if let Ok(out) = r {
        crate::laws::statuses::law_status_is_kept(meta, out);
        crate::laws::statuses::law_status_numbers_are_kept(meta, out);
        crate::laws::statuses::law_status_lists_are_kept(meta, out);
    }
}

/// An accepted status keeps its inner instructions: their number and order, the index of each
/// list, and every field of every step.
pub proof fn law_create_tx_meta_inner_instructions(
    meta: proto::TransactionStatusMeta,
    r: Result<TransactionStatusMeta, ConversionError>,
)
    requires
        call_ensures(crate::convert_from::create_tx_meta, (meta,), r),
    ensures
        r matches Ok(out) ==> {
            &&& out.inner_instructions matches Some(lists)
            &&& lists@.len() == meta.inner_instructions@.len()
            &&& forall|i: int|
                0 <= i < meta.inner_instructions@.len() ==> {
                    &&& (#[trigger] lists@[i]).index as int == meta.inner_instructions@[i].index as int
                    &&& lists@[i].instructions@.len() == meta.inner_instructions@[i].instructions@.len()
                }
            &&& forall|i: int, j: int|
                0 <= i < meta.inner_instructions@.len() && 0 <= j < meta.inner_instructions@[i].instructions@.len()
                    ==> {
                    let step = meta.inner_instructions@[i].instructions@[j];
                    let kept = #[trigger] lists@[i].instructions@[j];
                    &&& kept.instruction.program_id_index as int == step.program_id_index as int
                    &&& kept.instruction.accounts@ == step.accounts@
                    &&& kept.instruction.data@ == step.data@
                    &&& kept.stack_height == step.stack_height
                }
        },
{
    if let Ok(out) = r {
        crate::laws::statuses::law_status_inner_instructions_are_kept(meta, out);
    }
}

/// A transaction with its status is accepted exactly if both are there and accepted; each is
/// converted on its own.
pub proof fn law_create_tx_with_meta(
    tx: proto::SubscribeUpdateTransactionInfo,
    r: Result<TransactionWithStatusMeta, ConversionError>,
)
    requires
        call_ensures(crate::convert_from::create_tx_with_meta, (tx,), r),
    ensures
        r is Ok <==> {
            &&& tx.meta matches Some(meta)
            &&& tx.transaction matches Some(transaction)
            &&& crate::convert_from::transaction_fault(transaction) is None
            &&& crate::convert_from::meta_fault(meta) is None
        },
        r matches Ok(TransactionWithStatusMeta::Complete(out)) ==> {
            &&& tx.transaction matches Some(transaction)
            &&& tx.meta matches Some(meta)
            &&& crate::convert_from::transaction_matches(transaction, out.transaction)
            &&& crate::convert_from::meta_matches(meta, out.meta)
            &&& out.transaction.signatures@.len() == transaction.signatures@.len()
            &&& out.meta.fee == meta.fee
            &&& out.meta.status is Ok <==> meta.err is None
        },
{
    crate::laws::statuses::law_transaction_with_status_is_checked(tx);
    if let Ok(TransactionWithStatusMeta::Complete(out)) = r {
        crate::laws::statuses::law_status_is_kept(tx.meta->0, out.meta);
    }
}

/// An accepted block keeps its hashes, its parent's slot, its time, its height, its partitions,
/// its rewards and its transactions, in order.
pub proof fn law_create_block(block: proto::SubscribeUpdateBlock, r: Result<ConfirmedBlock, ConversionError>)
    requires
        call_ensures(crate::convert_from::create_block, (block,), r),
    ensures
        r matches Ok(out) ==> {
            &&& out.blockhash@ == block.blockhash@
            &&& out.previous_blockhash@ == block.parent_blockhash@
            &&& out.parent_slot == block.parent_slot
            &&& block.block_time matches Some(time)
            &&& out.block_time == Some(time.timestamp)
            &&& block.block_height matches Some(height)
            &&& out.block_height == Some(height.block_height)
            &&& block.rewards matches Some(rewards)
            &&& rewards.num_partitions is None ==> out.num_partitions is None
            &&& rewards.num_partitions matches Some(partitions) ==> out.num_partitions == Some(
                partitions.num_partitions,
            )
            &&& out.rewards@.len() == rewards.rewards@.len()
            &&& forall|i: int|
                0 <= i < rewards.rewards@.len() ==> {
                    &&& (#[trigger] out.rewards@[i]).pubkey@ == rewards.rewards@[i].pubkey@
                    &&& out.rewards@[i].lamports == rewards.rewards@[i].lamports
                    &&& out.rewards@[i].post_balance == rewards.rewards@[i].post_balance
                    &&& crate::convert_from::reward_matches(rewards.rewards@[i], out.rewards@[i])
                }
            &&& out.transactions@.len() == block.transactions@.len()
            &&& forall|i: int|
                0 <= i < block.transactions@.len() ==> {
                    &&& (#[trigger] out.transactions@[i]) matches TransactionWithStatusMeta::Complete(complete)
                    &&& block.transactions@[i].transaction matches Some(transaction)
                    &&& block.transactions@[i].meta matches Some(meta)
                    &&& crate::convert_from::transaction_matches(transaction, complete.transaction)
                    &&& crate::convert_from::meta_matches(meta, complete.meta)
                }
        },
        r matches Err(error) ==> crate::convert_from::block_fault(block) == Some(error),
        r is Ok ==> crate::convert_from::block_fault(block) is None,
{
    if let Ok(out) = r {
        crate::laws::statuses::law_block_is_kept(block, out);
    }
}

} // verus!
