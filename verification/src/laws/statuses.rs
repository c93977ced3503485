//! The status of transactions, rewards and blocks.
use crate::chain::{
    ConfirmedBlock, InnerInstructions, Reward, RewardType, RewardsAndNumPartitions, TransactionStatusMeta,
    TransactionTokenBalance, TransactionWithStatusMeta,
};
use crate::error::ConversionError;
use crate::proto;
use vstd::prelude::*;

verus! {

/// An accepted list of token balances keeps their number and their order, and each its
/// account, its mint, its owner, its program and its amount in all its forms.
pub proof fn law_token_balances_are_kept(balances: Seq<proto::TokenBalance>, out: Seq<TransactionTokenBalance>)
    requires
        crate::convert_from::token_balances_fault(balances) is None,
        crate::convert_from::token_balances_match(balances, out),
    ensures
        out.len() == balances.len(),
        forall|i: int|
            0 <= i < balances.len() ==> {
                &&& (#[trigger] out[i]).account_index as int == balances[i].account_index as int
                &&& out[i].mint@ == balances[i].mint@
                &&& out[i].owner@ == balances[i].owner@
                &&& out[i].program_id@ == balances[i].program_id@
                &&& balances[i].ui_token_amount matches Some(amount)
                &&& out[i].ui_token_amount.ui_amount_bits == Some(amount.ui_amount_bits)
                &&& out[i].ui_token_amount.decimals as int == amount.decimals as int
                &&& out[i].ui_token_amount.amount@ == amount.amount@
                &&& out[i].ui_token_amount.ui_amount_string@ == amount.ui_amount_string@
            },
{
    crate::convert_from::law_first_fault(balances, crate::convert_from::token_balance_check());
    assert forall|i: int| 0 <= i < balances.len() implies {
        &&& (#[trigger] out[i]).account_index as int == balances[i].account_index as int
        &&& out[i].mint@ == balances[i].mint@
        &&& out[i].owner@ == balances[i].owner@
        &&& out[i].program_id@ == balances[i].program_id@
        &&& balances[i].ui_token_amount matches Some(amount)
        &&& out[i].ui_token_amount.ui_amount_bits == Some(amount.ui_amount_bits)
        &&& out[i].ui_token_amount.decimals as int == amount.decimals as int
        &&& out[i].ui_token_amount.amount@ == amount.amount@
        &&& out[i].ui_token_amount.ui_amount_string@ == amount.ui_amount_string@
    } by {
        assert(crate::convert_from::token_balance_matches(balances[i], out[i]));
        assert((crate::convert_from::token_balance_check())(balances[i]) is None);
        assert(crate::convert_from::token_balance_fault(balances[i]) is None);
    }
}

/// A token balance is refused exactly if it has no amount, or its account or its decimals do
/// not fit a byte; the first of these is told.
pub proof fn law_token_balance_is_checked(balance: proto::TokenBalance)
    ensures
        balance.ui_token_amount is None ==> crate::convert_from::token_balance_fault(balance) == Some(
            ConversionError::Legacy("failed to get ui_token_amount"),
        ),
        balance.ui_token_amount matches Some(amount) ==> {
            &&& balance.account_index >= 256 ==> crate::convert_from::token_balance_fault(balance) == Some(
                ConversionError::Legacy("failed to parse account_index"),
            )
            &&& balance.account_index < 256 && amount.decimals >= 256 ==> crate::convert_from::token_balance_fault(
                balance,
            ) == Some(ConversionError::Legacy("failed to parse decimals"))
            &&& balance.account_index < 256 && amount.decimals < 256 ==> crate::convert_from::token_balance_fault(
                balance,
            ) is None
        },
{
}

/// A list of token balances is refused exactly if one of them is, with the error of the first.
pub proof fn law_token_balances_are_checked(balances: Seq<proto::TokenBalance>)
    ensures
        match crate::convert_from::token_balances_fault(balances) {
            None => forall|i: int|
                0 <= i < balances.len() ==> crate::convert_from::token_balance_fault(#[trigger] balances[i]) is None,
            Some(error) => exists|k: int|
                0 <= k < balances.len() && crate::convert_from::token_balance_fault(#[trigger] balances[k]) == Some(
                    error,
                ) && (forall|j: int|
                    0 <= j < k ==> crate::convert_from::token_balance_fault(#[trigger] balances[j]) is None),
        },
{
    let check = crate::convert_from::token_balance_check();
    crate::convert_from::law_first_fault(balances, check);
    assert forall|b: proto::TokenBalance| #[trigger] check(b) == crate::convert_from::token_balance_fault(b) by {}
    match crate::convert_from::token_balances_fault(balances) {
        None => {
            assert forall|i: int| 0 <= i < balances.len() implies crate::convert_from::token_balance_fault(
                #[trigger] balances[i],
            ) is None by {
                assert(check(balances[i]) is None);
            }
        },
        Some(error) => {
            let k = choose|k: int|
                0 <= k < balances.len() && check(#[trigger] balances[k]) == Some(error) && (forall|j: int|
                    0 <= j < k ==> check(#[trigger] balances[j]) is None);
            assert forall|j: int| 0 <= j < k implies crate::convert_from::token_balance_fault(
                #[trigger] balances[j],
            ) is None by {
                assert(check(balances[j]) is None);
            }
        },
    }
}

/// Accepted inner instructions keep the index of their instruction, their number and their
/// order, and each its program, its accounts, its data and its height.
pub proof fn law_inner_instruction_is_kept(ix: proto::InnerInstructions, out: InnerInstructions)
    requires
        crate::convert_from::inner_instruction_fault(ix) is None,
        crate::convert_from::inner_instruction_matches(ix, out),
    ensures
        out.index as int == ix.index as int,
        out.instructions@.len() == ix.instructions@.len(),
        forall|i: int|
            0 <= i < ix.instructions@.len() ==> {
                &&& (#[trigger] out.instructions@[i]).instruction.program_id_index as int
                    == ix.instructions@[i].program_id_index as int
                &&& out.instructions@[i].instruction.accounts@ == ix.instructions@[i].accounts@
                &&& out.instructions@[i].instruction.data@ == ix.instructions@[i].data@
                &&& out.instructions@[i].stack_height == ix.instructions@[i].stack_height
            },
{
    assert forall|i: int| 0 <= i < ix.instructions@.len() implies {
        &&& (#[trigger] out.instructions@[i]).instruction.program_id_index as int
            == ix.instructions@[i].program_id_index as int
        &&& out.instructions@[i].instruction.accounts@ == ix.instructions@[i].accounts@
        &&& out.instructions@[i].instruction.data@ == ix.instructions@[i].data@
        &&& out.instructions@[i].stack_height == ix.instructions@[i].stack_height
    } by {
        assert(crate::convert_from::inner_step_matches(ix.instructions@[i], out.instructions@[i]));
    }
}

/// Inner instructions are refused exactly if the index of a program, or of their instruction,
/// does not fit a byte; a program is told first.
pub proof fn law_inner_instruction_is_checked(ix: proto::InnerInstructions)
    ensures
        (exists|i: int| 0 <= i < ix.instructions@.len() && (#[trigger] ix.instructions@[i]).program_id_index >= 256)
            ==> crate::convert_from::inner_instruction_fault(ix) == Some(
            ConversionError::Legacy("failed to decode CompiledInstruction.program_id_index)"),
        ),
        (forall|i: int| 0 <= i < ix.instructions@.len() ==> (#[trigger] ix.instructions@[i]).program_id_index < 256)
            ==> {
            &&& ix.index >= 256 ==> crate::convert_from::inner_instruction_fault(ix) == Some(
                ConversionError::Legacy("failed to decode InnerInstructions.index"),
            )
            &&& ix.index < 256 ==> crate::convert_from::inner_instruction_fault(ix) is None
        },
{
}

/// The kinds of reward are numbered from 1; 0 stands for no kind, and no other number is one.
pub proof fn law_reward_kinds(code: i32)
    ensures
        crate::proto::reward_type_of_code(code) is Some <==> 0 <= code <= 5,
        code == 0 ==> crate::proto::reward_type_of_code(code) == Some(proto::RewardType::Unspecified),
        code == 1 ==> crate::proto::reward_type_of_code(code) == Some(proto::RewardType::Fee),
        code == 2 ==> crate::proto::reward_type_of_code(code) == Some(proto::RewardType::Rent),
        code == 3 ==> crate::proto::reward_type_of_code(code) == Some(proto::RewardType::Staking),
        code == 4 ==> crate::proto::reward_type_of_code(code) == Some(proto::RewardType::Voting),
        code == 5 ==> crate::proto::reward_type_of_code(code) == Some(proto::RewardType::DeactivatedStake),
        code == 0 ==> crate::convert_from::reward_kind(code) is None,
        code == 1 ==> crate::convert_from::reward_kind(code) == Some(RewardType::Fee),
        code == 2 ==> crate::convert_from::reward_kind(code) == Some(RewardType::Rent),
        code == 3 ==> crate::convert_from::reward_kind(code) == Some(RewardType::Staking),
        code == 4 ==> crate::convert_from::reward_kind(code) == Some(RewardType::Voting),
        code == 5 ==> crate::convert_from::reward_kind(code) == Some(RewardType::DeactivatedStake),
{
}

/// An accepted reward keeps its account, its amount, its balance and its kind; it has a
/// commission exactly where one is written, and the one that is written.
pub proof fn law_reward_is_kept(reward: proto::Reward, out: Reward)
    requires
        crate::convert_from::reward_fault(reward) is None,
        crate::convert_from::reward_matches(reward, out),
    ensures
        out.pubkey@ == reward.pubkey@,
        out.lamports == reward.lamports,
        out.post_balance == reward.post_balance,
        reward.reward_type == 0 ==> out.reward_type is None,
        reward.reward_type == 1 ==> out.reward_type == Some(RewardType::Fee),
        reward.reward_type == 2 ==> out.reward_type == Some(RewardType::Rent),
        reward.reward_type == 3 ==> out.reward_type == Some(RewardType::Staking),
        reward.reward_type == 4 ==> out.reward_type == Some(RewardType::Voting),
        reward.reward_type == 5 ==> out.reward_type == Some(RewardType::DeactivatedStake),
        0 <= reward.reward_type <= 5,
        out.commission is Some <==> reward.commission@.len() > 0,
        out.commission matches Some(percent) ==> crate::text::parsed_unsigned(reward.commission@, 255) == Some(
            percent as nat,
        ),
        out.commission_bps is Some <==> reward.commission_bps@.len() > 0,
        out.commission_bps matches Some(bps) ==> crate::text::parsed_unsigned(reward.commission_bps@, 65535) == Some(
            bps as nat,
        ),
{
    law_reward_kinds(reward.reward_type);
}

/// A commission that is written in decimal digits is read as the number that was written.
pub proof fn law_reward_commission_reads_back(reward: proto::Reward, out: Reward, percent: u8, bps: u16)
    requires
        crate::convert_from::reward_fault(reward) is None,
        crate::convert_from::reward_matches(reward, out),
    ensures
        reward.commission@ == crate::text::decimal_digits(percent as nat) ==> out.commission == Some(percent),
        reward.commission_bps@ == crate::text::decimal_digits(bps as nat) ==> out.commission_bps == Some(bps),
{
    crate::laws::numbers::law_decimal_reads_back(percent as nat, 255);
    crate::laws::numbers::law_decimal_reads_back(bps as nat, 65535);
}

/// A reward is refused exactly if a commission that is written is no number of its size, or
/// its kind has no such number; the basis points are told first, then the kind.
pub proof fn law_reward_is_checked(reward: proto::Reward)
    ensures
        crate::convert_from::reward_fault(reward) is None <==> {
            &&& reward.commission_bps@.len() > 0 ==> crate::text::parsed_unsigned(reward.commission_bps@, 65535)
                is Some
            &&& 0 <= reward.reward_type <= 5
            &&& reward.commission@.len() > 0 ==> crate::text::parsed_unsigned(reward.commission@, 255) is Some
        },
        reward.commission_bps@.len() > 0 && crate::text::parsed_unsigned(reward.commission_bps@, 65535) is None
            ==> crate::convert_from::reward_fault(reward) == Some(
            ConversionError::Legacy("failed to parse reward commission bps"),
        ),
        reward.commission_bps@.len() == 0 || crate::text::parsed_unsigned(reward.commission_bps@, 65535) is Some ==> {
            &&& !(0 <= reward.reward_type <= 5) ==> crate::convert_from::reward_fault(reward) == Some(
                ConversionError::Legacy("failed to parse reward_type"),
            )
            &&& 0 <= reward.reward_type <= 5 && reward.commission@.len() > 0 && crate::text::parsed_unsigned(
                reward.commission@,
                255,
            ) is None ==> crate::convert_from::reward_fault(reward) == Some(
                ConversionError::Legacy("failed to parse reward commission"),
            )
        },
{
    law_reward_kinds(reward.reward_type);
}

/// An accepted list of rewards keeps their number and their order, and each reward.
pub proof fn law_rewards_are_kept(rewards: Seq<proto::Reward>, out: Seq<Reward>)
    requires
        crate::convert_from::rewards_fault(rewards) is None,
        crate::convert_from::rewards_match(rewards, out),
    ensures
        out.len() == rewards.len(),
        forall|i: int|
            0 <= i < rewards.len() ==> {
                &&& (#[trigger] out[i]).pubkey@ == rewards[i].pubkey@
                &&& out[i].lamports == rewards[i].lamports
                &&& out[i].post_balance == rewards[i].post_balance
                &&& out[i].reward_type is None <==> rewards[i].reward_type == 0
                &&& out[i].commission is Some <==> rewards[i].commission@.len() > 0
                &&& out[i].commission_bps is Some <==> rewards[i].commission_bps@.len() > 0
                &&& crate::convert_from::reward_fault(rewards[i]) is None
                &&& crate::convert_from::reward_matches(rewards[i], out[i])
            },
{
    let check = crate::convert_from::reward_check();
    crate::convert_from::law_first_fault(rewards, check);
    assert forall|i: int| 0 <= i < rewards.len() implies {
        &&& (#[trigger] out[i]).pubkey@ == rewards[i].pubkey@
        &&& out[i].lamports == rewards[i].lamports
        &&& out[i].post_balance == rewards[i].post_balance
        &&& out[i].reward_type is None <==> rewards[i].reward_type == 0
        &&& out[i].commission is Some <==> rewards[i].commission@.len() > 0
        &&& out[i].commission_bps is Some <==> rewards[i].commission_bps@.len() > 0
        &&& crate::convert_from::reward_fault(rewards[i]) is None
        &&& crate::convert_from::reward_matches(rewards[i], out[i])
    } by {
        assert(crate::convert_from::reward_matches(rewards[i], out[i]));
        assert(check(rewards[i]) is None);
        law_reward_is_kept(rewards[i], out[i]);
    }
}

/// A list of rewards is refused exactly if one of them is, with the error of the first.
pub proof fn law_rewards_are_checked(rewards: Seq<proto::Reward>)
    ensures
        match crate::convert_from::rewards_fault(rewards) {
            None => forall|i: int|
                0 <= i < rewards.len() ==> crate::convert_from::reward_fault(#[trigger] rewards[i]) is None,
            Some(error) => exists|k: int|
                0 <= k < rewards.len() && crate::convert_from::reward_fault(#[trigger] rewards[k]) == Some(error) && (
                forall|j: int| 0 <= j < k ==> crate::convert_from::reward_fault(#[trigger] rewards[j]) is None),
        },
{
    let check = crate::convert_from::reward_check();
    crate::convert_from::law_first_fault(rewards, check);
    match crate::convert_from::rewards_fault(rewards) {
        None => {
            assert forall|i: int| 0 <= i < rewards.len() implies crate::convert_from::reward_fault(
                #[trigger] rewards[i],
            ) is None by {
                assert(check(rewards[i]) is None);
            }
        },
        Some(error) => {
            let k = choose|k: int|
                0 <= k < rewards.len() && check(#[trigger] rewards[k]) == Some(error) && (forall|j: int|
                    0 <= j < k ==> check(#[trigger] rewards[j]) is None);
            assert forall|j: int| 0 <= j < k implies crate::convert_from::reward_fault(#[trigger] rewards[j])
                is None by {
                assert(check(rewards[j]) is None);
            }
        },
    }
}

/// The rewards of a block keep their number of partitions, where one is given.
pub proof fn law_partitions_are_kept(rewards: proto::Rewards, out: RewardsAndNumPartitions)
    requires
        crate::convert_from::rewards_fault(rewards.rewards@) is None,
        crate::convert_from::rewards_obj_matches(rewards, out),
    ensures
        rewards.num_partitions is None ==> out.num_partitions is None,
        rewards.num_partitions matches Some(partitions) ==> out.num_partitions == Some(partitions.num_partitions),
        out.rewards@.len() == rewards.rewards@.len(),
        crate::convert_from::rewards_match(rewards.rewards@, out.rewards@),
{
}

/// A transaction without an error succeeded; one with an error failed with the error that is
/// encoded.
pub proof fn law_status_is_kept(meta: proto::TransactionStatusMeta, out: TransactionStatusMeta)
    requires
        crate::convert_from::meta_fault(meta) is None,
        crate::convert_from::meta_matches(meta, out),
    ensures
        out.status is Ok <==> meta.err is None,
        meta.err matches Some(error) ==> crate::convert_from::decoded_transaction_error(error.err@) is Some
            && out.status == Err::<(), _>(crate::convert_from::decoded_transaction_error(error.err@)->0),
{
}

/// An accepted status keeps its fee, its balances before and after, its logs and its costs,
/// each in its place.
pub proof fn law_status_numbers_are_kept(meta: proto::TransactionStatusMeta, out: TransactionStatusMeta)
    requires
        crate::convert_from::meta_fault(meta) is None,
        crate::convert_from::meta_matches(meta, out),
    ensures
        out.fee == meta.fee,
        out.pre_balances@ == meta.pre_balances@,
        out.post_balances@ == meta.post_balances@,
        out.log_messages matches Some(logs) && logs@ == meta.log_messages@,
        out.compute_units_consumed == meta.compute_units_consumed,
        out.cost_units == meta.cost_units,
{
}

/// The token balances before a transaction are those before it, and those after are those
/// after: each list keeps its number, its order, and every field of every balance.
pub proof fn law_status_token_balances_are_kept(meta: proto::TransactionStatusMeta, out: TransactionStatusMeta)
    requires
        crate::convert_from::meta_fault(meta) is None,
        crate::convert_from::meta_matches(meta, out),
    ensures
        out.pre_token_balances is Some,
        out.pre_token_balances->0@.len() == meta.pre_token_balances@.len(),
        forall|i: int|
            0 <= i < meta.pre_token_balances@.len() ==> {
                let balance = meta.pre_token_balances@[i];
                let kept = #[trigger] out.pre_token_balances->0@[i];
                &&& kept.account_index as int == balance.account_index as int
                &&& kept.mint@ == balance.mint@
                &&& kept.owner@ == balance.owner@
                &&& kept.program_id@ == balance.program_id@
                &&& balance.ui_token_amount matches Some(amount)
                &&& kept.ui_token_amount.ui_amount_bits == Some(amount.ui_amount_bits)
                &&& kept.ui_token_amount.decimals as int == amount.decimals as int
                &&& kept.ui_token_amount.amount@ == amount.amount@
                &&& kept.ui_token_amount.ui_amount_string@ == amount.ui_amount_string@
            },
        out.post_token_balances is Some,
        out.post_token_balances->0@.len() == meta.post_token_balances@.len(),
        forall|i: int|
            0 <= i < meta.post_token_balances@.len() ==> {
                let balance = meta.post_token_balances@[i];
                let kept = #[trigger] out.post_token_balances->0@[i];
                &&& kept.account_index as int == balance.account_index as int
                &&& kept.mint@ == balance.mint@
                &&& kept.owner@ == balance.owner@
                &&& kept.program_id@ == balance.program_id@
                &&& balance.ui_token_amount matches Some(amount)
                &&& kept.ui_token_amount.ui_amount_bits == Some(amount.ui_amount_bits)
                &&& kept.ui_token_amount.decimals as int == amount.decimals as int
                &&& kept.ui_token_amount.amount@ == amount.amount@
                &&& kept.ui_token_amount.ui_amount_string@ == amount.ui_amount_string@
            },
{
    law_token_balances_are_kept(meta.pre_token_balances@, out.pre_token_balances->0@);
    law_token_balances_are_kept(meta.post_token_balances@, out.post_token_balances->0@);
}

/// Accepted lists of inner instructions keep their number and their order, the index of each,
/// and every field of every step.
pub proof fn law_inner_instructions_are_kept(ixs: Seq<proto::InnerInstructions>, out: Seq<InnerInstructions>)
    requires
        crate::convert_from::inner_instructions_fault(ixs) is None,
        crate::convert_from::inner_instructions_match(ixs, out),
    ensures
        out.len() == ixs.len(),
        forall|i: int|
            0 <= i < ixs.len() ==> {
                &&& (#[trigger] out[i]).index as int == ixs[i].index as int
                &&& out[i].instructions@.len() == ixs[i].instructions@.len()
            },
        forall|i: int, j: int|
            0 <= i < ixs.len() && 0 <= j < ixs[i].instructions@.len() ==> {
                let step = ixs[i].instructions@[j];
                let kept = #[trigger] out[i].instructions@[j];
                &&& kept.instruction.program_id_index as int == step.program_id_index as int
                &&& kept.instruction.accounts@ == step.accounts@
                &&& kept.instruction.data@ == step.data@
                &&& kept.stack_height == step.stack_height
            },
{
    let check = crate::convert_from::inner_instruction_check();
    crate::convert_from::law_first_fault(ixs, check);
    assert forall|i: int| 0 <= i < ixs.len() implies {
        &&& (#[trigger] out[i]).index as int == ixs[i].index as int
        &&& out[i].instructions@.len() == ixs[i].instructions@.len()
    } by {
        assert(crate::convert_from::inner_instruction_matches(ixs[i], out[i]));
        assert(check(ixs[i]) is None);
        law_inner_instruction_is_kept(ixs[i], out[i]);
    }
    assert forall|i: int, j: int| 0 <= i < ixs.len() && 0 <= j < ixs[i].instructions@.len() implies {
        let step = ixs[i].instructions@[j];
        let kept = #[trigger] out[i].instructions@[j];
        &&& kept.instruction.program_id_index as int == step.program_id_index as int
        &&& kept.instruction.accounts@ == step.accounts@
        &&& kept.instruction.data@ == step.data@
        &&& kept.stack_height == step.stack_height
    } by {
        assert(crate::convert_from::inner_instruction_matches(ixs[i], out[i]));
        assert(check(ixs[i]) is None);
        law_inner_instruction_is_kept(ixs[i], out[i]);
    }
}

/// Lists of inner instructions are refused exactly if one of them is, with the error of the
/// first.
pub proof fn law_inner_instructions_are_checked(ixs: Seq<proto::InnerInstructions>)
    ensures
        match crate::convert_from::inner_instructions_fault(ixs) {
            None => forall|i: int|
                0 <= i < ixs.len() ==> crate::convert_from::inner_instruction_fault(#[trigger] ixs[i]) is None,
            Some(error) => exists|k: int|
                0 <= k < ixs.len() && crate::convert_from::inner_instruction_fault(#[trigger] ixs[k]) == Some(error)
                    && (forall|j: int|
                    0 <= j < k ==> crate::convert_from::inner_instruction_fault(#[trigger] ixs[j]) is None),
        },
{
    let check = crate::convert_from::inner_instruction_check();
    crate::convert_from::law_first_fault(ixs, check);
    match crate::convert_from::inner_instructions_fault(ixs) {
        None => {
            assert forall|i: int| 0 <= i < ixs.len() implies crate::convert_from::inner_instruction_fault(
                #[trigger] ixs[i],
            ) is None by {
                assert(check(ixs[i]) is None);
            }
        },
        Some(error) => {
            let k = choose|k: int|
                0 <= k < ixs.len() && check(#[trigger] ixs[k]) == Some(error) && (forall|j: int|
                    0 <= j < k ==> check(#[trigger] ixs[j]) is None);
            assert forall|j: int| 0 <= j < k implies crate::convert_from::inner_instruction_fault(
                #[trigger] ixs[j],
            ) is None by {
                assert(check(ixs[j]) is None);
            }
        },
    }
}

/// An accepted status keeps its inner instructions: their number and order, the index of each,
/// and every field of every step.
pub proof fn law_status_inner_instructions_are_kept(meta: proto::TransactionStatusMeta, out: TransactionStatusMeta)
    requires
        crate::convert_from::meta_fault(meta) is None,
        crate::convert_from::meta_matches(meta, out),
    ensures
        out.inner_instructions is Some,
        out.inner_instructions->0@.len() == meta.inner_instructions@.len(),
        forall|i: int|
            0 <= i < meta.inner_instructions@.len() ==> {
                &&& (#[trigger] out.inner_instructions->0@[i]).index as int == meta.inner_instructions@[i].index as int
                &&& out.inner_instructions->0@[i].instructions@.len()
                    == meta.inner_instructions@[i].instructions@.len()
            },
        forall|i: int, j: int|
            0 <= i < meta.inner_instructions@.len() && 0 <= j < meta.inner_instructions@[i].instructions@.len() ==> {
                let step = meta.inner_instructions@[i].instructions@[j];
                let kept = #[trigger] out.inner_instructions->0@[i].instructions@[j];
                &&& kept.instruction.program_id_index as int == step.program_id_index as int
                &&& kept.instruction.accounts@ == step.accounts@
                &&& kept.instruction.data@ == step.data@
                &&& kept.stack_height == step.stack_height
            },
{
    law_inner_instructions_are_kept(meta.inner_instructions@, out.inner_instructions->0@);
}

/// An accepted status keeps its rewards, in order, the addresses that were loaded to write and
/// to read, each list apart, and the data that was returned, unless none was.
pub proof fn law_status_lists_are_kept(meta: proto::TransactionStatusMeta, out: TransactionStatusMeta)
    requires
        crate::convert_from::meta_fault(meta) is None,
        crate::convert_from::meta_matches(meta, out),
    ensures
        out.rewards matches Some(rewards) && rewards@.len() == meta.rewards@.len(),
        forall|i: int|
            0 <= i < meta.rewards@.len() ==> {
                &&& (#[trigger] out.rewards->0@[i]).pubkey@ == meta.rewards@[i].pubkey@
                &&& out.rewards->0@[i].lamports == meta.rewards@[i].lamports
                &&& out.rewards->0@[i].post_balance == meta.rewards@[i].post_balance
                &&& crate::convert_from::reward_matches(meta.rewards@[i], out.rewards->0@[i])
            },
        out.loaded_addresses.writable@.len() == meta.loaded_writable_addresses@.len(),
        forall|i: int|
            0 <= i < meta.loaded_writable_addresses@.len() ==> (#[trigger] out.loaded_addresses.writable@[i]).bytes@
                == meta.loaded_writable_addresses@[i]@,
        out.loaded_addresses.readonly@.len() == meta.loaded_readonly_addresses@.len(),
        forall|i: int|
            0 <= i < meta.loaded_readonly_addresses@.len() ==> (#[trigger] out.loaded_addresses.readonly@[i]).bytes@
                == meta.loaded_readonly_addresses@[i]@,
        meta.return_data_none ==> out.return_data is None,
        !meta.return_data_none ==> ({
            &&& out.return_data matches Some(returned)
            &&& meta.return_data matches Some(data)
            &&& returned.program_id.bytes@ == data.program_id@
            &&& returned.data@ == data.data@
        }),
{
    law_rewards_are_kept(meta.rewards@, out.rewards->0@);
    crate::laws::accounts::law_loaded_addresses_are_kept(
        meta.loaded_writable_addresses@,
        meta.loaded_readonly_addresses@,
        out.loaded_addresses,
    );
    if !meta.return_data_none {
        assert(out.return_data->0.program_id@ == meta.return_data->0.program_id@);
    }
}

/// A status is accepted if and only if its error can be decoded, where it has one, all its
/// rewards, inner instructions and token balances are accepted, all loaded addresses have 32
/// bytes, and the data that was returned names a program, unless none was returned.
pub proof fn law_status_is_checked(meta: proto::TransactionStatusMeta)
    ensures
        crate::convert_from::meta_fault(meta) is None <==> {
            &&& meta.err matches Some(error) ==> crate::convert_from::decoded_transaction_error(error.err@) is Some
            &&& crate::convert_from::rewards_fault(meta.rewards@) is None
            &&& crate::convert_from::inner_instructions_fault(meta.inner_instructions@) is None
            &&& crate::convert_from::token_balances_fault(meta.pre_token_balances@) is None
            &&& crate::convert_from::token_balances_fault(meta.post_token_balances@) is None
            &&& forall|i: int|
                0 <= i < meta.loaded_writable_addresses@.len() ==> (#[trigger] meta.loaded_writable_addresses@[
                    i
                ])@.len() == 32
            &&& forall|i: int|
                0 <= i < meta.loaded_readonly_addresses@.len() ==> (#[trigger] meta.loaded_readonly_addresses@[
                    i
                ])@.len() == 32
            &&& !meta.return_data_none ==> (meta.return_data matches Some(data) && data.program_id@.len() == 32)
        },
        meta.err matches Some(error) ==> crate::convert_from::decoded_transaction_error(error.err@) is None
            ==> crate::convert_from::meta_fault(meta) == Some(
            ConversionError::Legacy("failed to decode TransactionError"),
        ),
{
    crate::laws::accounts::law_loaded_addresses_are_checked(
        meta.loaded_writable_addresses@,
        meta.loaded_readonly_addresses@,
    );
}

/// The data that was returned is refused exactly if it is neither there nor marked as none, or
/// its program has not 32 bytes.
pub proof fn law_return_data_is_checked(return_data_none: bool, return_data: Option<proto::ReturnData>)
    ensures
        return_data_none ==> crate::convert_from::return_data_fault(return_data_none, return_data) is None,
        !return_data_none && return_data is None ==> crate::convert_from::return_data_fault(
            return_data_none,
            return_data,
        ) == Some(ConversionError::Legacy("failed to get return_data")),
        return_data matches Some(data) ==> !return_data_none ==> {
            &&& data.program_id@.len() != 32 ==> crate::convert_from::return_data_fault(return_data_none, return_data)
                == Some(ConversionError::Legacy("failed to parse program_id"))
            &&& data.program_id@.len() == 32 ==> crate::convert_from::return_data_fault(return_data_none, return_data)
                is None
        },
{
}

/// The parts of a status are checked in a fixed order: the error, the rewards, the inner
/// instructions, the token balances before and after, the loaded addresses, the returned data.
/// The first that is refused is told.
pub proof fn law_status_faults_have_an_order(meta: proto::TransactionStatusMeta)
    requires
        meta.err matches Some(error) ==> crate::convert_from::decoded_transaction_error(error.err@) is Some,
    ensures
        match crate::convert_from::rewards_fault(meta.rewards@) {
            Some(error) => crate::convert_from::meta_fault(meta) == Some(error),
            None => match crate::convert_from::inner_instructions_fault(meta.inner_instructions@) {
                Some(error) => crate::convert_from::meta_fault(meta) == Some(error),
                None => match crate::convert_from::token_balances_fault(meta.pre_token_balances@) {
                    Some(error) => crate::convert_from::meta_fault(meta) == Some(error),
                    None => match crate::convert_from::token_balances_fault(meta.post_token_balances@) {
                        Some(error) => crate::convert_from::meta_fault(meta) == Some(error),
                        None => {
                            &&& (exists|i: int|
                                0 <= i < meta.loaded_writable_addresses@.len() && (
                                #[trigger] meta.loaded_writable_addresses@[i])@.len() != 32)
                                ==> crate::convert_from::meta_fault(meta) == Some(
                                ConversionError::Legacy("failed to parse Pubkey"),
                            )
                            &&& (exists|i: int|
                                0 <= i < meta.loaded_readonly_addresses@.len() && (
                                #[trigger] meta.loaded_readonly_addresses@[i])@.len() != 32)
                                ==> crate::convert_from::meta_fault(meta) == Some(
                                ConversionError::Legacy("failed to parse Pubkey"),
                            )
                            &&& (forall|i: int|
                                0 <= i < meta.loaded_writable_addresses@.len() ==> (
                                #[trigger] meta.loaded_writable_addresses@[i])@.len() == 32) && (forall|i: int|
                                0 <= i < meta.loaded_readonly_addresses@.len() ==> (
                                #[trigger] meta.loaded_readonly_addresses@[i])@.len() == 32)
                                ==> crate::convert_from::meta_fault(meta) == crate::convert_from::return_data_fault(
                                meta.return_data_none,
                                meta.return_data,
                            )
                        },
                    },
                },
            },
        },
{
    crate::laws::accounts::law_loaded_addresses_are_checked(
        meta.loaded_writable_addresses@,
        meta.loaded_readonly_addresses@,
    );
}

/// A transaction with its status is accepted if and only if both are there and accepted.
pub proof fn law_transaction_with_status_is_checked(tx: proto::SubscribeUpdateTransactionInfo)
    ensures
        crate::convert_from::tx_with_meta_fault(tx) is None <==> {
            &&& tx.meta matches Some(meta)
            &&& tx.transaction matches Some(transaction)
            &&& crate::convert_from::transaction_fault(transaction) is None
            &&& crate::convert_from::meta_fault(meta) is None
        },
        tx.meta is None ==> crate::convert_from::tx_with_meta_fault(tx) == Some(
            ConversionError::Legacy("failed to get transaction meta"),
        ),
        tx.meta is Some && tx.transaction is None ==> crate::convert_from::tx_with_meta_fault(tx) == Some(
            ConversionError::Legacy("failed to get transaction transaction"),
        ),
        tx.transaction matches Some(transaction) ==> tx.meta matches Some(meta)
            ==> crate::convert_from::transaction_fault(transaction) is None ==> crate::convert_from::tx_with_meta_fault(
            tx,
        ) == crate::convert_from::meta_fault(meta),
        tx.transaction matches Some(transaction) ==> tx.meta is Some && crate::convert_from::transaction_fault(
            transaction,
        ) is Some ==> crate::convert_from::tx_with_meta_fault(tx) == crate::convert_from::transaction_fault(
            transaction,
        ),
{
}

/// An accepted block keeps its own hash apart from that of its parent, its parent's slot, its
/// time, its height, its partitions, and its transactions and rewards in order.
pub proof fn law_block_is_kept(block: proto::SubscribeUpdateBlock, out: ConfirmedBlock)
    requires
        crate::convert_from::block_fault(block) is None,
        crate::convert_from::block_matches(block, out),
    ensures
        out.blockhash@ == block.blockhash@,
        out.previous_blockhash@ == block.parent_blockhash@,
        out.parent_slot == block.parent_slot,
        block.block_time matches Some(time) && out.block_time == Some(time.timestamp),
        block.block_height matches Some(height) && out.block_height == Some(height.block_height),
        block.rewards matches Some(rewards) && {
            &&& rewards.num_partitions is None ==> out.num_partitions is None
            &&& rewards.num_partitions matches Some(partitions) ==> out.num_partitions == Some(
                partitions.num_partitions,
            )
            &&& out.rewards@.len() == rewards.rewards@.len()
            &&& forall|i: int|
                0 <= i < rewards.rewards@.len() ==> {
                    &&& (#[trigger] out.rewards@[i]).pubkey@ == rewards.rewards@[i].pubkey@
                    &&& out.rewards@[i].lamports == rewards.rewards@[i].lamports
                    &&& out.rewards@[i].post_balance == rewards.rewards@[i].post_balance
                    &&& crate::convert_from::reward_matches(rewards.rewards@[i], out.rewards@[i])
                }
        },
        out.transactions@.len() == block.transactions@.len(),
        forall|i: int|
            0 <= i < block.transactions@.len() ==> {
                &&& (#[trigger] out.transactions@[i]) matches TransactionWithStatusMeta::Complete(complete)
                &&& block.transactions@[i].transaction matches Some(transaction)
                &&& block.transactions@[i].meta matches Some(meta)
                &&& crate::convert_from::transaction_fault(transaction) is None
                &&& crate::convert_from::transaction_matches(transaction, complete.transaction)
                &&& crate::convert_from::meta_fault(meta) is None
                &&& crate::convert_from::meta_matches(meta, complete.meta)
            },
{
    law_rewards_are_kept(block.rewards->0.rewards@, out.rewards@);
    let check = crate::convert_from::tx_with_meta_check();
    crate::convert_from::law_first_fault(block.transactions@, check);
    assert forall|i: int| 0 <= i < block.transactions@.len() implies {
        &&& (#[trigger] out.transactions@[i]) matches TransactionWithStatusMeta::Complete(complete)
        &&& block.transactions@[i].transaction matches Some(transaction)
        &&& block.transactions@[i].meta matches Some(meta)
        &&& crate::convert_from::transaction_fault(transaction) is None
        &&& crate::convert_from::transaction_matches(transaction, complete.transaction)
        &&& crate::convert_from::meta_fault(meta) is None
        &&& crate::convert_from::meta_matches(meta, complete.meta)
    } by {
        assert(check(block.transactions@[i]) is None);
        assert(crate::convert_from::tx_with_meta_matches(block.transactions@[i], out.transactions@[i]));
    }
}

/// A block is refused with the error of its first bad transaction, whatever else is wrong; then
/// for missing or bad rewards, a missing time and a missing height, in this order.
pub proof fn law_block_is_checked(block: proto::SubscribeUpdateBlock)
    ensures
        crate::convert_from::block_fault(block) is None ==> {
            &&& forall|i: int|
                0 <= i < block.transactions@.len() ==> crate::convert_from::tx_with_meta_fault(
                    #[trigger] block.transactions@[i],
                ) is None
            &&& block.rewards is Some
            &&& block.block_time is Some
            &&& block.block_height is Some
        },
        (exists|i: int|
            0 <= i < block.transactions@.len() && crate::convert_from::tx_with_meta_fault(
                #[trigger] block.transactions@[i],
            ) is Some) ==> exists|k: int|
            0 <= k < block.transactions@.len() && crate::convert_from::block_fault(block) is Some
                && crate::convert_from::block_fault(block) == crate::convert_from::tx_with_meta_fault(
                #[trigger] block.transactions@[k],
            ) && forall|j: int|
                0 <= j < k ==> crate::convert_from::tx_with_meta_fault(#[trigger] block.transactions@[j]) is None,
        (forall|i: int|
            0 <= i < block.transactions@.len() ==> crate::convert_from::tx_with_meta_fault(
                #[trigger] block.transactions@[i],
            ) is None) ==> {
            &&& block.rewards is None ==> crate::convert_from::block_fault(block) == Some(
                ConversionError::Legacy("failed to get rewards"),
            )
            &&& block.rewards matches Some(rewards) ==> {
                &&& crate::convert_from::rewards_fault(rewards.rewards@) is Some ==> crate::convert_from::block_fault(
                    block,
                ) == crate::convert_from::rewards_fault(rewards.rewards@)
                &&& crate::convert_from::rewards_fault(rewards.rewards@) is None ==> {
                    &&& block.block_time is None ==> crate::convert_from::block_fault(block) == Some(
                        ConversionError::Legacy("failed to get block_time"),
                    )
                    &&& block.block_time is Some && block.block_height is None ==> crate::convert_from::block_fault(
                        block,
                    ) == Some(ConversionError::Legacy("failed to get block_height"))
                    &&& block.block_time is Some && block.block_height is Some ==> crate::convert_from::block_fault(
                        block,
                    ) is None
                }
            }
        },
{
    let txs = block.transactions@;
    let check = crate::convert_from::tx_with_meta_check();
    crate::convert_from::law_first_fault(txs, check);
    assert(forall|i: int|
        0 <= i < txs.len() ==> check(#[trigger] txs[i]) == crate::convert_from::tx_with_meta_fault(txs[i]));
}

} // verus!
