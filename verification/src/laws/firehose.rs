//! The transactions and blocks of the firehose.
use crate::chain::{Reward, VersionedMessage};
use crate::jetstreamer::{BlockData, RewardInfo, TransactionData};
use crate::keys::{Pubkey, PubkeySet};
use crate::pending::{BlockMetadata, PendingLimitReached, PendingTransactionKey};
use crate::stats::{JetstreamerInternalStats, Stats};
use crate::updates::{BlockDetails, TransactionUpdate};
use vstd::prelude::*;

verus! {

/// A transaction that is buffered waits last under its thread and its slot, as an update whose
/// signature, transaction, status and mark of votes are those of the transaction that the
/// firehose found, at its place in its slot, without the time and the hash of a block. What
/// waited there before it still does, in order, and nothing changes under any other key.
pub proof fn law_buffered_transaction_is_kept_whole(
    before: Map<PendingTransactionKey, Seq<TransactionUpdate>>,
    after: Map<PendingTransactionKey, Seq<TransactionUpdate>>,
    thread_id: usize,
    transaction: TransactionData,
)
    requires
        after == before.insert(
            (thread_id, transaction.slot),
            crate::pending::waiting(before, (thread_id, transaction.slot)).push(
                crate::jetstreamer::transaction_update(transaction),
            ),
        ),
    ensures
        ({
            let key = (thread_id, transaction.slot);
            let last = after[key].last();
            &&& after.contains_key(key)
            &&& last.signature == transaction.signature
            &&& last.transaction == transaction.transaction
            &&& last.meta == transaction.transaction_status_meta
            &&& last.is_vote == transaction.is_vote
            &&& last.slot == transaction.slot
            &&& last.index matches Some(index)
            &&& index as int == transaction.transaction_slot_index as int
            &&& last.block_time is None
            &&& last.block_hash is None
            &&& before.contains_key(key) ==> after[key].drop_last() == before[key]
            &&& !before.contains_key(key) ==> after[key].len() == 1
            &&& forall|other: PendingTransactionKey|
                other != key ==> (#[trigger] after.contains_key(other) <==> before.contains_key(other))
            &&& forall|other: PendingTransactionKey|
                other != key && #[trigger] before.contains_key(other) ==> after[other] == before[other]
        }),
{
    let key = (thread_id, transaction.slot);
    if before.contains_key(key) {
        assert(after[key].drop_last() =~= before[key]);
    }
}

/// What waits under a key: what the buffer holds there, and nothing where it holds nothing.
pub proof fn law_waiting(pending: Map<PendingTransactionKey, Seq<TransactionUpdate>>, key: PendingTransactionKey)
    ensures
        pending.contains_key(key) ==> crate::pending::waiting(pending, key) == pending[key],
        !pending.contains_key(key) ==> crate::pending::waiting(pending, key).len() == 0,
{
}

/// What waits under several keys comes key by key: under one key it is what the buffer holds
/// there, and under more keys one part follows the other.
pub proof fn law_all_waiting_comes_key_by_key(
    pending: Map<PendingTransactionKey, Seq<TransactionUpdate>>,
    first: Seq<PendingTransactionKey>,
    second: Seq<PendingTransactionKey>,
    key: PendingTransactionKey,
)
    ensures
        crate::pending::all_waiting(pending, Seq::empty()).len() == 0,
        pending.contains_key(key) ==> crate::pending::all_waiting(pending, seq![key]) == pending[key],
        crate::pending::all_waiting(pending, first + second) == crate::pending::all_waiting(pending, first)
            + crate::pending::all_waiting(pending, second),
    decreases second.len(),
{
    reveal_with_fuel(crate::pending::all_waiting, 2);
    assert(seq![key].drop_last() =~= Seq::empty());
    assert(seq![key].last() == key);
    if pending.contains_key(key) {
        assert(crate::pending::all_waiting(pending, seq![key]) =~= pending[key]);
    }
    if second.len() == 0 {
        assert(first + second =~= first);
        assert(crate::pending::all_waiting(pending, first) + crate::pending::all_waiting(pending, second)
            =~= crate::pending::all_waiting(pending, first));
    } else {
        law_all_waiting_comes_key_by_key(pending, first, second.drop_last(), key);
        assert((first + second).drop_last() =~= first + second.drop_last());
        assert(crate::pending::all_waiting(pending, first + second) =~= crate::pending::all_waiting(pending, first)
            + crate::pending::all_waiting(pending, second));
    }
}

/// Every transaction that waits under one of several keys comes out.
pub proof fn law_every_waiting_transaction_comes_out(
    pending: Map<PendingTransactionKey, Seq<TransactionUpdate>>,
    keys: Seq<PendingTransactionKey>,
    key: PendingTransactionKey,
    i: int,
)
    requires
        keys.contains(key),
        pending.contains_key(key),
        0 <= i < pending[key].len(),
    ensures
        crate::pending::all_waiting(pending, keys).contains(pending[key][i]),
    decreases keys.len(),
{
    let k = choose|k: int| 0 <= k < keys.len() && keys[k] == key;
    let rest = keys.drop_last();
    let out_rest = crate::pending::all_waiting(pending, rest);
    let out = crate::pending::all_waiting(pending, keys);
    if k == keys.len() - 1 {
        assert(out[out_rest.len() + i] == pending[key][i]);
    } else {
        assert(rest[k] == key);
        law_every_waiting_transaction_comes_out(pending, rest, key, i);
        let j = choose|j: int| 0 <= j < out_rest.len() && out_rest[j] == pending[key][i];
        assert(out[j] == out_rest[j]);
    }
}

/// The metadata of a block gives a transaction its time and its hash; without any, both stay
/// as they are.
pub proof fn law_metadata_is_given(transaction: TransactionUpdate, metadata: BlockMetadata)
    ensures
        crate::pending::with_metadata(transaction, Some(metadata)).block_time == metadata.block_time,
        crate::pending::with_metadata(transaction, Some(metadata)).block_hash == Some(metadata.block_hash),
        crate::pending::with_metadata(transaction, None).block_time == transaction.block_time,
        crate::pending::with_metadata(transaction, None).block_hash == transaction.block_hash,
{
}

/// A block lets out what waited under its thread and slot: as many transactions, in order, each
/// with the time and the hash of the block and else as it waited.
pub proof fn law_block_lets_transactions_out(
    pending: Map<PendingTransactionKey, Seq<TransactionUpdate>>,
    thread_id: usize,
    block: BlockData,
    out: Seq<TransactionUpdate>,
)
    requires
        out == crate::pending::waiting(pending, (thread_id, block.slot_of())).map_values(
            |transaction: TransactionUpdate| crate::pending::with_metadata(transaction, block.metadata()),
        ),
    ensures
        block matches BlockData::Block { slot, blockhash, block_time, .. } ==> {
            let key = (thread_id, slot);
            &&& !pending.contains_key(key) ==> out.len() == 0
            &&& pending.contains_key(key) ==> {
                &&& out.len() == pending[key].len()
                &&& forall|i: int|
                    0 <= i < out.len() ==> {
                        let waited = pending[key][i];
                        &&& (#[trigger] out[i]).block_time == block_time
                        &&& out[i].block_hash == Some(blockhash)
                        &&& out[i].signature == waited.signature
                        &&& out[i].transaction == waited.transaction
                        &&& out[i].meta == waited.meta
                        &&& out[i].is_vote == waited.is_vote
                        &&& out[i].slot == waited.slot
                        &&& out[i].index == waited.index
                    }
            }
        },
        block matches BlockData::PossibleLeaderSkipped { slot } ==> {
            let key = (thread_id, slot);
            &&& !pending.contains_key(key) ==> out.len() == 0
            &&& pending.contains_key(key) ==> out == pending[key]
        },
{
    if let BlockData::PossibleLeaderSkipped { slot } = block {
        if pending.contains_key((thread_id, slot)) {
            assert(out =~= pending[(thread_id, slot)]);
        }
    }
}

/// A transaction of the firehose from end to end: buffered, and let out by the block of its
/// slot on its thread, it has its own signature, contents, status, mark and place, and the time
/// and the hash of the block.
pub proof fn law_transaction_from_end_to_end(
    pending: Map<PendingTransactionKey, Seq<TransactionUpdate>>,
    buffered: Map<PendingTransactionKey, Seq<TransactionUpdate>>,
    thread_id: usize,
    transaction: TransactionData,
    block: BlockData,
    out: Seq<TransactionUpdate>,
)
    requires
        buffered == pending.insert(
            (thread_id, transaction.slot),
            crate::pending::waiting(pending, (thread_id, transaction.slot)).push(
                crate::jetstreamer::transaction_update(transaction),
            ),
        ),
        out == crate::pending::waiting(buffered, (thread_id, block.slot_of())).map_values(
            |waited: TransactionUpdate| crate::pending::with_metadata(waited, block.metadata()),
        ),
        block matches BlockData::Block { slot, .. } && slot == transaction.slot,
    ensures
        ({
            let last = out.last();
            &&& out.len() > 0
            &&& last.signature == transaction.signature
            &&& last.transaction == transaction.transaction
            &&& last.meta == transaction.transaction_status_meta
            &&& last.is_vote == transaction.is_vote
            &&& last.slot == transaction.slot
            &&& last.index matches Some(index)
            &&& index as int == transaction.transaction_slot_index as int
            &&& last.block_time == block->block_time
            &&& last.block_hash == Some(block->blockhash)
        }),
{
    law_buffered_transaction_is_kept_whole(pending, buffered, thread_id, transaction);
    law_block_lets_transactions_out(buffered, thread_id, block, out);
}

/// A block tells its slot, its hash and its time; a slot without a block tells its slot alone.
pub proof fn law_block_data(block: BlockData)
    ensures
        block matches BlockData::Block { slot, blockhash, block_time, .. } ==> {
            &&& block.slot_of() == slot
            &&& block.metadata() matches Some(metadata)
            &&& metadata.block_time == block_time
            &&& metadata.block_hash == blockhash
        },
        block matches BlockData::PossibleLeaderSkipped { slot } ==> block.slot_of() == slot && block.metadata() is None,
{
}

/// The details of a block keep its slot, its hash apart from that of its parent, its time, its
/// height, its partitions and its rewards, in order, each with its account, its amounts, its
/// kind and its commission.
pub proof fn law_block_details_are_kept(block: BlockData, out: BlockDetails)
    requires
        crate::jetstreamer::details_match(block, out),
    ensures
        block matches BlockData::Block { parent_blockhash, slot, blockhash, rewards, block_time, block_height } && {
            &&& out.slot == slot
            &&& out.block_hash == Some(blockhash)
            &&& out.previous_block_hash == Some(parent_blockhash)
            &&& out.block_time == block_time
            &&& out.block_height == block_height
            &&& out.num_reward_partitions == rewards.num_partitions
            &&& out.rewards is Some
            &&& out.rewards->0@.len() == rewards.keyed_rewards@.len()
            &&& forall|i: int|
                0 <= i < rewards.keyed_rewards@.len() ==> {
                    let keyed = rewards.keyed_rewards@[i];
                    &&& (#[trigger] out.rewards->0@[i]).pubkey@ == crate::keys::base58_text(keyed.0.bytes@)
                    &&& out.rewards->0@[i].lamports == keyed.1.lamports
                    &&& out.rewards->0@[i].post_balance == keyed.1.post_balance
                    &&& out.rewards->0@[i].reward_type == Some(keyed.1.reward_type)
                    &&& out.rewards->0@[i].commission_bps == keyed.1.commission_bps
                }
        },
{
    let rewards = block->rewards;
    law_block_rewards_are_kept(rewards.keyed_rewards@, out.rewards->0@);
}

/// The rewards of a block keep their number and their order, and each its account, its amounts,
/// its kind and its commission in hundredths of a percent; in percent it has it exactly where it
/// is whole and fits a byte.
pub proof fn law_block_rewards_are_kept(keyed: Seq<(Pubkey, RewardInfo)>, out: Seq<Reward>)
    requires
        crate::jetstreamer::block_rewards_match(keyed, out),
    ensures
        out.len() == keyed.len(),
        forall|i: int|
            0 <= i < keyed.len() ==> {
                &&& (#[trigger] out[i]).pubkey@ == crate::keys::base58_text(keyed[i].0.bytes@)
                &&& out[i].lamports == keyed[i].1.lamports
                &&& out[i].post_balance == keyed[i].1.post_balance
                &&& out[i].reward_type == Some(keyed[i].1.reward_type)
                &&& out[i].commission_bps == keyed[i].1.commission_bps
                &&& out[i].commission matches Some(percent) ==> keyed[i].1.commission_bps matches Some(bps) && percent
                    * 100 == bps
                &&& keyed[i].1.commission_bps matches Some(bps) ==> bps % 100 == 0 && bps <= 25500
                    ==> out[i].commission is Some
            },
{
    assert forall|i: int| 0 <= i < keyed.len() implies {
        &&& (#[trigger] out[i]).pubkey@ == crate::keys::base58_text(keyed[i].0.bytes@)
        &&& out[i].lamports == keyed[i].1.lamports
        &&& out[i].post_balance == keyed[i].1.post_balance
        &&& out[i].reward_type == Some(keyed[i].1.reward_type)
        &&& out[i].commission_bps == keyed[i].1.commission_bps
        &&& out[i].commission matches Some(percent) ==> keyed[i].1.commission_bps matches Some(bps) && percent * 100
            == bps
        &&& keyed[i].1.commission_bps matches Some(bps) ==> bps % 100 == 0 && bps <= 25500
            ==> out[i].commission is Some
    } by {
        assert(crate::jetstreamer::block_reward_matches(keyed[i], out[i]));
        law_percent_of_hundredths(keyed[i].1.commission_bps);
    }
}

/// A commission in percent is a hundredth of that in hundredths of a percent, and is there
/// exactly where that is a whole number of at most 255.
pub proof fn law_percent_of_hundredths(commission_bps: Option<u16>)
    ensures
        commission_bps is None ==> crate::jetstreamer::whole_percent(commission_bps) is None,
        commission_bps matches Some(bps) ==> {
            &&& crate::jetstreamer::whole_percent(commission_bps) is Some <==> bps % 100 == 0 && bps <= 25500
            &&& crate::jetstreamer::whole_percent(commission_bps) matches Some(percent) ==> percent * 100 == bps
        },
{
}

/// The addresses of a transaction are those that its message lists, whatever its version, those
/// that it loads to write and those that it loads to read, and no others.
pub proof fn law_transaction_addresses(transaction: TransactionData, listed: Seq<Pubkey>, address: Seq<u8>)
    requires
        match transaction.transaction.message {
            VersionedMessage::Legacy(message) => listed == message.account_keys@,
            VersionedMessage::V0(message) => listed == message.account_keys@,
            VersionedMessage::V1(message) => listed == message.account_keys@,
        },
    ensures
        crate::jetstreamer::transaction_addresses(transaction).contains(address) <==> {
            let loaded = transaction.transaction_status_meta.loaded_addresses;
            ||| exists|i: int| 0 <= i < listed.len() && (#[trigger] listed[i]).bytes@ == address
            ||| exists|i: int| 0 <= i < loaded.writable@.len() && (#[trigger] loaded.writable@[i]).bytes@ == address
            ||| exists|i: int| 0 <= i < loaded.readonly@.len() && (#[trigger] loaded.readonly@[i]).bytes@ == address
        },
{
    let loaded = transaction.transaction_status_meta.loaded_addresses;
    lemma_addresses(listed, address);
    lemma_addresses(loaded.writable@, address);
    lemma_addresses(loaded.readonly@, address);
}

/// An address is of a list exactly if one of the list has its bytes.
proof fn lemma_addresses(keys: Seq<Pubkey>, address: Seq<u8>)
    ensures
        crate::jetstreamer::addresses(keys).contains(address) <==> exists|i: int|
            0 <= i < keys.len() && (#[trigger] keys[i]).bytes@ == address,
{
    if crate::jetstreamer::addresses(keys).contains(address) {
        let i = choose|i: int| 0 <= i < keys.len() && (#[trigger] keys[i])@ == address;
        assert(keys[i].bytes@ == address);
    }
    if exists|i: int| 0 <= i < keys.len() && (#[trigger] keys[i]).bytes@ == address {
        let i = choose|i: int| 0 <= i < keys.len() && (#[trigger] keys[i]).bytes@ == address;
        assert(keys[i]@ == address);
    }
}

/// Every filter is asked about the accounts of a transaction, whether it is a vote, and whether
/// it failed. A transaction is wanted where there is no filter or one says yes, and left out
/// where there are some and all say no.
pub proof fn law_filters<F: Fn(&PubkeySet, bool, bool) -> bool>(
    filters: Seq<F>,
    accounts: &PubkeySet,
    transaction: TransactionData,
)
    ensures
        filters.len() == 0 ==> crate::jetstreamer::is_wanted(filters, transaction)
            && !crate::jetstreamer::filters_reject(filters, accounts, transaction),
        crate::jetstreamer::filters_accept(filters, accounts, transaction) <==> exists|i: int|
            0 <= i < filters.len() && call_ensures(
                #[trigger] filters[i],
                (accounts, transaction.is_vote, transaction.transaction_status_meta.status is Err),
                true,
            ),
        crate::jetstreamer::filters_reject(filters, accounts, transaction) ==> forall|i: int|
            0 <= i < filters.len() ==> call_ensures(
                #[trigger] filters[i],
                (accounts, transaction.is_vote, transaction.transaction_status_meta.status is Err),
                false,
            ),
        accounts@ == crate::jetstreamer::transaction_addresses(transaction) && crate::jetstreamer::filters_accept(
            filters,
            accounts,
            transaction,
        ) ==> crate::jetstreamer::is_wanted(filters, transaction),
        crate::jetstreamer::is_wanted(filters, transaction) && filters.len() > 0 ==> exists|
            asked: &PubkeySet,
            i: int,
        |
            #![trigger call_ensures(filters[i], (asked, transaction.is_vote, transaction.transaction_status_meta.status is Err), true)]
            asked@ == crate::jetstreamer::transaction_addresses(transaction) && 0 <= i < filters.len() && call_ensures(
                filters[i],
                (asked, transaction.is_vote, transaction.transaction_status_meta.status is Err),
                true,
            ),
{
    let failed = transaction.transaction_status_meta.status is Err;
    if crate::jetstreamer::is_wanted(filters, transaction) && filters.len() > 0 {
        let asked = choose|asked: &PubkeySet|
            asked@ == crate::jetstreamer::transaction_addresses(transaction) && #[trigger] crate::jetstreamer::filters_accept(
                filters,
                asked,
                transaction,
            );
        let i = choose|i: int|
            0 <= i < filters.len() && call_ensures(#[trigger] filters[i], (asked, transaction.is_vote, failed), true);
        assert(call_ensures(filters[i], (asked, transaction.is_vote, failed), true));
    }
}

/// The text of a full buffer names its limit.
pub proof fn law_full_buffer_is_named(max_len: usize)
    ensures
        (PendingLimitReached { max_len }).text() == "Jetstreamer metadata buffer reached its "@
            + crate::text::decimal_digits(max_len as nat) + " transaction limit"@,
{
}

/// The settings that hold unless said otherwise.
pub proof fn law_firehose_defaults()
    ensures
        crate::jetstreamer::DEFAULT_PENDING_TRANSACTION_LIMIT == 100_000,
        crate::jetstreamer::ARCHIVE_URL_VARIABLE == "JETSTREAMER_COMPACT_INDEX_BASE_URL",
        crate::jetstreamer::NETWORK_VARIABLE == "JETSTREAMER_NETWORK",
{
}

/// The numbers that a gauge can hold lie 1 apart below the 54th bit, and twice as far apart
/// with every bit more.
pub proof fn law_gauge_spacing(n: nat)
    ensures
        n < 0x20_0000_0000_0000 ==> crate::stats::spacing_of(n) == 1,
        n >= 0x10_0000_0000_0000 ==> crate::stats::spacing_of(2 * n) == 2 * crate::stats::spacing_of(n),
        n >= 0x10_0000_0000_0000 ==> crate::stats::spacing_of(2 * n + 1) == 2 * crate::stats::spacing_of(n),
{
    assert((2 * n) / 2 == n);
    assert((2 * n + 1) / 2 == n);
}

/// A gauge holds the nearest number that it can: a multiple of the spacing that is at most half
/// of it away, and the even multiple of two that are as near. It never reads back more than the
/// greatest count.
pub proof fn law_gauge_rounds_to_nearest(n: u64)
    ensures
        ({
            let spacing = crate::stats::spacing_of(n as nat);
            let held = crate::stats::gauge_value(n) as nat;
            exists|k: nat|
                {
                    let number = #[trigger] (k * spacing);
                    &&& 2 * number <= 2 * n + spacing
                    &&& 2 * n <= 2 * number + spacing
                    &&& 2 * number == 2 * n + spacing || 2 * n == 2 * number + spacing ==> k % 2 == 0
                    &&& number <= u64::MAX ==> held == number
                    &&& number > u64::MAX ==> held == u64::MAX
                }
        }),
{
    let spacing = crate::stats::spacing_of(n as nat);
    lemma_spacing_is_positive(n as nat);
    let below = n as nat / spacing;
    let rest = n as nat % spacing;
    vstd::arithmetic::div_mod::lemma_fundamental_div_mod(n as int, spacing as int);
    assert(spacing * below == below * spacing) by (nonlinear_arith);
    assert((below + 1) * spacing == below * spacing + spacing) by (nonlinear_arith);
    assert(0 <= rest < spacing);
    let k: nat = if 2 * rest > spacing || (2 * rest == spacing && below % 2 == 1) {
        below + 1
    } else {
        below
    };
    let number = k * spacing;
    assert(crate::stats::nearest_multiple(n as nat, spacing) == number);
    assert(2 * number <= 2 * n + spacing);
    assert(2 * n <= 2 * number + spacing);
}

/// Some distance lies between the numbers of a gauge.
proof fn lemma_spacing_is_positive(n: nat)
    ensures
        crate::stats::spacing_of(n) >= 1,
    decreases n,
{
    if n >= crate::stats::GAUGE_LIMIT {
        lemma_spacing_is_positive(n / 2);
    }
}

/// A report puts each of its counts into its own gauge, and the highest slot is the greater of
/// that before and that of the report.
pub proof fn law_reports_are_recorded(before: JetstreamerInternalStats, stats: Stats)
    requires
        before.wf(),
    ensures
        stats.slots_processed <= 0x20_0000_0000_0000 ==> before.after(stats).slots_processed == stats.slots_processed,
        stats.blocks_processed <= 0x20_0000_0000_0000 ==> before.after(stats).blocks_processed
            == stats.blocks_processed,
        stats.transactions_processed <= 0x20_0000_0000_0000 ==> before.after(stats).transactions_processed
            == stats.transactions_processed,
        before.after(stats).slots_processed == crate::stats::gauge_value(stats.slots_processed),
        before.after(stats).blocks_processed == crate::stats::gauge_value(stats.blocks_processed),
        before.after(stats).transactions_processed == crate::stats::gauge_value(stats.transactions_processed),
        stats.current_slot <= before.slot_high_watermark ==> before.after(stats).slot_high_watermark
            == before.slot_high_watermark,
        stats.current_slot > before.slot_high_watermark ==> before.after(stats).slot_high_watermark
            == crate::stats::gauge_value(stats.current_slot),
{
    if stats.slots_processed <= 0x20_0000_0000_0000 {
        crate::stats::law_small_counts_are_exact(stats.slots_processed);
    }
    if stats.blocks_processed <= 0x20_0000_0000_0000 {
        crate::stats::law_small_counts_are_exact(stats.blocks_processed);
    }
    if stats.transactions_processed <= 0x20_0000_0000_0000 {
        crate::stats::law_small_counts_are_exact(stats.transactions_processed);
    }
}

/// After a reset all counts are zero.
pub proof fn law_reset()
    ensures
        JetstreamerInternalStats::zero().slots_processed == 0,
        JetstreamerInternalStats::zero().blocks_processed == 0,
        JetstreamerInternalStats::zero().transactions_processed == 0,
        JetstreamerInternalStats::zero().slot_high_watermark == 0,
{
}

} // verus!
