//! The buffer of waiting transactions and the firehose, over what is put in and what comes out.
use crate::chain::Reward;
use crate::jetstreamer::{
    BlockData, BlockFlush, FirehosePlan, JetstreamerDatasource, JetstreamerFilter, JetstreamerRange, RewardInfo,
    TransactionData, TransactionVerdict,
};
use crate::keys::{Pubkey, PubkeySet};
use crate::pending::{BlockMetadata, PendingLimitReached, PendingTransactionBuffer, PendingTransactionKey};
use crate::stats::{JetstreamerInternalStats, JetstreamerStatsSnapshot, Stats};
use crate::updates::{TransactionUpdate, UpdateType};
use vstd::prelude::*;

verus! {

/// A transaction that is buffered waits last under its thread and its slot, as an update whose
/// signature, transaction, status and mark of votes are its own, at its place in its slot and
/// without the metadata of a block. One that is not wanted, and one that finds the buffer full,
/// change nothing.
pub proof fn law_buffer_transaction(
    thread_id: usize,
    transaction: TransactionData,
    wanted: bool,
    pending: &mut PendingTransactionBuffer,
    r: Result<TransactionVerdict, PendingLimitReached>,
)
    requires
        call_ensures(crate::jetstreamer::buffer_transaction, (thread_id, transaction, wanted, pending), r),
    ensures
        !wanted ==> r == Ok::<_, PendingLimitReached>(TransactionVerdict::FilteredOut),
        wanted && old(pending).count() < old(pending).limit() ==> r == Ok::<_, PendingLimitReached>(
            TransactionVerdict::Buffered,
        ),
        wanted && old(pending).count() >= old(pending).limit() ==> (r matches Err(error) && error.max_len == old(pending).limit()),
        r != Ok::<_, PendingLimitReached>(TransactionVerdict::Buffered) ==> final(pending)@ == old(pending)@ && final(pending).count() == old(pending).count(),
        r == Ok::<_, PendingLimitReached>(TransactionVerdict::Buffered) ==> {
            let key = (thread_id, transaction.slot);
            let last = final(pending)@[key].last();
            &&& final(pending)@.contains_key(key)
            &&& last.signature == transaction.signature
            &&& last.transaction == transaction.transaction
            &&& last.meta == transaction.transaction_status_meta
            &&& last.is_vote == transaction.is_vote
            &&& last.slot == transaction.slot
            &&& last.index matches Some(index)
            &&& index as int == transaction.transaction_slot_index as int
            &&& last.block_time is None
            &&& last.block_hash is None
            &&& old(pending)@.contains_key(key) ==> final(pending)@[key].drop_last() == old(pending)@[key]
            &&& !old(pending)@.contains_key(key) ==> final(pending)@[key].len() == 1
            &&& forall|other: PendingTransactionKey|
                other != key ==> (#[trigger] final(pending)@.contains_key(other) <==> old(pending)@.contains_key(
                    other,
                ))
            &&& forall|other: PendingTransactionKey|
                other != key && #[trigger] old(pending)@.contains_key(other) ==> final(pending)@[other] == old(pending)@[other]
            &&& final(pending).count() == old(pending).count() + 1
        },
        final(pending).limit() == old(pending).limit(),
{
    if r == Ok::<_, PendingLimitReached>(TransactionVerdict::Buffered) {
        crate::laws::firehose::law_buffered_transaction_is_kept_whole(
            old(pending)@,
            final(pending)@,
            thread_id,
            transaction,
        );
    }
}

/// Where there are no filters, every transaction is buffered while there is room, last under its
/// thread and its slot, with its own signature, transaction, status, mark and place.
pub proof fn law_on_transaction<F: Fn(&PubkeySet, bool, bool) -> bool>(
    thread_id: usize,
    transaction: TransactionData,
    filters: &Vec<F>,
    pending: &mut PendingTransactionBuffer,
    r: Result<TransactionVerdict, PendingLimitReached>,
)
    requires
        call_ensures(crate::jetstreamer::on_transaction::<F>, (thread_id, transaction, filters, pending), r),
    ensures
        filters@.len() == 0 && old(pending).count() < old(pending).limit() ==> r == Ok::<_, PendingLimitReached>(
            TransactionVerdict::Buffered,
        ),
        r == Ok::<_, PendingLimitReached>(TransactionVerdict::FilteredOut) ==> filters@.len() > 0 && exists|
            asked: &PubkeySet,
        |
            asked@ == crate::jetstreamer::transaction_addresses(transaction) && forall|i: int|
                0 <= i < filters@.len() ==> #[trigger] call_ensures(
                    filters@[i],
                    (asked, transaction.is_vote, transaction.transaction_status_meta.status is Err),
                    false,
                ),
        r is Err ==> old(pending).count() >= old(pending).limit(),
        r matches Err(error) ==> error.max_len == old(pending).limit(),
        r != Ok::<_, PendingLimitReached>(TransactionVerdict::Buffered) ==> final(pending)@ == old(pending)@,
        r == Ok::<_, PendingLimitReached>(TransactionVerdict::Buffered) ==> {
            let key = (thread_id, transaction.slot);
            let last = final(pending)@[key].last();
            &&& final(pending)@.contains_key(key)
            &&& last.signature == transaction.signature
            &&& last.transaction == transaction.transaction
            &&& last.meta == transaction.transaction_status_meta
            &&& last.is_vote == transaction.is_vote
            &&& last.slot == transaction.slot
            &&& last.index matches Some(index)
            &&& index as int == transaction.transaction_slot_index as int
            &&& last.block_time is None
            &&& last.block_hash is None
            &&& old(pending)@.contains_key(key) ==> final(pending)@[key].drop_last() == old(pending)@[key]
            &&& !old(pending)@.contains_key(key) ==> final(pending)@[key].len() == 1
            &&& forall|other: PendingTransactionKey|
                other != key && #[trigger] old(pending)@.contains_key(other) ==> final(pending)@[other] == old(pending)@[other]
        },
{
    if r == Ok::<_, PendingLimitReached>(TransactionVerdict::Buffered) {
        crate::laws::firehose::law_buffered_transaction_is_kept_whole(
            old(pending)@,
            final(pending)@,
            thread_id,
            transaction,
        );
    }
    if r == Ok::<_, PendingLimitReached>(TransactionVerdict::FilteredOut) {
        let asked = choose|asked: &PubkeySet|
            asked@ == crate::jetstreamer::transaction_addresses(transaction) && #[trigger] crate::jetstreamer::filters_reject(
                filters@,
                asked,
                transaction,
            );
        assert forall|i: int| 0 <= i < filters@.len() implies #[trigger] call_ensures(
            filters@[i],
            (asked, transaction.is_vote, transaction.transaction_status_meta.status is Err),
            false,
        ) by {
            assert(filters@[i] == filters@[i]);
        }
    }
}

/// Yes means that one of the filters said yes; without filters the answer is no.
pub proof fn law_any_filter_matches<F: Fn(&PubkeySet, bool, bool) -> bool>(
    filters: &Vec<F>,
    accounts: &PubkeySet,
    is_vote: bool,
    is_failed: bool,
    r: bool,
)
    requires
        call_ensures(crate::jetstreamer::any_filter_matches::<F>, (filters, accounts, is_vote, is_failed), r),
    ensures
        filters@.len() == 0 ==> !r,
        r ==> exists|i: int|
            0 <= i < filters@.len() && call_ensures(#[trigger] filters@[i], (accounts, is_vote, is_failed), true),
{
}

/// A transaction is wanted where there are no filters; where it is wanted and there are some, one
/// of them said yes to its accounts, its mark of votes and its outcome, and where it is not, all
/// of them said no.
pub proof fn law_transaction_wanted<F: Fn(&PubkeySet, bool, bool) -> bool>(
    transaction: &TransactionData,
    filters: &Vec<F>,
    r: bool,
)
    requires
        call_ensures(crate::jetstreamer::transaction_wanted::<F>, (transaction, filters), r),
    ensures
        filters@.len() == 0 ==> r,
        r && filters@.len() > 0 ==> exists|asked: &PubkeySet, i: int|
            #![trigger call_ensures(filters@[i], (asked, transaction.is_vote, transaction.transaction_status_meta.status is Err), true)]
            asked@ == crate::jetstreamer::transaction_addresses(*transaction) && 0 <= i < filters@.len()
                && call_ensures(
                filters@[i],
                (asked, transaction.is_vote, transaction.transaction_status_meta.status is Err),
                true,
            ),
        !r ==> exists|asked: &PubkeySet|
            asked@ == crate::jetstreamer::transaction_addresses(*transaction) && forall|i: int|
                0 <= i < filters@.len() ==> #[trigger] call_ensures(
                    filters@[i],
                    (asked, transaction.is_vote, transaction.transaction_status_meta.status is Err),
                    false,
                ),
{
    if r && filters@.len() > 0 {
        let asked = choose|asked: &PubkeySet|
            asked@ == crate::jetstreamer::transaction_addresses(*transaction) && #[trigger] crate::jetstreamer::filters_accept(
                filters@,
                asked,
                *transaction,
            );
        crate::laws::firehose::law_filters(filters@, asked, *transaction);
    }
    if !r {
        let asked = choose|asked: &PubkeySet|
            asked@ == crate::jetstreamer::transaction_addresses(*transaction) && #[trigger] crate::jetstreamer::filters_reject(
                filters@,
                asked,
                *transaction,
            );
        assert forall|i: int| 0 <= i < filters@.len() implies #[trigger] call_ensures(
            filters@[i],
            (asked, transaction.is_vote, transaction.transaction_status_meta.status is Err),
            false,
        ) by {
            assert(filters@[i] == filters@[i]);
        }
    }
}

/// The accounts of a transaction: those that its message lists and those that it loads.
pub proof fn law_transaction_accounts(
    transaction: &TransactionData,
    listed: Seq<Pubkey>,
    address: Seq<u8>,
    r: PubkeySet,
)
    requires
        call_ensures(crate::jetstreamer::transaction_accounts, (transaction,), r),
        match transaction.transaction.message {
            crate::chain::VersionedMessage::Legacy(message) => listed == message.account_keys@,
            crate::chain::VersionedMessage::V0(message) => listed == message.account_keys@,
            crate::chain::VersionedMessage::V1(message) => listed == message.account_keys@,
        },
    ensures
        r@.contains(address) <==> {
            let loaded = transaction.transaction_status_meta.loaded_addresses;
            ||| exists|i: int| 0 <= i < listed.len() && (#[trigger] listed[i]).bytes@ == address
            ||| exists|i: int| 0 <= i < loaded.writable@.len() && (#[trigger] loaded.writable@[i]).bytes@ == address
            ||| exists|i: int| 0 <= i < loaded.readonly@.len() && (#[trigger] loaded.readonly@[i]).bytes@ == address
        },
{
    crate::laws::firehose::law_transaction_addresses(*transaction, listed, address);
}

/// A new buffer is empty, and has its limit.
pub proof fn law_new_buffer(max_len: usize, r: PendingTransactionBuffer, len: usize)
    requires
        call_ensures(PendingTransactionBuffer::new, (max_len,), r),
        call_ensures(PendingTransactionBuffer::len, (&r,), len),
    ensures
        len == 0,
        r.limit() == max_len,
        forall|key: PendingTransactionKey| !#[trigger] r@.contains_key(key),
{
}

/// A transaction that is let wait is behind those that wait under the same key; a full buffer
/// refuses it, names its limit, and stays as it is.
pub proof fn law_push(
    buffer: &mut PendingTransactionBuffer,
    key: PendingTransactionKey,
    transaction: TransactionUpdate,
    r: Result<(), PendingLimitReached>,
)
    requires
        call_ensures(PendingTransactionBuffer::push, (buffer, key, transaction), r),
    ensures
        r is Err <==> old(buffer).count() >= old(buffer).limit(),
        r matches Err(error) ==> error.max_len == old(buffer).limit() && final(buffer)@ == old(buffer)@,
        r is Ok ==> {
            &&& final(buffer)@.contains_key(key)
            &&& final(buffer)@[key].last() == transaction
            &&& old(buffer)@.contains_key(key) ==> final(buffer)@[key].drop_last() == old(buffer)@[key]
            &&& !old(buffer)@.contains_key(key) ==> final(buffer)@[key].len() == 1
            &&& forall|other: PendingTransactionKey|
                other != key ==> (#[trigger] final(buffer)@.contains_key(other) <==> old(buffer)@.contains_key(other))
            &&& forall|other: PendingTransactionKey|
                other != key && #[trigger] old(buffer)@.contains_key(other) ==> final(buffer)@[other] == old(buffer)@[other]
            &&& final(buffer).count() == old(buffer).count() + 1
        },
        final(buffer).limit() == old(buffer).limit(),
{
    if r is Ok && old(buffer)@.contains_key(key) {
        assert(final(buffer)@[key].drop_last() =~= old(buffer)@[key]);
    }
}

/// What is taken out under a key is all that waits there, in order; what waits elsewhere stays.
pub proof fn law_remove(
    buffer: &mut PendingTransactionBuffer,
    key: PendingTransactionKey,
    r: Vec<TransactionUpdate>,
)
    requires
        call_ensures(PendingTransactionBuffer::remove, (buffer, key), r),
    ensures
        old(buffer)@.contains_key(key) ==> r@ == old(buffer)@[key],
        !old(buffer)@.contains_key(key) ==> r@.len() == 0,
        !final(buffer)@.contains_key(key),
        forall|other: PendingTransactionKey|
            other != key ==> (#[trigger] final(buffer)@.contains_key(other) <==> old(buffer)@.contains_key(other)),
        forall|other: PendingTransactionKey|
            other != key && #[trigger] old(buffer)@.contains_key(other) ==> final(buffer)@[other] == old(buffer)@[other],
        final(buffer).count() + r@.len() == old(buffer).count(),
        final(buffer).limit() == old(buffer).limit(),
{
}

/// What was let wait can be looked up, and comes out again.
pub proof fn law_get(
    buffer: &PendingTransactionBuffer,
    key: PendingTransactionKey,
    r: Option<&Vec<TransactionUpdate>>,
)
    requires
        call_ensures(PendingTransactionBuffer::get, (buffer, key), r),
    ensures
        r is Some <==> buffer@.contains_key(key),
        r matches Some(transactions) ==> transactions@ == buffer@[key],
{
}

/// The keys are those under which something waits, each once; under all of them together waits
/// as much as is counted.
pub proof fn law_keys(buffer: &PendingTransactionBuffer, key: PendingTransactionKey, r: Vec<PendingTransactionKey>)
    requires
        call_ensures(PendingTransactionBuffer::keys, (buffer,), r),
    ensures
        r@.contains(key) <==> buffer@.contains_key(key),
        forall|i: int, j: int| 0 <= i < j < r@.len() ==> #[trigger] r@[i] != #[trigger] r@[j],
        crate::pending::all_waiting(buffer@, r@).len() == buffer.count(),
{
    assert(r@.to_set().contains(key) <==> buffer@.dom().contains(key));
}

/// With the metadata of its block, what waits under a key comes out in order, each transaction
/// with the time and the hash of the block and else as it waited; without any, as it waited.
pub proof fn law_flush_pending_transactions(
    buffer: &mut PendingTransactionBuffer,
    key: PendingTransactionKey,
    metadata: Option<BlockMetadata>,
    r: Vec<TransactionUpdate>,
)
    requires
        call_ensures(crate::pending::flush_pending_transactions, (buffer, key, metadata), r),
    ensures
        !old(buffer)@.contains_key(key) ==> r@.len() == 0,
        old(buffer)@.contains_key(key) ==> {
            let waited = old(buffer)@[key];
            &&& r@.len() == waited.len()
            &&& forall|i: int|
                0 <= i < waited.len() ==> {
                    &&& (#[trigger] r@[i]).signature == waited[i].signature
                    &&& r@[i].transaction == waited[i].transaction
                    &&& r@[i].meta == waited[i].meta
                    &&& r@[i].is_vote == waited[i].is_vote
                    &&& r@[i].slot == waited[i].slot
                    &&& r@[i].index == waited[i].index
                    &&& metadata is None ==> r@[i].block_time == waited[i].block_time && r@[i].block_hash
                        == waited[i].block_hash
                    &&& metadata matches Some(block) ==> r@[i].block_time == block.block_time && r@[i].block_hash
                        == Some(block.block_hash)
                }
        },
        !final(buffer)@.contains_key(key),
        forall|other: PendingTransactionKey|
            other != key && #[trigger] old(buffer)@.contains_key(other) ==> final(buffer)@.contains_key(other)
                && final(buffer)@[other] == old(buffer)@[other],
        final(buffer).count() + r@.len() == old(buffer).count(),
{
}

/// Once the buffer is flushed, every transaction that waited came out as it waited, and nothing
/// waits any more.
pub proof fn law_flush_all(
    buffer: &mut PendingTransactionBuffer,
    key: PendingTransactionKey,
    i: int,
    r: Vec<TransactionUpdate>,
)
    requires
        call_ensures(crate::pending::flush_all_pending_transactions_without_block_time, (buffer,), r),
        old(buffer)@.contains_key(key),
        0 <= i < old(buffer)@[key].len(),
    ensures
        r@.contains(old(buffer)@[key][i]),
        r@.len() == old(buffer).count(),
        !final(buffer)@.contains_key(key),
        final(buffer).count() == 0,
{
    let keys = choose|keys: Seq<PendingTransactionKey>|
        keys.no_duplicates() && keys.to_set() == old(buffer)@.dom() && r@ == #[trigger] crate::pending::all_waiting(
            old(buffer)@,
            keys,
        );
    assert(keys.to_set().contains(key));
    crate::laws::firehose::law_every_waiting_transaction_comes_out(old(buffer)@, keys, key, i);
}

/// A block lets out what waited under its thread and its slot, in order, each transaction with
/// the time and the hash of the block and else as it waited; what waits elsewhere stays.
pub proof fn law_on_block_transactions(
    thread_id: usize,
    block: BlockData,
    pending: &mut PendingTransactionBuffer,
    emit_block_details: bool,
    r: BlockFlush,
)
    requires
        call_ensures(crate::jetstreamer::on_block, (thread_id, block, pending, emit_block_details), r),
    ensures
        block matches BlockData::Block { slot, blockhash, block_time, .. } ==> {
            let key = (thread_id, slot);
            &&& r.has_block_time == (block_time is Some)
            &&& !final(pending)@.contains_key(key)
            &&& !old(pending)@.contains_key(key) ==> r.transactions@.len() == 0
            &&& old(pending)@.contains_key(key) ==> {
                let waited = old(pending)@[key];
                &&& r.transactions@.len() == waited.len()
                &&& forall|i: int|
                    0 <= i < waited.len() ==> {
                        &&& (#[trigger] r.transactions@[i]).block_time == block_time
                        &&& r.transactions@[i].block_hash == Some(blockhash)
                        &&& r.transactions@[i].signature == waited[i].signature
                        &&& r.transactions@[i].transaction == waited[i].transaction
                        &&& r.transactions@[i].meta == waited[i].meta
                        &&& r.transactions@[i].is_vote == waited[i].is_vote
                        &&& r.transactions@[i].slot == waited[i].slot
                        &&& r.transactions@[i].index == waited[i].index
                    }
            }
        },
        block matches BlockData::PossibleLeaderSkipped { slot } ==> {
            let key = (thread_id, slot);
            &&& !r.has_block_time
            &&& r.details is None
            &&& !final(pending)@.contains_key(key)
            &&& !old(pending)@.contains_key(key) ==> r.transactions@.len() == 0
            &&& old(pending)@.contains_key(key) ==> r.transactions@ == old(pending)@[key]
        },
        forall|other: PendingTransactionKey|
            other != (thread_id, block.slot_of()) && #[trigger] old(pending)@.contains_key(other) ==> final(pending)@.contains_key(other) && final(pending)@[other] == old(pending)@[other],
        final(pending).count() + r.transactions@.len() == old(pending).count(),
{
    crate::laws::firehose::law_block_lets_transactions_out(old(pending)@, thread_id, block, r.transactions@);
}

/// The details of a block are told exactly where they are wanted and there is a block; they keep
/// its slot, its hash and that of its parent, its time, its height, its partitions and its
/// rewards.
pub proof fn law_on_block_details(
    thread_id: usize,
    block: BlockData,
    pending: &mut PendingTransactionBuffer,
    emit_block_details: bool,
    r: BlockFlush,
)
    requires
        call_ensures(crate::jetstreamer::on_block, (thread_id, block, pending, emit_block_details), r),
    ensures
        r.details is Some <==> emit_block_details && block is Block,
        r.details matches Some(out) ==> ({
            &&& block matches BlockData::Block {
                parent_blockhash,
                slot,
                blockhash,
                rewards,
                block_time,
                block_height,
            }
            &&& out.slot == slot
            &&& out.block_hash == Some(blockhash)
            &&& out.previous_block_hash == Some(parent_blockhash)
            &&& out.block_time == block_time
            &&& out.block_height == block_height
            &&& out.num_reward_partitions == rewards.num_partitions
            &&& out.rewards is Some
            &&& out.rewards->0@.len() == rewards.keyed_rewards@.len()
            &&& forall|i: int|
                0 <= i < rewards.keyed_rewards@.len() ==> {
                    let keyed = rewards.keyed_rewards@[i];
                    &&& (#[trigger] out.rewards->0@[i]).pubkey@ == crate::keys::base58_text(keyed.0.bytes@)
                    &&& out.rewards->0@[i].lamports == keyed.1.lamports
                    &&& out.rewards->0@[i].post_balance == keyed.1.post_balance
                    &&& out.rewards->0@[i].reward_type == Some(keyed.1.reward_type)
                    &&& out.rewards->0@[i].commission_bps == keyed.1.commission_bps
                }
        }),
{
    if let Some(out) = r.details {
        crate::laws::firehose::law_block_details_are_kept(block, out);
    }
}

/// The rewards of a block keep their number, their order and their fields, and a commission in
/// percent where it is whole and fits a byte.
pub proof fn law_block_rewards(keyed: &Vec<(Pubkey, RewardInfo)>, r: Vec<Reward>)
    requires
        call_ensures(crate::jetstreamer::block_rewards, (keyed,), r),
    ensures
        r@.len() == keyed@.len(),
        forall|i: int|
            0 <= i < keyed@.len() ==> {
                &&& (#[trigger] r@[i]).pubkey@ == crate::keys::base58_text(keyed@[i].0.bytes@)
                &&& r@[i].lamports == keyed@[i].1.lamports
                &&& r@[i].post_balance == keyed@[i].1.post_balance
                &&& r@[i].reward_type == Some(keyed@[i].1.reward_type)
                &&& r@[i].commission_bps == keyed@[i].1.commission_bps
                &&& r@[i].commission matches Some(percent) ==> keyed@[i].1.commission_bps matches Some(bps) && percent
                    * 100 == bps
                &&& keyed@[i].1.commission_bps matches Some(bps) ==> bps % 100 == 0 && bps <= 25500
                    ==> r@[i].commission is Some
            },
{
    crate::laws::firehose::law_block_rewards_are_kept(keyed@, r@);
}

/// A commission in percent is there exactly where it is whole and fits a byte, and is exact.
pub proof fn law_commission_percent(commission_bps: Option<u16>, r: Option<u8>)
    requires
        call_ensures(crate::jetstreamer::commission_percent, (commission_bps,), r),
    ensures
        r is Some <==> (commission_bps matches Some(bps) && bps % 100 == 0 && bps <= 25500),
        r matches Some(percent) ==> commission_bps matches Some(bps) && percent * 100 == bps,
{
    crate::laws::firehose::law_percent_of_hundredths(commission_bps);
}

/// Once the whole range is read, everything that still waits comes out as it waited; a run that
/// failed lets nothing out, and its error is the error.
pub proof fn law_on_firehose_end(
    run: Result<(), String>,
    pending: &mut PendingTransactionBuffer,
    key: PendingTransactionKey,
    i: int,
    r: Result<Vec<TransactionUpdate>, String>,
)
    requires
        call_ensures(crate::jetstreamer::on_firehose_end, (run, pending), r),
        old(pending)@.contains_key(key),
        0 <= i < old(pending)@[key].len(),
    ensures
        run is Ok ==> {
            &&& r matches Ok(left)
            &&& left@.contains(old(pending)@[key][i])
            &&& left@.len() == old(pending).count()
            &&& !final(pending)@.contains_key(key)
            &&& final(pending).count() == 0
        },
        run matches Err(error) ==> r == Err::<Vec<TransactionUpdate>, String>(error) && final(pending)@ == old(pending)@,
{
    if run is Ok {
        let left = r->Ok_0@;
        let keys = choose|keys: Seq<PendingTransactionKey>|
            keys.no_duplicates() && keys.to_set() == old(pending)@.dom() && left == #[trigger] crate::pending::all_waiting(
                old(pending)@,
                keys,
            );
        assert(keys.to_set().contains(key));
        crate::laws::firehose::law_every_waiting_transaction_comes_out(old(pending)@, keys, key, i);
    }
}

/// A full buffer is described with its limit.
pub proof fn law_describe_full_buffer(error: &PendingLimitReached, r: String)
    requires
        call_ensures(PendingLimitReached::describe, (error,), r),
    ensures
        r@ == "Jetstreamer metadata buffer reached its "@ + crate::text::decimal_digits(error.max_len as nat)
            + " transaction limit"@,
{
}

/// A new datasource keeps what it is made of, reads in parallel and forwards, with room for a
/// hundred thousand waiting transactions; the others set what they are named after, and keep
/// the rest.
pub proof fn law_datasources<F>(
    range: JetstreamerRange,
    filter: JetstreamerFilter<F>,
    threads: u64,
    interval: Option<u64>,
    archive_url: Option<String>,
    network: Option<String>,
    plain: JetstreamerDatasource<F>,
    mainnet: JetstreamerDatasource<F>,
    reverse: bool,
    window: Option<u64>,
    sequential: JetstreamerDatasource<F>,
    limit: usize,
    limited: JetstreamerDatasource<F>,
)
    requires
        call_ensures(
            JetstreamerDatasource::<F>::new,
            (range, filter, threads, interval, archive_url, network),
            plain,
        ),
        call_ensures(
            JetstreamerDatasource::<F>::new_with_old_faithful_mainnet,
            (range, filter, threads, interval),
            mainnet,
        ),
        call_ensures(JetstreamerDatasource::<F>::with_sequential_mode, (plain, reverse, window), sequential),
        call_ensures(JetstreamerDatasource::<F>::with_pending_transaction_limit, (plain, limit), limited),
    ensures
        plain.range == range && plain.filter == filter && plain.threads == threads,
        plain.tracking_interval_slots == interval && plain.archive_url == archive_url && plain.network == network,
        !plain.sequential && !plain.reverse && plain.buffer_window_bytes is None,
        plain.pending_transaction_limit == 100_000,
        mainnet.range == range && mainnet.filter == filter && mainnet.threads == threads,
        mainnet.tracking_interval_slots == interval && mainnet.archive_url is None && mainnet.network is None,
        !mainnet.sequential && !mainnet.reverse && mainnet.buffer_window_bytes is None,
        mainnet.pending_transaction_limit == 100_000,
        sequential.sequential && sequential.reverse == reverse && sequential.buffer_window_bytes == window,
        sequential.range == range && sequential.filter == filter && sequential.threads == threads,
        sequential.tracking_interval_slots == interval && sequential.archive_url == archive_url && sequential.network
            == network,
        sequential.pending_transaction_limit == 100_000,
        limited.pending_transaction_limit == limit,
        limited.range == range && limited.filter == filter && limited.threads == threads,
        limited.tracking_interval_slots == interval && limited.archive_url == archive_url && limited.network == network,
        !limited.sequential && !limited.reverse && limited.buffer_window_bytes is None,
{
}

/// The firehose is asked for the range, in the way that is set; for blocks wherever blocks or
/// transactions are wanted, for transactions where they are wanted. A datasource without room
/// for a waiting transaction is refused.
pub proof fn law_firehose_plan<F>(datasource: &JetstreamerDatasource<F>, r: Result<FirehosePlan, &'static str>)
    requires
        call_ensures(JetstreamerDatasource::<F>::firehose_plan, (datasource,), r),
    ensures
        r is Ok <==> datasource.pending_transaction_limit > 0,
        r matches Err(error) ==> error == "Jetstreamer pending transaction limit must be positive",
        r matches Ok(plan) ==> {
            &&& datasource.range == JetstreamerRange::Slot(plan.start_slot, plan.end_slot)
            &&& plan.threads == datasource.threads
            &&& plan.sequential == datasource.sequential
            &&& plan.reverse == datasource.reverse
            &&& plan.buffer_window_bytes == datasource.buffer_window_bytes
            &&& plan.request_blocks <==> datasource.filter.include_transactions || datasource.filter.include_blocks
            &&& plan.request_transactions == datasource.filter.include_transactions
            &&& plan.emit_block_details == datasource.filter.include_blocks
            &&& plan.tracking_interval_slots == datasource.tracking_interval_slots
            &&& plan.pending_transaction_limit == datasource.pending_transaction_limit
        },
{
}

/// The kinds of update of a datasource are those that are wanted of it; blocks are asked for
/// wherever transactions are.
pub proof fn law_wanted_kinds<F>(
    datasource: &JetstreamerDatasource<F>,
    kinds: Vec<UpdateType>,
    transactions: bool,
    blocks: bool,
    requested: bool,
    range: &JetstreamerRange,
    slots: (u64, u64),
)
    requires
        call_ensures(JetstreamerDatasource::<F>::update_types, (datasource,), kinds),
        call_ensures(crate::jetstreamer::should_request_blocks, (transactions, blocks), requested),
        call_ensures(JetstreamerRange::into_slots, (range,), slots),
    ensures
        kinds@.contains(UpdateType::Transaction) <==> datasource.filter.include_transactions,
        kinds@.contains(UpdateType::BlockDetails) <==> datasource.filter.include_blocks,
        !kinds@.contains(UpdateType::AccountUpdate),
        !kinds@.contains(UpdateType::AccountDeletion),
        requested <==> transactions || blocks,
        *range == JetstreamerRange::Slot(slots.0, slots.1),
{
    let transaction_part = if datasource.filter.include_transactions {
        seq![UpdateType::Transaction]
    } else {
        seq![]
    };
    if datasource.filter.include_transactions {
        assert(kinds@[0] == UpdateType::Transaction);
    }
    if datasource.filter.include_blocks {
        assert(kinds@[transaction_part.len() as int] == UpdateType::BlockDetails);
    }
}

/// A report puts each of its counts into its own gauge; the highest slot never falls.
pub proof fn law_record(internal: &mut JetstreamerInternalStats, stats: Stats)
    requires
        call_ensures(JetstreamerInternalStats::record, (internal, stats), ()),
        old(internal).wf(),
    ensures
        stats.slots_processed <= 0x20_0000_0000_0000 ==> final(internal).slots_processed == stats.slots_processed,
        stats.blocks_processed <= 0x20_0000_0000_0000 ==> final(internal).blocks_processed == stats.blocks_processed,
        stats.transactions_processed <= 0x20_0000_0000_0000 ==> final(internal).transactions_processed
            == stats.transactions_processed,
        final(internal).slot_high_watermark >= old(internal).slot_high_watermark,
        stats.current_slot <= old(internal).slot_high_watermark ==> final(internal).slot_high_watermark == old(internal).slot_high_watermark,
        old(internal).slot_high_watermark < stats.current_slot <= 0x20_0000_0000_0000
            ==> final(internal).slot_high_watermark == stats.current_slot,
{
    crate::laws::firehose::law_reports_are_recorded(*old(internal), stats);
    crate::stats::law_watermark_never_falls(*old(internal), stats);
    if stats.current_slot <= 0x20_0000_0000_0000 {
        crate::stats::law_small_counts_are_exact(stats.current_slot);
    }
}

/// What the firehose says of its progress is put into the gauges.
pub proof fn law_on_stats<F>(stats: Stats, internal: &mut JetstreamerInternalStats)
    requires
        call_ensures(JetstreamerDatasource::<F>::on_stats, (stats, internal), ()),
        old(internal).wf(),
    ensures
        stats.slots_processed <= 0x20_0000_0000_0000 ==> final(internal).slots_processed == stats.slots_processed,
        stats.blocks_processed <= 0x20_0000_0000_0000 ==> final(internal).blocks_processed == stats.blocks_processed,
        stats.transactions_processed <= 0x20_0000_0000_0000 ==> final(internal).transactions_processed
            == stats.transactions_processed,
        final(internal).slot_high_watermark >= old(internal).slot_high_watermark,
        old(internal).slot_high_watermark < stats.current_slot <= 0x20_0000_0000_0000
            ==> final(internal).slot_high_watermark == stats.current_slot,
{
    crate::laws::firehose::law_reports_are_recorded(*old(internal), stats);
    crate::stats::law_watermark_never_falls(*old(internal), stats);
    if stats.current_slot <= 0x20_0000_0000_0000 {
        crate::stats::law_small_counts_are_exact(stats.current_slot);
    }
}

/// New gauges and reset gauges hold zero, and a snapshot shows what the gauges hold.
pub proof fn law_gauges(
    fresh: JetstreamerInternalStats,
    internal: &mut JetstreamerInternalStats,
    held: &JetstreamerInternalStats,
    shown: JetstreamerStatsSnapshot,
)
    requires
        call_ensures(JetstreamerInternalStats::new, (), fresh),
        call_ensures(crate::stats::reset_jetstreamer_internal_stats, (internal,), ()),
        call_ensures(crate::stats::jetstreamer_internal_stats_snapshot, (held,), shown),
    ensures
        fresh.slots_processed == 0 && fresh.blocks_processed == 0,
        fresh.transactions_processed == 0 && fresh.slot_high_watermark == 0,
        final(internal).slots_processed == 0 && final(internal).blocks_processed == 0,
        final(internal).transactions_processed == 0 && final(internal).slot_high_watermark == 0,
        shown.slots_processed == held.slots_processed && shown.blocks_processed == held.blocks_processed,
        shown.transactions_processed == held.transactions_processed,
        shown.slot_high_watermark == held.slot_high_watermark,
{
}

/// What is read back from a gauge is the nearest number that it can hold.
pub proof fn law_through_gauge(n: u64, r: u64)
    requires
        call_ensures(crate::stats::through_gauge, (n,), r),
    ensures
        n <= 0x20_0000_0000_0000 ==> r == n,
        ({
            let spacing = crate::stats::spacing_of(n as nat);
            exists|k: nat|
                {
                    let number = #[trigger] (k * spacing);
                    &&& 2 * number <= 2 * n + spacing
                    &&& 2 * n <= 2 * number + spacing
                    &&& 2 * number == 2 * n + spacing || 2 * n == 2 * number + spacing ==> k % 2 == 0
                    &&& number <= u64::MAX ==> r == number
                    &&& number > u64::MAX ==> r == u64::MAX
                }
        }),
{
    crate::laws::firehose::law_gauge_rounds_to_nearest(n);
    if n <= 0x20_0000_0000_0000 {
        crate::stats::law_small_counts_are_exact(n);
    }
}

/// A set of addresses holds what was added and not removed.
pub proof fn law_address_sets(
    empty: PubkeySet,
    set: &mut PubkeySet,
    key: Pubkey,
    added: bool,
    other: Seq<u8>,
)
    requires
        call_ensures(PubkeySet::new, (), empty),
        call_ensures(PubkeySet::insert, (set, key), added),
    ensures
        !empty@.contains(other),
        added <==> !old(set)@.contains(key.bytes@),
        final(set)@.contains(key.bytes@),
        other != key.bytes@ ==> (final(set)@.contains(other) <==> old(set)@.contains(other)),
{
}

/// To remove an address takes out that one alone, and to look one up finds what the set holds.
pub proof fn law_address_set_removal(
    set: &mut PubkeySet,
    key: &Pubkey,
    removed: bool,
    other: Seq<u8>,
    looked_up: &PubkeySet,
    found: bool,
)
    requires
        call_ensures(PubkeySet::remove, (set, key), removed),
        call_ensures(PubkeySet::contains, (looked_up, key), found),
    ensures
        removed <==> old(set)@.contains(key.bytes@),
        !final(set)@.contains(key.bytes@),
        other != key.bytes@ ==> (final(set)@.contains(other) <==> old(set)@.contains(other)),
        found <==> looked_up@.contains(key.bytes@),
{
}

/// Two addresses are the same exactly if their bytes are; the system program is the address of
/// 32 zeros; the text of an address is that of its bytes.
pub proof fn law_addresses(key: &Pubkey, other: &Pubkey, same: bool, system: bool, text: String)
    requires
        call_ensures(Pubkey::same, (key, other), same),
        call_ensures(Pubkey::is_system_program, (key,), system),
        call_ensures(Pubkey::to_base58, (key,), text),
    ensures
        same <==> key.bytes@ == other.bytes@,
        system <==> forall|j: int| 0 <= j < 32 ==> #[trigger] key.bytes@[j] == 0,
        text@ == crate::keys::base58_text(key.bytes@),
{
    crate::laws::accounts::law_system_program_is_all_zeros(key@);
}

} // verus!
