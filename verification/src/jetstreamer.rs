//! The Jetstreamer datasource: what it asks the firehose for, and what it does with the
//! transactions and blocks that come back.
use crate::chain::{Reward, RewardType, TransactionStatusMeta, VersionedTransaction};
use crate::keys::{BlockHash, Pubkey, PubkeySet, Signature};
use crate::pending::{
    flush_all_pending_transactions_without_block_time, flush_pending_transactions, BlockMetadata,
    PendingLimitReached, PendingTransactionBuffer, PendingTransactionKey,
};
use crate::stats::{JetstreamerInternalStats, Stats};
use crate::updates::{BlockDetails, TransactionUpdate, UpdateType};
use vstd::prelude::*;

verus! {

/// The greatest number of transactions that wait for the metadata of their blocks, unless
/// said otherwise.
pub const DEFAULT_PENDING_TRANSACTION_LIMIT: usize = 100_000;

/// The environment variable that tells the firehose where its index is.
pub const ARCHIVE_URL_VARIABLE: &'static str = "JETSTREAMER_COMPACT_INDEX_BASE_URL";

/// The environment variable that tells the firehose which network to read.
pub const NETWORK_VARIABLE: &'static str = "JETSTREAMER_NETWORK";

/// Whether blocks are asked for: transactions need them too, for their metadata.
pub fn should_request_blocks(include_transactions: bool, include_blocks: bool) -> (r: bool)
    ensures
        r == (include_transactions || include_blocks),
{
    include_transactions || include_blocks
}

/// A range of slots.
#[derive(Debug, Clone, Copy, PartialEq, Eq, Structural)]
pub enum JetstreamerRange {
    /// From the first slot, up to and without the second.
    Slot(u64, u64),
}

impl JetstreamerRange {
    /// The first slot of the range, and the first slot behind it.
    pub fn into_slots(&self) -> (r: (u64, u64))
        ensures
            *self == JetstreamerRange::Slot(r.0, r.1),
    {
        match self {
            JetstreamerRange::Slot(start, end) => (*start, *end),
        }
    }
}

/// What of the range is wanted. Each filter says of the accounts of a transaction, whether it
/// is a vote and whether it failed, whether the transaction is wanted.
#[derive(Debug)]
pub struct JetstreamerFilter<F> {
    pub include_transactions: bool,
    pub include_blocks: bool,
    pub transaction_filters: Vec<F>,
}

/// The Jetstreamer datasource.
#[derive(Debug)]
pub struct JetstreamerDatasource<F> {
    pub range: JetstreamerRange,
    pub filter: JetstreamerFilter<F>,
    pub threads: u64,
    pub tracking_interval_slots: Option<u64>,
    pub archive_url: Option<String>,
    pub network: Option<String>,
    /// Stream epochs in order with one firehose worker and parallel ranged downloads.
    pub sequential: bool,
    /// Process epochs newest-first. Jetstreamer implicitly enables sequential mode.
    pub reverse: bool,
    /// Maximum hot/cold download window used in sequential mode.
    pub buffer_window_bytes: Option<u64>,
    /// Maximum transactions waiting for their block-time and block-hash metadata.
    pub pending_transaction_limit: usize,
}

/// What the firehose is asked for.
#[derive(Debug, Clone, Copy, PartialEq, Eq, Structural)]
pub struct FirehosePlan {
    pub threads: u64,
    pub sequential: bool,
    pub reverse: bool,
    pub buffer_window_bytes: Option<u64>,
    /// The first slot.
    pub start_slot: u64,
    /// The first slot behind the range.
    pub end_slot: u64,
    pub request_blocks: bool,
    pub request_transactions: bool,
    /// Whether blocks are handed to the pipeline.
    pub emit_block_details: bool,
    /// How often the firehose tells of its progress, if it does.
    pub tracking_interval_slots: Option<u64>,
    pub pending_transaction_limit: usize,
}

impl<F> JetstreamerDatasource<F> {
    pub fn new(
        range: JetstreamerRange,
        filter: JetstreamerFilter<F>,
        threads: u64,
        tracking_interval_slots: Option<u64>,
        archive_url: Option<String>,
        network: Option<String>,
    ) -> (r: Self)
        ensures
            r == (JetstreamerDatasource {
                range,
                filter,
                threads,
                tracking_interval_slots,
                archive_url,
                network,
                sequential: false,
                reverse: false,
                buffer_window_bytes: None,
                pending_transaction_limit: DEFAULT_PENDING_TRANSACTION_LIMIT,
            }),
    {
        JetstreamerDatasource {
            range,
            filter,
            threads,
            tracking_interval_slots,
            archive_url,
            network,
            sequential: false,
            reverse: false,
            buffer_window_bytes: None,
            pending_transaction_limit: DEFAULT_PENDING_TRANSACTION_LIMIT,
        }
    }

    /// A datasource that reads the archive of the main network.
    pub fn new_with_old_faithful_mainnet(
        range: JetstreamerRange,
        filter: JetstreamerFilter<F>,
        threads: u64,
        tracking_interval_slots: Option<u64>,
    ) -> (r: Self)
        ensures
            r == (JetstreamerDatasource {
                range,
                filter,
                threads,
                tracking_interval_slots,
                archive_url: None,
                network: None,
                sequential: false,
                reverse: false,
                buffer_window_bytes: None,
                pending_transaction_limit: DEFAULT_PENDING_TRANSACTION_LIMIT,
            }),
    {
        Self::new(range, filter, threads, tracking_interval_slots, None, None)
    }

    /// The same datasource, with the range read in order.
    pub fn with_sequential_mode(self, reverse: bool, buffer_window_bytes: Option<u64>) -> (r: Self)
        ensures
            r == (JetstreamerDatasource { sequential: true, reverse, buffer_window_bytes, ..self }),
    {
        let mut datasource = self;
        datasource.sequential = true;
        datasource.reverse = reverse;
        datasource.buffer_window_bytes = buffer_window_bytes;
        datasource
    }

    /// The same datasource, with another limit on the transactions that wait for the metadata
    /// of their blocks.
    pub fn with_pending_transaction_limit(self, limit: usize) -> (r: Self)
        ensures
            r == (JetstreamerDatasource { pending_transaction_limit: limit, ..self }),
    {
        let mut datasource = self;
        datasource.pending_transaction_limit = limit;
        datasource
    }

    /// The kinds of update that the datasource hands to the pipeline.
    pub fn update_types(&self) -> (r: Vec<UpdateType>)
        ensures
            r@ == (if self.filter.include_transactions {
                seq![UpdateType::Transaction]
            } else {
                seq![]
            }) + (if self.filter.include_blocks {
                seq![UpdateType::BlockDetails]
            } else {
                seq![]
            }),
    {
        let mut update_types: Vec<UpdateType> = Vec::new();
        if self.filter.include_transactions {
            update_types.push(UpdateType::Transaction);
        }
        if self.filter.include_blocks {
            update_types.push(UpdateType::BlockDetails);
        }
        update_types
    }

    /// What the firehose is asked for. No transaction could wait under a limit of none, so
    /// such a datasource is refused.
    pub fn firehose_plan(&self) -> (r: Result<FirehosePlan, &'static str>)
        ensures
            match r {
                Ok(plan) => {
                    &&& self.pending_transaction_limit != 0
                    &&& plan.threads == self.threads
                    &&& plan.sequential == self.sequential
                    &&& plan.reverse == self.reverse
                    &&& plan.buffer_window_bytes == self.buffer_window_bytes
                    &&& self.range == JetstreamerRange::Slot(plan.start_slot, plan.end_slot)
                    &&& plan.request_blocks == (self.filter.include_transactions || self.filter.include_blocks)
                    &&& plan.request_transactions == self.filter.include_transactions
                    &&& plan.emit_block_details == self.filter.include_blocks
                    &&& plan.tracking_interval_slots == self.tracking_interval_slots
                    &&& plan.pending_transaction_limit == self.pending_transaction_limit
                },
                Err(error) => {
                    &&& self.pending_transaction_limit == 0
                    &&& error == "Jetstreamer pending transaction limit must be positive"
                },
            },
    {
        if self.pending_transaction_limit == 0 {
            return Err("Jetstreamer pending transaction limit must be positive");
        }
        let (start_slot, end_slot) = self.range.into_slots();
        Ok(
            FirehosePlan {
                threads: self.threads,
                sequential: self.sequential,
                reverse: self.reverse,
                buffer_window_bytes: self.buffer_window_bytes,
                start_slot,
                end_slot,
                request_blocks: should_request_blocks(self.filter.include_transactions, self.filter.include_blocks),
                request_transactions: self.filter.include_transactions,
                emit_block_details: self.filter.include_blocks,
                tracking_interval_slots: self.tracking_interval_slots,
                pending_transaction_limit: self.pending_transaction_limit,
            },
        )
    }

    /// Takes note of what the firehose says of its progress.
    pub fn on_stats(stats: Stats, internal: &mut JetstreamerInternalStats)
        ensures
            *final(internal) == old(internal).after(stats),
            final(internal).wf(),
    {
        internal.record(stats);
    }
}

/// A transaction that the firehose found.
#[derive(Debug, PartialEq, Eq)]
pub struct TransactionData {
    pub slot: u64,
    /// The place of the transaction in its slot.
    pub transaction_slot_index: usize,
    pub signature: Signature,
    pub message_hash: BlockHash,
    pub is_vote: bool,
    pub transaction_status_meta: TransactionStatusMeta,
    pub transaction: VersionedTransaction,
}

/// What became of a transaction.
#[derive(Debug, Clone, Copy, PartialEq, Eq, Structural)]
pub enum TransactionVerdict {
    /// No filter wants it.
    FilteredOut,
    /// It waits for the metadata of its block.
    Buffered,
}

/// The addresses of a list.
pub open spec fn addresses(keys: Seq<Pubkey>) -> Set<Seq<u8>> {
    Set::new(|address: Seq<u8>| exists|i: int| 0 <= i < keys.len() && (#[trigger] keys[i])@ == address)
}

/// The addresses of a transaction: those that its message lists, and those that it loads.
pub open spec fn transaction_addresses(transaction: TransactionData) -> Set<Seq<u8>> {
    addresses(transaction.transaction.message.static_keys()) + addresses(
        transaction.transaction_status_meta.loaded_addresses.readonly@,
    ) + addresses(transaction.transaction_status_meta.loaded_addresses.writable@)
}

/// The update that a transaction makes, before the metadata of its block is known.
pub open spec fn transaction_update(transaction: TransactionData) -> TransactionUpdate {
    TransactionUpdate {
        signature: transaction.signature,
        transaction: transaction.transaction,
        meta: transaction.transaction_status_meta,
        is_vote: transaction.is_vote,
        slot: transaction.slot,
        index: Some(transaction.transaction_slot_index as u64),
        block_time: None,
        block_hash: None,
    }
}

/// Adds addresses to a set.
fn extend_addresses(accounts: &mut PubkeySet, keys: &Vec<Pubkey>)
    requires
        old(accounts).wf(),
    ensures
        final(accounts).wf(),
        final(accounts)@ == old(accounts)@ + addresses(keys@),
{
    for i in 0..keys.len()
        invariant
            accounts.wf(),
            accounts@ == old(accounts)@ + addresses(keys@.take(i as int)),
    {
        let ghost before = accounts@;
        accounts.insert(keys[i]);
        proof {
            let some = keys@.take(i as int);
            let more = keys@.take(i + 1);
            assert forall|address: Seq<u8>| addresses(more).contains(address) == addresses(some).insert(
                keys@[i as int]@,
            ).contains(address) by {
                if addresses(some).contains(address) {
                    let j = choose|j: int| 0 <= j < some.len() && (#[trigger] some[j])@ == address;
                    assert(more[j]@ == address);
                }
                if address == keys@[i as int]@ {
                    assert(more[i as int]@ == address);
                }
                if addresses(more).contains(address) {
                    let j = choose|j: int| 0 <= j < more.len() && (#[trigger] more[j])@ == address;
                    if j < i {
                        assert(some[j]@ == address);
                    }
                }
            }
            assert(addresses(more) =~= addresses(some).insert(keys@[i as int]@));
            assert(accounts@ =~= old(accounts)@ + addresses(more));
        }
    }
    assert(keys@.take(keys@.len() as int) =~= keys@);
}

/// The addresses of a transaction.
pub fn transaction_accounts(transaction: &TransactionData) -> (r: PubkeySet)
    ensures
        r.wf(),
        r@ == transaction_addresses(*transaction),
{
    let mut accounts = PubkeySet::new();
    extend_addresses(&mut accounts, transaction.transaction.message.static_account_keys());
    extend_addresses(&mut accounts, &transaction.transaction_status_meta.loaded_addresses.readonly);
    extend_addresses(&mut accounts, &transaction.transaction_status_meta.loaded_addresses.writable);
    assert(accounts@ =~= transaction_addresses(*transaction));
    accounts
}

/// Whether any filter wants a transaction. The filters are asked in order, up to the first
/// that does.
pub fn any_filter_matches<F: Fn(&PubkeySet, bool, bool) -> bool>(
    filters: &Vec<F>,
    accounts: &PubkeySet,
    is_vote: bool,
    is_failed: bool,
) -> (r: bool)
    requires
        forall|i: int| 0 <= i < filters@.len() ==> call_requires(#[trigger] filters@[i], (accounts, is_vote, is_failed)),
    ensures
        r ==> exists|i: int|
            0 <= i < filters@.len() && call_ensures(#[trigger] filters@[i], (accounts, is_vote, is_failed), true),
        !r ==> forall|i: int|
            0 <= i < filters@.len() ==> call_ensures(#[trigger] filters@[i], (accounts, is_vote, is_failed), false),
{
    for k in 0..filters.len()
        invariant
            forall|i: int|
                0 <= i < filters@.len() ==> call_requires(#[trigger] filters@[i], (accounts, is_vote, is_failed)),
            forall|i: int|
                0 <= i < k ==> call_ensures(#[trigger] filters@[i], (accounts, is_vote, is_failed), false),
    {
        let filter = &filters[k];
        if filter(accounts, is_vote, is_failed) {
            assert(call_ensures(filters@[k as int], (accounts, is_vote, is_failed), true));
            return true;
        }
    }
    false
}

/// Lets a transaction that is wanted wait for the metadata of its block.
pub fn buffer_transaction(
    thread_id: usize,
    transaction: TransactionData,
    wanted: bool,
    pending_transactions: &mut PendingTransactionBuffer,
) -> (r: Result<TransactionVerdict, PendingLimitReached>)
    requires
        old(pending_transactions).wf(),
    ensures
        final(pending_transactions).wf(),
        final(pending_transactions).limit() == old(pending_transactions).limit(),
        r is Err <==> wanted && old(pending_transactions).count() >= old(pending_transactions).limit(),
        match r {
            Ok(TransactionVerdict::FilteredOut) => !wanted && *final(pending_transactions) == *old(
                pending_transactions,
            ),
            Ok(TransactionVerdict::Buffered) => {
                let key = (thread_id, transaction.slot);
                &&& wanted
                &&& final(pending_transactions)@ == old(pending_transactions)@.insert(
                    key,
                    crate::pending::waiting(old(pending_transactions)@, key).push(transaction_update(transaction)),
                )
                &&& final(pending_transactions).count() == old(pending_transactions).count() + 1
            },
            Err(error) => error.max_len == old(pending_transactions).limit() && *final(pending_transactions) == *old(
                pending_transactions,
            ),
        },
{
    if !wanted {
        return Ok(TransactionVerdict::FilteredOut);
    }
    let slot = transaction.slot;
    let update = TransactionUpdate {
        signature: transaction.signature,
        transaction: transaction.transaction,
        meta: transaction.transaction_status_meta,
        is_vote: transaction.is_vote,
        slot,
        index: Some(transaction.transaction_slot_index as u64),
        block_time: None,
        block_hash: None,
    };
    match pending_transactions.push((thread_id, slot), update) {
        Ok(()) => Ok(TransactionVerdict::Buffered),
        Err(error) => Err(error),
    }
}

/// Whether the filters leave a transaction out: there are some, and none wants it.
pub open spec fn filters_reject<F: Fn(&PubkeySet, bool, bool) -> bool>(
    filters: Seq<F>,
    accounts: &PubkeySet,
    transaction: TransactionData,
) -> bool {
    &&& filters.len() > 0
    &&& forall|i: int|
        0 <= i < filters.len() ==> call_ensures(
            #[trigger] filters[i],
            (accounts, transaction.is_vote, transaction.transaction_status_meta.status is Err),
            false,
        )
}

/// Whether one of the filters wants a transaction.
pub open spec fn filters_accept<F: Fn(&PubkeySet, bool, bool) -> bool>(
    filters: Seq<F>,
    accounts: &PubkeySet,
    transaction: TransactionData,
) -> bool {
    exists|i: int|
        0 <= i < filters.len() && call_ensures(
            #[trigger] filters[i],
            (accounts, transaction.is_vote, transaction.transaction_status_meta.status is Err),
            true,
        )
}

/// Whether a transaction is wanted: there are no filters, or one of them wants it.
pub open spec fn is_wanted<F: Fn(&PubkeySet, bool, bool) -> bool>(
    filters: Seq<F>,
    transaction: TransactionData,
) -> bool {
    filters.len() == 0 || exists|accounts: &PubkeySet|
        accounts@ == transaction_addresses(transaction) && #[trigger] filters_accept(filters, accounts, transaction)
}

/// Whether a transaction is wanted: there are no filters, or one of them wants it.
pub fn transaction_wanted<F: Fn(&PubkeySet, bool, bool) -> bool>(
    transaction: &TransactionData,
    transaction_filters: &Vec<F>,
) -> (r: bool)
    requires
        forall|i: int, accounts: &PubkeySet|
            0 <= i < transaction_filters@.len() ==> #[trigger] call_requires(
                transaction_filters@[i],
                (accounts, transaction.is_vote, transaction.transaction_status_meta.status is Err),
            ),
    ensures
        r ==> is_wanted(transaction_filters@, *transaction),
        !r ==> exists|accounts: &PubkeySet|
            accounts@ == transaction_addresses(*transaction) && #[trigger] filters_reject(
                transaction_filters@,
                accounts,
                *transaction,
            ),
{
    if transaction_filters.len() == 0 {
        return true;
    }
    let accounts = transaction_accounts(transaction);
    let is_failed = transaction.transaction_status_meta.status.is_err();
    let wanted = any_filter_matches(transaction_filters, &accounts, transaction.is_vote, is_failed);
    proof {
        if wanted {
            assert(filters_accept(transaction_filters@, &accounts, *transaction));
        } else {
            assert(filters_reject(transaction_filters@, &accounts, *transaction));
        }
    }
    wanted
}

/// Lets a transaction wait for the metadata of its block, if there are no filters or one of
/// them wants it.
pub fn on_transaction<F: Fn(&PubkeySet, bool, bool) -> bool>(
    thread_id: usize,
    transaction: TransactionData,
    transaction_filters: &Vec<F>,
    pending_transactions: &mut PendingTransactionBuffer,
) -> (r: Result<TransactionVerdict, PendingLimitReached>)
    requires
        old(pending_transactions).wf(),
        forall|i: int, accounts: &PubkeySet|
            0 <= i < transaction_filters@.len() ==> #[trigger] call_requires(
                transaction_filters@[i],
                (accounts, transaction.is_vote, transaction.transaction_status_meta.status is Err),
            ),
    ensures
        final(pending_transactions).wf(),
        final(pending_transactions).limit() == old(pending_transactions).limit(),
        r is Err ==> old(pending_transactions).count() >= old(pending_transactions).limit(),
        r == Ok::<_, PendingLimitReached>(TransactionVerdict::Buffered) ==> old(pending_transactions).count() < old(
            pending_transactions,
        ).limit(),
        match r {
            Ok(TransactionVerdict::FilteredOut) => {
                &&& exists|accounts: &PubkeySet|
                    accounts@ == transaction_addresses(transaction) && #[trigger] filters_reject(
                        transaction_filters@,
                        accounts,
                        transaction,
                    )
                &&& *final(pending_transactions) == *old(pending_transactions)
            },
            Ok(TransactionVerdict::Buffered) => {
                let key = (thread_id, transaction.slot);
                &&& is_wanted(transaction_filters@, transaction)
                &&& final(pending_transactions)@ == old(pending_transactions)@.insert(
                    key,
                    crate::pending::waiting(old(pending_transactions)@, key).push(transaction_update(transaction)),
                )
                &&& final(pending_transactions).count() == old(pending_transactions).count() + 1
            },
            Err(error) => {
                &&& is_wanted(transaction_filters@, transaction)
                &&& error.max_len == old(pending_transactions).limit()
                &&& *final(pending_transactions) == *old(pending_transactions)
            },
        },
        transaction_filters@.len() == 0 ==> (r is Err <==> old(pending_transactions).count() >= old(
            pending_transactions,
        ).limit()),
{
    let wanted = transaction_wanted(&transaction, transaction_filters);
    buffer_transaction(thread_id, transaction, wanted, pending_transactions)
}

/// A reward of a block.
#[derive(Debug, Clone, Copy, PartialEq, Eq, Structural)]
pub struct RewardInfo {
    pub reward_type: RewardType,
    pub lamports: i64,
    pub post_balance: u64,
    /// The commission in hundredths of a percent.
    pub commission_bps: Option<u16>,
}

/// The rewards of a block, by account.
#[derive(Debug)]
pub struct KeyedRewardsAndNumPartitions {
    pub keyed_rewards: Vec<(Pubkey, RewardInfo)>,
    pub num_partitions: Option<u64>,
}

/// A block that the firehose found, or a slot without one.
#[derive(Debug)]
pub enum BlockData {
    Block {
        parent_blockhash: BlockHash,
        slot: u64,
        blockhash: BlockHash,
        rewards: KeyedRewardsAndNumPartitions,
        block_time: Option<i64>,
        block_height: Option<u64>,
    },
    PossibleLeaderSkipped { slot: u64 },
}

/// What a block sets off: its transactions are handed on, then its details.
#[derive(Debug)]
pub struct BlockFlush {
    pub transactions: Vec<TransactionUpdate>,
    /// Whether the transactions know the time of their block.
    pub has_block_time: bool,
    pub details: Option<BlockDetails>,
}

impl BlockData {
    /// The slot of the block, or the slot without one.
    pub open spec fn slot_of(&self) -> u64 {
        match self {
            BlockData::Block { slot, .. } => *slot,
            BlockData::PossibleLeaderSkipped { slot } => *slot,
        }
    }

    /// What the block tells of its transactions, if there is one.
    pub open spec fn metadata(&self) -> Option<BlockMetadata> {
        match self {
            BlockData::Block { blockhash, block_time, .. } => Some(
                BlockMetadata { block_time: *block_time, block_hash: *blockhash },
            ),
            BlockData::PossibleLeaderSkipped { .. } => None,
        }
    }
}

/// A commission in percent, where it is whole and fits a byte.
pub open spec fn whole_percent(commission_bps: Option<u16>) -> Option<u8> {
    match commission_bps {
        Some(bps) => if bps % 100 == 0 && bps / 100 <= u8::MAX {
            Some((bps / 100) as u8)
        } else {
            None
        },
        None => None,
    }
}

/// What a reward of a block becomes.
pub open spec fn block_reward_matches(keyed: (Pubkey, RewardInfo), out: Reward) -> bool {
    &&& out.pubkey@ == crate::keys::base58_text(keyed.0@)
    &&& out.lamports == keyed.1.lamports
    &&& out.post_balance == keyed.1.post_balance
    &&& out.reward_type == Some(keyed.1.reward_type)
    &&& out.commission == whole_percent(keyed.1.commission_bps)
    &&& out.commission_bps == keyed.1.commission_bps
}

/// What the rewards of a block become, in order.
pub open spec fn block_rewards_match(keyed: Seq<(Pubkey, RewardInfo)>, out: Seq<Reward>) -> bool {
    &&& out.len() == keyed.len()
    &&& forall|i: int| 0 <= i < keyed.len() ==> block_reward_matches(keyed[i], #[trigger] out[i])
}

/// The commission in percent, where it is whole and fits a byte.
pub fn commission_percent(commission_bps: Option<u16>) -> (r: Option<u8>)
    ensures
        r == whole_percent(commission_bps),
{
    match commission_bps {
        Some(bps) => if bps % 100 == 0 {
            match u8::try_from(bps / 100) {
                Ok(percent) => Some(percent),
                Err(_) => None,
            }
        } else {
            None
        },
        None => None,
    }
}

/// The rewards of a block.
pub fn block_rewards(keyed_rewards: &Vec<(Pubkey, RewardInfo)>) -> (r: Vec<Reward>)
    ensures
        block_rewards_match(keyed_rewards@, r@),
{
    let mut rewards: Vec<Reward> = Vec::with_capacity(keyed_rewards.len());
    for i in 0..keyed_rewards.len()
        invariant
            rewards@.len() == i,
            forall|j: int| 0 <= j < i ==> block_reward_matches(keyed_rewards@[j], #[trigger] rewards@[j]),
    {
        let keyed = &keyed_rewards[i];
        rewards.push(
            Reward {
                pubkey: keyed.0.to_base58(),
                lamports: keyed.1.lamports,
                post_balance: keyed.1.post_balance,
                reward_type: Some(keyed.1.reward_type),
                commission: commission_percent(keyed.1.commission_bps),
                commission_bps: keyed.1.commission_bps,
            },
        );
    }
    rewards
}

/// What the details of a block say.
pub open spec fn details_match(block: BlockData, out: BlockDetails) -> bool {
    match block {
        BlockData::Block { parent_blockhash, slot, blockhash, rewards, block_time, block_height } => {
            &&& out.slot == slot
            &&& out.block_hash == Some(blockhash)
            &&& out.previous_block_hash == Some(parent_blockhash)
            &&& out.rewards matches Some(list)
            &&& block_rewards_match(rewards.keyed_rewards@, list@)
            &&& out.num_reward_partitions == rewards.num_partitions
            &&& out.block_time == block_time
            &&& out.block_height == block_height
        },
        BlockData::PossibleLeaderSkipped { .. } => false,
    }
}

/// Hands on the transactions that waited for a block, with its metadata, and the details of
/// the block, if they are wanted. A slot without a block has no metadata and no details.
pub fn on_block(
    thread_id: usize,
    block: BlockData,
    pending_transactions: &mut PendingTransactionBuffer,
    emit_block_details: bool,
) -> (r: BlockFlush)
    requires
        old(pending_transactions).wf(),
    ensures
        final(pending_transactions).wf(),
        final(pending_transactions).limit() == old(pending_transactions).limit(),
        final(pending_transactions)@ == old(pending_transactions)@.remove((thread_id, block.slot_of())),
        final(pending_transactions).count() == old(pending_transactions).count() - r.transactions@.len(),
        r.transactions@ == crate::pending::waiting(
            old(pending_transactions)@,
            (thread_id, block.slot_of()),
        ).map_values(
            |transaction: TransactionUpdate| crate::pending::with_metadata(transaction, block.metadata()),
        ),
        r.has_block_time == (block.metadata() matches Some(metadata) && metadata.block_time is Some),
        r.details is Some <==> emit_block_details && block is Block,
        r.details matches Some(details) ==> details_match(block, details),
{
    match block {
        BlockData::PossibleLeaderSkipped { slot } => {
            let key: PendingTransactionKey = (thread_id, slot);
            let transactions = flush_pending_transactions(pending_transactions, key, None);
            BlockFlush { transactions, has_block_time: false, details: None }
        },
        BlockData::Block { parent_blockhash, slot, blockhash, rewards, block_time, block_height } => {
            let key: PendingTransactionKey = (thread_id, slot);
            let metadata = BlockMetadata { block_time, block_hash: blockhash };
            let transactions = flush_pending_transactions(pending_transactions, key, Some(metadata));
            let details = if emit_block_details {
                Some(
                    BlockDetails {
                        slot,
                        block_hash: Some(blockhash),
                        previous_block_hash: Some(parent_blockhash),
                        rewards: Some(block_rewards(&rewards.keyed_rewards)),
                        num_reward_partitions: rewards.num_partitions,
                        block_time,
                        block_height,
                    },
                )
            } else {
                None
            };
            BlockFlush { transactions, has_block_time: block_time.is_some(), details }
        },
    }
}

/// What follows the run of the firehose. Once the whole range is read, the transactions whose
/// block never came are let out without its metadata. A run that failed lets nothing out: its
/// error is the error of the datasource.
pub fn on_firehose_end(
    run: Result<(), String>,
    pending_transactions: &mut PendingTransactionBuffer,
) -> (r: Result<Vec<TransactionUpdate>, String>)
    requires
        old(pending_transactions).wf(),
    ensures
        final(pending_transactions).wf(),
        final(pending_transactions).limit() == old(pending_transactions).limit(),
        match run {
            Ok(()) => {
                &&& r matches Ok(left)
                &&& left@.len() == old(pending_transactions).count()
                &&& exists|keys: Seq<PendingTransactionKey>|
                    keys.no_duplicates() && keys.to_set() == old(pending_transactions)@.dom() && left@
                        == #[trigger] crate::pending::all_waiting(old(pending_transactions)@, keys)
                &&& final(pending_transactions)@ == Map::<PendingTransactionKey, Seq<TransactionUpdate>>::empty()
                &&& final(pending_transactions).count() == 0
            },
            Err(error) => {
                &&& r == Err::<Vec<TransactionUpdate>, String>(error)
                &&& *final(pending_transactions) == *old(pending_transactions)
            },
        },
{
    match run {
        Ok(()) => Ok(flush_all_pending_transactions_without_block_time(pending_transactions)),
        Err(error) => Err(error),
    }
}

/// A transaction that waits comes out with the block of its thread and slot: last, with the
/// time and the hash of that block, and else as it went in. A slot without a block lets it
/// out as it went in.
pub proof fn law_waiting_transaction_gets_its_block(
    pending: Map<PendingTransactionKey, Seq<TransactionUpdate>>,
    thread_id: usize,
    transaction: TransactionData,
    block: BlockData,
)
    requires
        block.slot_of() == transaction.slot,
    ensures
        ({
            let key = (thread_id, transaction.slot);
            let update = transaction_update(transaction);
            let buffered = pending.insert(key, crate::pending::waiting(pending, key).push(update));
            let flushed = crate::pending::waiting(buffered, (thread_id, block.slot_of())).map_values(
                |transaction: TransactionUpdate| crate::pending::with_metadata(transaction, block.metadata()),
            );
            &&& flushed.len() == crate::pending::waiting(pending, key).len() + 1
            &&& flushed.last() == (match block {
                BlockData::Block { blockhash, block_time, .. } => TransactionUpdate {
                    block_time,
                    block_hash: Some(blockhash),
                    ..update
                },
                BlockData::PossibleLeaderSkipped { .. } => update,
            })
            &&& flushed.last().index == Some(transaction.transaction_slot_index as u64)
            &&& flushed.last().slot == block.slot_of()
        }),
{
}

/// A commission in percent is the commission in hundredths of a percent, never rounded.
pub proof fn law_percent_is_exact(commission_bps: Option<u16>)
    ensures
        whole_percent(commission_bps) matches Some(percent) ==> commission_bps == Some((percent * 100) as u16),
        commission_bps matches Some(bps) && bps % 100 == 0 && bps <= 25500 ==> whole_percent(commission_bps) is Some,
{
}

} // verus!
