use carbon_datasources::chain::{
    LoadedAddresses, MessageHeader, MessageV1, RewardType, TransactionConfig, TransactionStatusMeta, VersionedMessage,
    VersionedTransaction,
};
use carbon_datasources::jetstreamer::{
    any_filter_matches, block_rewards, buffer_transaction, commission_percent, on_block, on_firehose_end, on_transaction,
    should_request_blocks, transaction_accounts, transaction_wanted, BlockData, JetstreamerDatasource, JetstreamerFilter,
    JetstreamerRange, KeyedRewardsAndNumPartitions, RewardInfo, TransactionData, TransactionVerdict,
};
use carbon_datasources::keys::{BlockHash, Pubkey, PubkeySet, Signature};
use carbon_datasources::pending::{
    flush_all_pending_transactions_without_block_time, flush_pending_transactions, BlockMetadata,
    PendingTransactionBuffer,
};
use carbon_datasources::updates::UpdateType;
use solana_transaction_error::TransactionError;

type AnyFilter = fn(&PubkeySet, bool, bool) -> bool;

fn key(seed: u8) -> Pubkey {
    Pubkey { bytes: [seed; 32] }
}

fn datasource(include_transactions: bool, include_blocks: bool) -> JetstreamerDatasource<AnyFilter> {
    JetstreamerDatasource::new_with_old_faithful_mainnet(
        JetstreamerRange::Slot(1, 2),
        JetstreamerFilter {
            include_transactions,
            include_blocks,
            transaction_filters: Vec::new(),
        },
        1,
        None,
    )
}

fn v1_transaction(slot: u64, transaction_slot_index: usize) -> TransactionData {
    TransactionData {
        slot,
        transaction_slot_index,
        signature: Signature { bytes: [0; 64] },
        message_hash: BlockHash { bytes: [0; 32] },
        is_vote: false,
        transaction_status_meta: TransactionStatusMeta {
            status: Ok(()),
            fee: 0,
            pre_balances: Vec::new(),
            post_balances: Vec::new(),
            inner_instructions: None,
            log_messages: None,
            pre_token_balances: None,
            post_token_balances: None,
            rewards: None,
            loaded_addresses: LoadedAddresses { writable: Vec::new(), readonly: Vec::new() },
            return_data: None,
            compute_units_consumed: None,
            cost_units: None,
        },
        transaction: VersionedTransaction {
            signatures: Vec::new(),
            message: VersionedMessage::V1(MessageV1 {
                header: MessageHeader {
                    num_required_signatures: 0,
                    num_readonly_signed_accounts: 0,
                    num_readonly_unsigned_accounts: 0,
                },
                config: TransactionConfig {
                    priority_fee: None,
                    compute_unit_limit: None,
                    loaded_accounts_data_size_limit: None,
                    heap_size: None,
                },
                lifetime_specifier: BlockHash { bytes: [0; 32] },
                account_keys: Vec::new(),
                instructions: Vec::new(),
            }),
        },
    }
}

fn block(slot: u64, block_time: Option<i64>) -> BlockData {
    BlockData::Block {
        parent_blockhash: BlockHash { bytes: [1; 32] },
        slot,
        blockhash: BlockHash { bytes: [2; 32] },
        rewards: KeyedRewardsAndNumPartitions {
            keyed_rewards: vec![(
                key(0),
                RewardInfo {
                    reward_type: RewardType::Voting,
                    lamports: -7,
                    post_balance: 70,
                    commission_bps: Some(500),
                },
            )],
            num_partitions: Some(4),
        },
        block_time,
        block_height: Some(11),
    }
}

#[test]
fn transaction_stream_requests_block_callbacks_for_metadata() {
    assert!(should_request_blocks(true, false));
    assert!(should_request_blocks(false, true));
    assert!(should_request_blocks(true, true));
    assert!(!should_request_blocks(false, false));
}

#[test]
fn update_types_only_advertise_publicly_emitted_updates() {
    let transaction_only = datasource(true, false);
    assert_eq!(
        transaction_only.update_types(),
        vec![UpdateType::Transaction]
    );

    let transactions_and_blocks = datasource(true, true);
    assert_eq!(
        transactions_and_blocks.update_types(),
        vec![UpdateType::Transaction, UpdateType::BlockDetails]
    );
}

#[test]
fn v1_transaction_is_buffered_with_global_index() {
    let mut pending = PendingTransactionBuffer::new(2);
    on_transaction::<AnyFilter>(3, v1_transaction(42, 7), &Vec::new(), &mut pending).unwrap();

    let update = &pending.get((3, 42)).unwrap()[0];
    assert_eq!(update.index, Some(7));
    assert!(matches!(update.transaction.message, VersionedMessage::V1(_)));
}

#[test]
fn metadata_buffer_fails_closed_at_configured_limit() {
    let mut pending = PendingTransactionBuffer::new(1);
    on_transaction::<AnyFilter>(0, v1_transaction(42, 0), &Vec::new(), &mut pending).unwrap();
    let error = on_transaction::<AnyFilter>(0, v1_transaction(43, 1), &Vec::new(), &mut pending).unwrap_err();
    assert!(error.describe().contains("1 transaction limit"));
    assert_eq!(
        error.describe(),
        "Jetstreamer metadata buffer reached its 1 transaction limit"
    );
    assert_eq!(pending.len(), 1);
    assert!(pending.get((0, 43)).is_none());
}

#[test]
fn a_datasource_has_its_defaults() {
    let datasource = JetstreamerDatasource::<AnyFilter>::new(
        JetstreamerRange::Slot(10, 20),
        JetstreamerFilter { include_transactions: true, include_blocks: false, transaction_filters: Vec::new() },
        4,
        Some(100),
        Some("http://archive".to_string()),
        Some("testnet".to_string()),
    );
    assert_eq!(datasource.range.into_slots(), (10, 20));
    assert_eq!(datasource.threads, 4);
    assert_eq!(datasource.tracking_interval_slots, Some(100));
    assert_eq!(datasource.archive_url, Some("http://archive".to_string()));
    assert_eq!(datasource.network, Some("testnet".to_string()));
    assert!(!datasource.sequential);
    assert!(!datasource.reverse);
    assert_eq!(datasource.buffer_window_bytes, None);
    assert_eq!(datasource.pending_transaction_limit, 100_000);
    let mainnet = self::datasource(false, true);
    assert_eq!(mainnet.archive_url, None);
    assert_eq!(mainnet.network, None);
    assert_eq!(mainnet.update_types(), vec![UpdateType::BlockDetails]);
}

#[test]
fn sequential_mode_and_the_limit_change_nothing_else() {
    let datasource = datasource(true, false).with_sequential_mode(true, Some(1 << 20)).with_pending_transaction_limit(9);
    assert!(datasource.sequential);
    assert!(datasource.reverse);
    assert_eq!(datasource.buffer_window_bytes, Some(1 << 20));
    assert_eq!(datasource.pending_transaction_limit, 9);
    assert_eq!(datasource.threads, 1);
}

#[test]
fn the_firehose_is_asked_for_blocks_with_transactions() {
    let plan = datasource(true, false).firehose_plan().unwrap();
    assert!(plan.request_blocks);
    assert!(plan.request_transactions);
    assert!(!plan.emit_block_details);
    assert_eq!((plan.start_slot, plan.end_slot), (1, 2));
    assert_eq!(plan.pending_transaction_limit, 100_000);
    let plan = datasource(false, false).firehose_plan().unwrap();
    assert!(!plan.request_blocks);
    assert!(!plan.request_transactions);
}

#[test]
fn a_limit_of_none_is_refused() {
    assert_eq!(
        datasource(true, true).with_pending_transaction_limit(0).firehose_plan(),
        Err("Jetstreamer pending transaction limit must be positive")
    );
}

#[test]
fn the_accounts_of_a_transaction_are_those_it_lists_and_loads() {
    let mut transaction = v1_transaction(1, 0);
    if let VersionedMessage::V1(message) = &mut transaction.transaction.message {
        message.account_keys = vec![key(1), key(2)];
    }
    transaction.transaction_status_meta.loaded_addresses =
        LoadedAddresses { writable: vec![key(3)], readonly: vec![key(2), key(4)] };
    let accounts = transaction_accounts(&transaction);
    for seed in 1..5 {
        assert!(accounts.contains(&key(seed)));
    }
    assert!(!accounts.contains(&key(5)));
}

#[test]
fn a_transaction_that_no_filter_wants_is_left_out() {
    let wants_failed: AnyFilter = |_, _, is_failed| is_failed;
    let wants_key_seven: AnyFilter = |accounts, _, _| accounts.contains(&key(7));
    let filters = vec![wants_failed, wants_key_seven];
    let mut pending = PendingTransactionBuffer::new(5);
    assert!(!transaction_wanted(&v1_transaction(1, 0), &filters));
    assert!(transaction_wanted::<AnyFilter>(&v1_transaction(1, 0), &Vec::new()));

    assert_eq!(
        on_transaction(0, v1_transaction(1, 0), &filters, &mut pending),
        Ok(TransactionVerdict::FilteredOut)
    );
    assert_eq!(pending.len(), 0);

    let mut failed = v1_transaction(1, 1);
    failed.transaction_status_meta.status = Err(TransactionError::AccountInUse);
    assert_eq!(on_transaction(0, failed, &filters, &mut pending), Ok(TransactionVerdict::Buffered));

    let mut loads = v1_transaction(1, 2);
    loads.transaction_status_meta.loaded_addresses.writable.push(key(7));
    assert_eq!(on_transaction(0, loads, &filters, &mut pending), Ok(TransactionVerdict::Buffered));
    assert_eq!(pending.get((0, 1)).unwrap().len(), 2);
    assert!(!any_filter_matches(&filters, &PubkeySet::new(), true, false));
    assert!(any_filter_matches(&filters, &PubkeySet::new(), true, true));
}

#[test]
fn a_full_buffer_still_leaves_out_what_no_filter_wants() {
    let mut pending = PendingTransactionBuffer::new(1);
    assert_eq!(
        buffer_transaction(0, v1_transaction(1, 0), true, &mut pending),
        Ok(TransactionVerdict::Buffered)
    );
    assert_eq!(
        buffer_transaction(0, v1_transaction(1, 1), false, &mut pending),
        Ok(TransactionVerdict::FilteredOut)
    );
    assert!(buffer_transaction(0, v1_transaction(1, 2), true, &mut pending).is_err());
}

#[test]
fn a_block_hands_on_its_transactions_with_its_time_and_hash() {
    let mut pending = PendingTransactionBuffer::new(10);
    for index in 0..3 {
        on_transaction::<AnyFilter>(1, v1_transaction(42, index), &Vec::new(), &mut pending).unwrap();
    }
    on_transaction::<AnyFilter>(2, v1_transaction(42, 9), &Vec::new(), &mut pending).unwrap();
    on_transaction::<AnyFilter>(1, v1_transaction(43, 9), &Vec::new(), &mut pending).unwrap();

    let flush = on_block(1, block(42, Some(1_700_000_000)), &mut pending, true);
    assert_eq!(flush.transactions.len(), 3);
    for (index, transaction) in flush.transactions.iter().enumerate() {
        assert_eq!(transaction.index, Some(index as u64));
        assert_eq!(transaction.block_time, Some(1_700_000_000));
        assert_eq!(transaction.block_hash, Some(BlockHash { bytes: [2; 32] }));
    }
    assert!(flush.has_block_time);
    assert_eq!(pending.len(), 2);
    assert!(pending.get((1, 42)).is_none());

    let details = flush.details.unwrap();
    assert_eq!(details.slot, 42);
    assert_eq!(details.block_hash, Some(BlockHash { bytes: [2; 32] }));
    assert_eq!(details.previous_block_hash, Some(BlockHash { bytes: [1; 32] }));
    assert_eq!(details.num_reward_partitions, Some(4));
    assert_eq!(details.block_time, Some(1_700_000_000));
    assert_eq!(details.block_height, Some(11));
    let rewards = details.rewards.unwrap();
    assert_eq!(rewards[0].pubkey, "11111111111111111111111111111111");
    assert_eq!(rewards[0].lamports, -7);
    assert_eq!(rewards[0].post_balance, 70);
    assert_eq!(rewards[0].reward_type, Some(RewardType::Voting));
    assert_eq!(rewards[0].commission, Some(5));
    assert_eq!(rewards[0].commission_bps, Some(500));
}

#[test]
fn a_block_without_a_time_still_gives_its_hash() {
    let mut pending = PendingTransactionBuffer::new(10);
    on_transaction::<AnyFilter>(1, v1_transaction(42, 0), &Vec::new(), &mut pending).unwrap();
    let flush = on_block(1, block(42, None), &mut pending, false);
    assert!(!flush.has_block_time);
    assert_eq!(flush.transactions[0].block_time, None);
    assert_eq!(flush.transactions[0].block_hash, Some(BlockHash { bytes: [2; 32] }));
    assert!(flush.details.is_none());
}

#[test]
fn a_slot_without_a_block_lets_its_transactions_out_as_they_are() {
    let mut pending = PendingTransactionBuffer::new(10);
    on_transaction::<AnyFilter>(1, v1_transaction(42, 0), &Vec::new(), &mut pending).unwrap();
    let flush = on_block(1, BlockData::PossibleLeaderSkipped { slot: 42 }, &mut pending, true);
    assert_eq!(flush.transactions.len(), 1);
    assert_eq!(flush.transactions[0].block_time, None);
    assert_eq!(flush.transactions[0].block_hash, None);
    assert!(!flush.has_block_time);
    assert!(flush.details.is_none());
    assert_eq!(pending.len(), 0);
}

#[test]
fn a_flush_frees_its_room() {
    let mut pending = PendingTransactionBuffer::new(1);
    on_transaction::<AnyFilter>(0, v1_transaction(1, 0), &Vec::new(), &mut pending).unwrap();
    let metadata = BlockMetadata { block_time: Some(5), block_hash: BlockHash { bytes: [3; 32] } };
    assert_eq!(flush_pending_transactions(&mut pending, (0, 2), Some(metadata)).len(), 0);
    assert_eq!(flush_pending_transactions(&mut pending, (0, 1), Some(metadata)).len(), 1);
    assert_eq!(flush_pending_transactions(&mut pending, (0, 1), Some(metadata)).len(), 0);
    on_transaction::<AnyFilter>(0, v1_transaction(2, 0), &Vec::new(), &mut pending).unwrap();
}

#[test]
fn what_is_left_at_the_end_comes_out_without_a_block_time() {
    let mut pending = PendingTransactionBuffer::new(10);
    for (thread, slot, index) in [(0, 5, 0), (1, 5, 1), (0, 6, 2), (0, 5, 3)] {
        on_transaction::<AnyFilter>(thread, v1_transaction(slot, index), &Vec::new(), &mut pending).unwrap();
    }
    let mut keys = pending.keys();
    keys.sort();
    assert_eq!(keys, vec![(0, 5), (0, 6), (1, 5)]);
    let left = flush_all_pending_transactions_without_block_time(&mut pending);
    let mut indexes: Vec<Option<u64>> = left.iter().map(|transaction| transaction.index).collect();
    let first = indexes.iter().position(|index| *index == Some(0)).unwrap();
    assert_eq!(indexes[first + 1], Some(3));
    indexes.sort();
    assert_eq!(indexes, vec![Some(0), Some(1), Some(2), Some(3)]);
    assert!(left.iter().all(|transaction| transaction.block_time.is_none()));
    assert_eq!(pending.len(), 0);
    assert!(pending.keys().is_empty());
}

#[test]
fn a_commission_in_percent_is_never_rounded() {
    assert_eq!(commission_percent(Some(0)), Some(0));
    assert_eq!(commission_percent(Some(10_000)), Some(100));
    assert_eq!(commission_percent(Some(25_500)), Some(255));
    assert_eq!(commission_percent(Some(25_600)), None);
    assert_eq!(commission_percent(Some(550)), None);
    assert_eq!(commission_percent(None), None);
    assert!(block_rewards(&Vec::new()).is_empty());
}

#[test]
fn a_set_of_keys_holds_each_once() {
    let mut keys = PubkeySet::new();
    assert!(keys.insert(key(1)));
    assert!(!keys.insert(key(1)));
    assert!(keys.contains(&key(1)));
    assert!(keys.remove(&key(1)));
    assert!(!keys.remove(&key(1)));
    assert!(!keys.contains(&key(1)));
}

#[test]
fn a_run_that_fails_lets_nothing_out() {
    let mut pending = PendingTransactionBuffer::new(10);
    on_transaction::<AnyFilter>(0, v1_transaction(5, 0), &Vec::new(), &mut pending).unwrap();
    assert_eq!(
        on_firehose_end(Err("archive is gone".to_string()), &mut pending),
        Err("archive is gone".to_string())
    );
    assert_eq!(pending.len(), 1);
    let left = on_firehose_end(Ok(()), &mut pending).unwrap();
    assert_eq!(left.len(), 1);
    assert_eq!(left[0].block_time, None);
    assert_eq!(pending.len(), 0);
}
