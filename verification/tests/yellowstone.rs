use carbon_datasources::arrivals::{ArrivalSummary, SlotSpan};
use carbon_datasources::delivery::{
    convert_transaction_update, is_account_deletion, plan_account_update, plan_transaction_update, DeliveryPlan, Tally,
    TransactionUpdateRejection, TransactionVersion,
};
use carbon_datasources::error::ConversionError;
use carbon_datasources::keys::{Pubkey, PubkeySet, Signature};
use carbon_datasources::output::{
    expected_closed_send_after_cancellation, try_send_authoritative_update, AuthoritativeOutputError, SendFailure,
};
use carbon_datasources::proto;
use carbon_datasources::stream::{
    message_step, Batch, BatchStep, Delivery, MessageStep, NextStep, StreamEvent, StreamState, YellowstoneGrpcUpdateType,
};
use carbon_datasources::updates::{Timestamp, Update, UpdateType};
use tokio::sync::mpsc;
use tokio_util::sync::CancellationToken;

fn v1_transaction_info(heap_size: u32) -> proto::SubscribeUpdateTransactionInfo {
    let signature = vec![19; 64];
    proto::SubscribeUpdateTransactionInfo {
        signature: signature.clone(),
        is_vote: false,
        transaction: Some(proto::Transaction {
            signatures: vec![signature],
            message: Some(proto::Message {
                header: Some(proto::MessageHeader {
                    num_required_signatures: 1,
                    num_readonly_signed_accounts: 0,
                    num_readonly_unsigned_accounts: 1,
                }),
                account_keys: vec![vec![1; 32], vec![2; 32]],
                recent_blockhash: vec![7; 32],
                instructions: vec![proto::CompiledInstruction {
                    program_id_index: 1,
                    accounts: vec![0],
                    data: vec![1, 2, 3],
                }],
                versioned: true,
                address_table_lookups: vec![],
                config: Some(proto::TransactionConfig {
                    heap_size: Some(heap_size),
                    ..proto::TransactionConfig::default()
                }),
            }),
        }),
        meta: Some(proto::TransactionStatusMeta {
            return_data_none: true,
            ..proto::TransactionStatusMeta::default()
        }),
        index: 3,
    }
}

fn account_info() -> proto::SubscribeUpdateAccountInfo {
    proto::SubscribeUpdateAccountInfo {
        pubkey: vec![5; 32],
        lamports: 1,
        owner: vec![0; 32],
        executable: false,
        rent_epoch: 0,
        data: vec![],
        write_version: 1,
        txn_signature: None,
    }
}

fn failure<T>(error: &mpsc::error::TrySendError<T>) -> SendFailure {
    match error {
        mpsc::error::TrySendError::Full(_) => SendFailure::Full,
        mpsc::error::TrySendError::Closed(_) => SendFailure::Closed,
    }
}

fn deliver(
    plan: DeliveryPlan,
    slot: u64,
    sender: &mpsc::Sender<Update>,
    token: &CancellationToken,
) -> Result<Tally, AuthoritativeOutputError> {
    let receipt = plan.receipt(slot);
    let sent = match plan {
        DeliveryPlan::Send(update) => sender.try_send(update).map_err(|error| failure(&error)),
        _ => Ok(()),
    };
    receipt.settle(sent, token.is_cancelled())
}

fn at(seconds: i64) -> Timestamp {
    Timestamp { seconds, nanos: 0 }
}

fn account_message(slot: u64) -> Option<proto::UpdateOneof> {
    Some(proto::UpdateOneof::Account(proto::SubscribeUpdateAccount { account: Some(account_info()), slot }))
}

fn transaction_message(slot: u64) -> Option<proto::UpdateOneof> {
    Some(proto::UpdateOneof::Transaction(proto::SubscribeUpdateTransaction { transaction: None, slot }))
}

#[test]
fn only_closed_send_after_owned_cancellation_is_expected() {
    let token = CancellationToken::new();
    let (sender, receiver) = mpsc::channel::<u8>(1);

    sender.try_send(1).unwrap();
    let full = failure(&sender.try_send(2).unwrap_err());
    assert!(!expected_closed_send_after_cancellation(full, token.is_cancelled()));
    token.cancel();
    assert!(!expected_closed_send_after_cancellation(full, token.is_cancelled()));

    drop(receiver);
    let closed = failure(&sender.try_send(3).unwrap_err());
    assert!(expected_closed_send_after_cancellation(closed, token.is_cancelled()));

    let active = CancellationToken::new();
    assert!(!expected_closed_send_after_cancellation(closed, active.is_cancelled()));
}

#[test]
fn malformed_v1_is_rejected_and_next_valid_v1_is_delivered() {
    let (sender, mut receiver) = mpsc::channel(2);
    let token = CancellationToken::new();

    let malformed = plan_transaction_update(Some(v1_transaction_info(32 * 1024 + 1)), 100, None);
    assert_eq!(
        malformed,
        DeliveryPlan::Rejected {
            version: TransactionVersion::V1,
            rejection: TransactionUpdateRejection::InvalidTransaction(ConversionError::InvalidV1Message(
                solana_message::v1::MessageError::InvalidHeapSize
            )),
        }
    );
    assert_eq!(deliver(malformed, 100, &sender, &token), Ok(Tally::TransactionRejected));
    let valid = plan_transaction_update(Some(v1_transaction_info(32 * 1024)), 101, None);
    assert_eq!(deliver(valid, 101, &sender, &token), Ok(Tally::TransactionReceived));

    let Ok(Update::Transaction(update)) = receiver.try_recv() else {
        panic!("valid V1 must remain deliverable after malformed V1");
    };
    assert_eq!(update.slot, 101);
    assert_eq!(update.transaction.message.static_account_keys().len(), 2);
    assert!(receiver.try_recv().is_err());
}

#[test]
fn full_block_transaction_output_fails_the_stream_generation() {
    let (sender, _receiver) = mpsc::channel(1);
    let token = CancellationToken::new();

    let first = plan_transaction_update(Some(v1_transaction_info(32 * 1024)), 200, Some(1_700_000_000));
    deliver(first, 200, &sender, &token).unwrap();

    let second = plan_transaction_update(Some(v1_transaction_info(32 * 1024)), 201, Some(1_700_000_001));
    let error = deliver(second, 201, &sender, &token).unwrap_err();

    assert_eq!(
        error,
        AuthoritativeOutputError::Full {
            update_type: UpdateType::Transaction,
            slot: 201,
        }
    );
}

#[test]
fn full_account_output_fails_the_stream_generation() {
    let (sender, _receiver) = mpsc::channel(1);
    let token = CancellationToken::new();
    let watched = PubkeySet::new();

    let first = plan_account_update(Some(account_info()), 300, &watched);
    deliver(first, 300, &sender, &token).unwrap();

    let second = plan_account_update(Some(account_info()), 301, &watched);
    let error = deliver(second, 301, &sender, &token).unwrap_err();

    assert_eq!(
        error,
        AuthoritativeOutputError::Full {
            update_type: UpdateType::AccountUpdate,
            slot: 301,
        }
    );
    assert_eq!(
        error.describe(),
        "authoritative output channel full for AccountUpdate at slot 301"
    );
}

#[test]
fn closed_output_after_cancellation_does_not_fail_the_stream_generation() {
    let (sender, receiver) = mpsc::channel(1);
    let token = CancellationToken::new();
    token.cancel();
    drop(receiver);

    let plan = plan_transaction_update(Some(v1_transaction_info(32 * 1024)), 400, None);
    assert_eq!(deliver(plan, 400, &sender, &token).unwrap(), Tally::Nothing);
}

#[test]
fn closed_output_without_cancellation_is_an_error() {
    let (sender, receiver) = mpsc::channel(1);
    drop(receiver);
    let plan = plan_transaction_update(Some(v1_transaction_info(32 * 1024)), 400, None);
    let error = deliver(plan, 400, &sender, &CancellationToken::new()).unwrap_err();
    assert_eq!(
        error,
        AuthoritativeOutputError::Closed { update_type: UpdateType::Transaction, slot: 400 }
    );
    assert_eq!(
        error.describe(),
        "authoritative output channel closed for Transaction at slot 400"
    );
    assert_eq!(
        try_send_authoritative_update(UpdateType::BlockDetails, 1, Ok(()), true),
        Ok(true)
    );
}

#[test]
fn a_converted_transaction_keeps_its_place_and_time() {
    let update = convert_transaction_update(v1_transaction_info(32 * 1024), 7, Some(-1)).unwrap();
    assert_eq!(update.signature, Signature { bytes: [19; 64] });
    assert_eq!(update.slot, 7);
    assert_eq!(update.index, Some(3));
    assert_eq!(update.block_time, Some(-1));
    assert_eq!(update.block_hash, None);
    assert!(!update.is_vote);
}

#[test]
fn each_reason_for_a_rejection_has_its_label() {
    let good = v1_transaction_info(32 * 1024);
    let reason = |info| convert_transaction_update(info, 1, None).unwrap_err();

    let mut bad = good.clone();
    bad.signature.pop();
    bad.transaction = None;
    assert_eq!(reason(bad).as_label(), "invalid_signature");
    let mut bad = good.clone();
    bad.transaction = None;
    bad.meta = None;
    assert_eq!(reason(bad).as_label(), "missing_transaction");
    let mut bad = v1_transaction_info(1);
    bad.meta = None;
    let rejection = reason(bad);
    assert_eq!(rejection.as_label(), "invalid_transaction");
    assert!(rejection.conversion_error().is_some());
    let mut bad = good.clone();
    bad.meta = None;
    let rejection = reason(bad);
    assert_eq!(rejection.as_label(), "missing_meta");
    assert!(rejection.conversion_error().is_none());
    let mut bad = good;
    bad.meta = Some(proto::TransactionStatusMeta::default());
    let rejection = reason(bad);
    assert_eq!(rejection.as_label(), "invalid_meta");
    assert_eq!(
        rejection.conversion_error(),
        Some(&ConversionError::Legacy("failed to get return_data"))
    );
    assert_eq!(
        plan_transaction_update(None, 1, None),
        DeliveryPlan::Rejected {
            version: TransactionVersion::Unknown,
            rejection: TransactionUpdateRejection::MissingInfo,
        }
    );
    assert_eq!(TransactionUpdateRejection::MissingInfo.as_label(), "missing_info");
}

#[test]
fn a_rejection_tells_the_version() {
    let mut info = v1_transaction_info(1);
    assert_eq!(TransactionVersion::of_info(&Some(info.clone())).as_label(), "v1");
    if let Some(message) = info.transaction.as_mut().and_then(|tx| tx.message.as_mut()) {
        message.config = None;
    }
    assert_eq!(TransactionVersion::of_info(&Some(info.clone())).as_label(), "v0");
    if let Some(message) = info.transaction.as_mut().and_then(|tx| tx.message.as_mut()) {
        message.versioned = false;
    }
    assert_eq!(TransactionVersion::of_info(&Some(info.clone())).as_label(), "legacy");
    info.transaction = None;
    assert_eq!(TransactionVersion::of_info(&Some(info)).as_label(), "unknown");
    assert_eq!(TransactionVersion::of_info(&None), TransactionVersion::Unknown);
}

#[test]
fn an_account_update_carries_its_write_version() {
    let mut info = account_info();
    info.write_version = 77;
    info.txn_signature = Some(vec![8; 64]);
    let DeliveryPlan::Send(Update::Account(update)) = plan_account_update(Some(info), 9, &PubkeySet::new()) else {
        panic!("an account update");
    };
    assert_eq!(update.write_version, Some(77));
    assert_eq!(update.transaction_signature, Some(Signature { bytes: [8; 64] }));
    assert_eq!(update.slot, 9);
    assert_eq!(update.account.lamports, 1);
    assert_eq!(update.pubkey, Pubkey { bytes: [5; 32] });
}

#[test]
fn a_signature_of_another_length_is_left_out() {
    let mut info = account_info();
    info.txn_signature = Some(vec![8; 63]);
    let DeliveryPlan::Send(Update::Account(update)) = plan_account_update(Some(info), 9, &PubkeySet::new()) else {
        panic!("an account update");
    };
    assert_eq!(update.transaction_signature, None);
}

#[test]
fn a_deletion_is_told_only_of_watched_accounts() {
    let mut info = account_info();
    info.lamports = 0;
    assert!(is_account_deletion(&Some(info.clone())));
    let mut watched = PubkeySet::new();
    let plan = plan_account_update(Some(info.clone()), 9, &watched);
    assert_eq!(plan, DeliveryPlan::UntrackedDeletion);
    assert_eq!(plan.tally(), Tally::AccountReceived);

    watched.insert(Pubkey { bytes: [5; 32] });
    let DeliveryPlan::Send(Update::AccountDeletion(deletion)) = plan_account_update(Some(info.clone()), 9, &watched)
    else {
        panic!("an account deletion");
    };
    assert_eq!(deletion.pubkey, Pubkey { bytes: [5; 32] });
    assert_eq!(deletion.slot, 9);
    assert_eq!(deletion.write_version, Some(1));

    for change in 0..3 {
        let mut alive = info.clone();
        match change {
            0 => alive.lamports = 1,
            1 => alive.data = vec![0],
            _ => alive.owner = vec![1; 32],
        }
        assert!(!is_account_deletion(&Some(alive.clone())));
        assert!(matches!(
            plan_account_update(Some(alive), 9, &watched),
            DeliveryPlan::Send(Update::Account(_))
        ));
    }
}

#[test]
fn malformed_accounts_are_skipped_in_silence() {
    let watched = PubkeySet::new();
    let mut info = account_info();
    info.pubkey.pop();
    assert_eq!(plan_account_update(Some(info), 9, &watched), DeliveryPlan::MalformedAccount);
    let mut info = account_info();
    info.owner.push(0);
    let plan = plan_account_update(Some(info), 9, &watched);
    assert_eq!(plan, DeliveryPlan::MalformedAccount);
    assert_eq!(plan.tally(), Tally::Nothing);
    assert_eq!(plan_account_update(None, 9, &watched), DeliveryPlan::MissingAccount);
    assert_eq!(plan.receipt(9).settle(Err(SendFailure::Full), false), Ok(Tally::Nothing));
}

#[test]
fn each_kind_of_message_has_its_label() {
    let block = proto::SubscribeUpdateBlock::default();
    let kinds = [
        (account_message(1), "account"),
        (Some(proto::UpdateOneof::Slot(1)), "slot"),
        (transaction_message(1), "transaction"),
        (Some(proto::UpdateOneof::TransactionStatus), "transaction_status"),
        (Some(proto::UpdateOneof::Block(block)), "block"),
        (Some(proto::UpdateOneof::Ping), "ping"),
        (Some(proto::UpdateOneof::Pong), "pong"),
        (Some(proto::UpdateOneof::BlockMeta), "block_meta"),
        (Some(proto::UpdateOneof::Entry), "entry"),
        (None, "other"),
    ];
    for (update, label) in kinds {
        assert_eq!(YellowstoneGrpcUpdateType::from_update(&update).as_label(), label);
    }
}

#[test]
fn a_block_delivers_its_transactions_before_its_accounts() {
    let mut failed = v1_transaction_info(1);
    failed.index = 10;
    if let Some(meta) = failed.meta.as_mut() {
        meta.err = Some(proto::EncodedTransactionError { err: vec![1] });
    }
    let mut unknown = v1_transaction_info(2);
    unknown.meta = None;
    let good = v1_transaction_info(3);
    let block = proto::SubscribeUpdateBlock {
        slot: 8,
        block_time: Some(proto::UnixTimestamp { timestamp: 44 }),
        transactions: vec![failed.clone(), good.clone(), unknown.clone()],
        accounts: vec![account_info()],
        ..proto::SubscribeUpdateBlock::default()
    };
    let update = Some(proto::UpdateOneof::Block(block));
    assert_eq!(
        message_step(update.clone(), false),
        MessageStep::Deliver {
            slot: 8,
            deliveries: vec![
                Delivery::Transaction(Some(good.clone()), Some(44)),
                Delivery::Account(Some(account_info())),
            ],
        }
    );
    assert_eq!(
        message_step(update, true),
        MessageStep::Deliver {
            slot: 8,
            deliveries: vec![
                Delivery::Transaction(Some(failed), Some(44)),
                Delivery::Transaction(Some(good), Some(44)),
                Delivery::Transaction(Some(unknown), Some(44)),
                Delivery::Account(Some(account_info())),
            ],
        }
    );
}

#[test]
fn other_messages_deliver_nothing_and_pings_are_answered() {
    assert_eq!(
        message_step(account_message(3), true),
        MessageStep::Deliver { slot: 3, deliveries: vec![Delivery::Account(Some(account_info()))] }
    );
    assert_eq!(
        message_step(transaction_message(4), true),
        MessageStep::Deliver { slot: 4, deliveries: vec![Delivery::Transaction(None, None)] }
    );
    assert_eq!(message_step(Some(proto::UpdateOneof::Ping), true), MessageStep::AnswerPing { id: 1 });
    for update in [
        Some(proto::UpdateOneof::Slot(1)),
        Some(proto::UpdateOneof::TransactionStatus),
        Some(proto::UpdateOneof::Pong),
        Some(proto::UpdateOneof::BlockMeta),
        Some(proto::UpdateOneof::Entry),
        None,
    ] {
        assert_eq!(message_step(update, true), MessageStep::Nothing);
    }
}

#[test]
fn a_gap_is_told_once_and_whole() {
    let mut state = StreamState::new();
    let reaction = state.on_event(StreamEvent::Subscribed, at(1));
    assert_eq!(reaction.next, NextStep::Receive);
    assert!(reaction.connected);
    assert!(state.on_message(&account_message(100), 1).reconnection.is_none());
    state.on_deliveries(100, &Ok(()), at(2));

    let reaction = state.on_event(StreamEvent::StreamClosed, at(3));
    assert_eq!(reaction.next, NextStep::Subscribe);
    assert!(!reaction.connected);
    assert_eq!(reaction.disconnected_at, Some(100));
    let reaction = state.on_event(StreamEvent::SubscribeFailed, at(4));
    assert_eq!(reaction.disconnected_at, None);
    state.on_event(StreamEvent::Subscribed, at(5));

    assert!(state.on_message(&Some(proto::UpdateOneof::Ping), 2).reconnection.is_none());
    assert!(state.on_message(&Some(proto::UpdateOneof::Slot(200)), 3).reconnection.is_none());
    let notice = state.on_message(&transaction_message(130), 4).reconnection.unwrap();
    assert_eq!(notice.source, "yellowstone-grpc");
    assert_eq!(notice.disconnect_time, at(3));
    assert_eq!(notice.last_slot_before_disconnect, 100);
    assert_eq!(notice.first_slot_after_reconnect, 130);
    assert_eq!(notice.missed_slots, 30);
    assert!(state.on_message(&transaction_message(131), 5).reconnection.is_none());
}

#[test]
fn a_slot_that_comes_again_misses_none() {
    let mut state = StreamState::new();
    state.on_event(StreamEvent::Subscribed, at(1));
    state.on_deliveries(100, &Ok(()), at(1));
    state.on_event(StreamEvent::TimedOut, at(2));
    state.on_event(StreamEvent::Subscribed, at(3));
    let notice = state.on_message(&transaction_message(90), 1).reconnection.unwrap();
    assert_eq!(notice.missed_slots, 0);
}

#[test]
fn a_lost_update_ends_the_generation_at_the_last_delivered_slot() {
    let mut state = StreamState::new();
    state.on_event(StreamEvent::Subscribed, at(1));
    state.on_deliveries(50, &Ok(()), at(1));
    let error = AuthoritativeOutputError::Full { update_type: UpdateType::Transaction, slot: 51 };
    let reaction = state.on_deliveries(51, &Err(error), at(2));
    assert_eq!(reaction.next, NextStep::Subscribe);
    assert!(!reaction.connected);
    assert_eq!(reaction.disconnected_at, Some(50));
    assert_eq!(state.snapshot().last_processed_slot, 50);
    assert_eq!(state.snapshot().last_disconnect_time, Some(at(2)));
    assert_eq!(state.snapshot().last_slot_before_disconnect, Some(50));
    let reaction = state.record_authoritative_output_failure(at(3));
    assert_eq!(reaction.disconnected_at, None);
    assert_eq!(state.snapshot().last_disconnect_time, Some(at(2)));
}

#[test]
fn a_failed_answer_to_a_ping_is_no_loss() {
    let mut state = StreamState::new();
    state.on_event(StreamEvent::Subscribed, at(1));
    for event in [StreamEvent::PingFailed, StreamEvent::GenerationCancelled] {
        let reaction = state.on_event(event, at(2));
        assert_eq!(reaction.next, NextStep::Subscribe);
        assert!(!reaction.connected);
        assert_eq!(reaction.disconnected_at, None);
        assert_eq!(state.snapshot().last_disconnect_time, None);
    }
    let reaction = state.on_event(StreamEvent::StreamFailed, at(4));
    assert_eq!(reaction.disconnected_at, Some(0));
    assert_eq!(state.snapshot().last_disconnect_time, Some(at(4)));
}

#[test]
fn the_source_makes_progress_with_higher_slots() {
    let mut state = StreamState::new();
    for (slot, progress) in [(5, Some(5)), (5, None), (4, None), (9, Some(9))] {
        let report = state.on_message(&Some(proto::UpdateOneof::Slot(slot)), 0);
        assert_eq!(report.slot_progress, progress);
        assert_eq!(report.last_slot, Some(slot));
        assert_eq!(state.snapshot().last_slot, Some(slot));
        assert_eq!(report.update_type, YellowstoneGrpcUpdateType::Slot);
    }
    assert_eq!(state.snapshot().highest_slot, Some(9));
    let report = state.on_message(&transaction_message(20), 0);
    assert_eq!(report.slot_progress, None);
    assert_eq!(report.last_slot, None);
    assert_eq!(state.snapshot().last_slot, Some(9));
}

#[test]
fn arrivals_are_timed_over_the_stream_and_by_slot() {
    let mut state = StreamState::new();
    let report = state.on_message(&account_message(10), 1_000_000).arrival.unwrap();
    assert_eq!(report.delta_us, None);
    assert_eq!(report.intra_slot_delta_us, None);
    assert_eq!(report.finished_slot, None);
    let report = state.on_message(&account_message(10), 1_002_999).arrival.unwrap();
    assert_eq!(report.delta_us, Some(2));
    assert_eq!(report.intra_slot_delta_us, Some(2));
    let report = state.on_message(&account_message(11), 1_010_000).arrival.unwrap();
    assert_eq!(report.delta_us, Some(7));
    assert_eq!(report.intra_slot_delta_us, None);
    assert_eq!(report.finished_slot, Some(SlotSpan { span_us: 2, update_count: 2 }));
    assert_eq!(report.summary, None);
    assert_eq!(
        state.on_event(StreamEvent::Cancelled, at(1)).summary,
        Some(ArrivalSummary { count: 3, avg_delta_us: 4, min_delta_us: 2, max_delta_us: 7 })
    );
    assert!(state.can_take(1_010_000));
    assert!(!state.can_take(1_009_999));
}

#[test]
fn a_summary_comes_every_five_thousand_arrivals() {
    let mut state = StreamState::new();
    for count in 1u64..=10_000 {
        let report = state.on_message(&account_message(1), count * 3_000).arrival.unwrap();
        let due = count % 5_000 == 0;
        assert_eq!(report.summary.is_some(), due);
        if let Some(summary) = report.summary {
            assert_eq!(summary, ArrivalSummary { count, avg_delta_us: 3, min_delta_us: 3, max_delta_us: 3 });
        }
    }
}

#[test]
fn the_stream_ends_with_a_summary() {
    let mut state = StreamState::new();
    let reaction = state.on_event(StreamEvent::Cancelled, at(1));
    assert_eq!(reaction.next, NextStep::Stop);
    assert_eq!(reaction.summary, None);
    assert!(state.on_message(&account_message(1), 0).arrival.is_some());
    state.on_message(&account_message(1), 5_000);
    let reaction = state.on_event(StreamEvent::Cancelled, at(1));
    assert!(!reaction.connected);
    assert_eq!(
        reaction.summary,
        Some(ArrivalSummary { count: 2, avg_delta_us: 5, min_delta_us: 5, max_delta_us: 5 })
    );
}

#[test]
fn a_message_is_delivered_in_order_up_to_the_first_loss() {
    let deliveries = || {
        vec![
            Delivery::Transaction(None, None),
            Delivery::Account(None),
            Delivery::Account(Some(account_info())),
        ]
    };
    let mut state = StreamState::new();
    let mut batch = Batch::new(9, deliveries());
    assert_eq!(batch.slot(), 9);
    for expected in deliveries() {
        assert_eq!(
            state.next_delivery(&mut batch, &Ok(()), at(1)),
            BatchStep::Deliver(expected)
        );
        assert_eq!(state.snapshot().last_processed_slot, 0);
    }
    match state.next_delivery(&mut batch, &Ok(()), at(1)) {
        BatchStep::Done(reaction) => assert_eq!(reaction.next, NextStep::Receive),
        BatchStep::Deliver(_) => panic!("all is delivered"),
    }
    assert_eq!(state.snapshot().last_processed_slot, 9);

    let mut batch = Batch::new(10, deliveries());
    state.next_delivery(&mut batch, &Ok(()), at(2));
    let error = AuthoritativeOutputError::Closed { update_type: UpdateType::Transaction, slot: 10 };
    match state.next_delivery(&mut batch, &Err(error), at(2)) {
        BatchStep::Done(reaction) => {
            assert_eq!(reaction.next, NextStep::Subscribe);
            assert_eq!(reaction.disconnected_at, Some(9));
        }
        BatchStep::Deliver(_) => panic!("nothing is tried behind a loss"),
    }
    assert_eq!(state.snapshot().last_processed_slot, 9);
}
