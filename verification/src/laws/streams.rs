//! The messages of a stream, and what is known of it.
use crate::arrivals::ArrivalTracker;
use crate::output::AuthoritativeOutputError;
use crate::proto::{SubscribeUpdateBlock, SubscribeUpdateTransactionInfo, UpdateOneof};
use crate::stream::{
    Delivery, MessageReport, MessageStep, NextStep, StreamEvent, StreamView, YellowstoneGrpcUpdateType,
};
use crate::updates::Timestamp;
use vstd::prelude::*;

verus! {

/// With failed transactions left out, the delivered transactions are those of the list that
/// have a status without an error, in order, whatever else they hold.
proof fn lemma_succeeded_transactions(transactions: Seq<SubscribeUpdateTransactionInfo>, block_time: Option<i64>)
    ensures
        crate::stream::kept_transactions(false, transactions, block_time) == transactions.filter(
            |info: SubscribeUpdateTransactionInfo| info.meta is Some && info.meta->0.err is None,
        ).map_values(|info: SubscribeUpdateTransactionInfo| Delivery::Transaction(Some(info), block_time)),
    decreases transactions.len(),
{
    let succeeded = |info: SubscribeUpdateTransactionInfo| info.meta is Some && info.meta->0.err is None;
    let told = |info: SubscribeUpdateTransactionInfo| Delivery::Transaction(Some(info), block_time);
    reveal(Seq::filter);
    if transactions.len() == 0 {
        assert(transactions.filter(succeeded).map_values(told) =~= Seq::empty());
    } else {
        let rest = transactions.drop_last();
        let last = transactions.last();
        lemma_succeeded_transactions(rest, block_time);
        assert(rest.filter(succeeded).push(last).map_values(told) =~= rest.filter(succeeded).map_values(told).push(
            told(last),
        ));
    }
    assert(crate::stream::kept_transactions(false, transactions, block_time) =~= transactions.filter(
        succeeded,
    ).map_values(told));
}

/// With failed transactions left out, a block delivers, in order, exactly those of its
/// transactions that have a status without an error, whatever their other fields; behind them
/// come all of its accounts, in order. All transactions get the time of the block.
pub proof fn law_block_delivers_succeeded_transactions(block: SubscribeUpdateBlock, step: MessageStep)
    requires
        crate::stream::step_matches(Some(UpdateOneof::Block(block)), false, step),
    ensures
        step matches MessageStep::Deliver { slot, deliveries } && {
            let block_time = match block.block_time {
                Some(time) => Some(time.timestamp),
                None => None,
            };
            let succeeded = block.transactions@.filter(
                |info: SubscribeUpdateTransactionInfo| info.meta is Some && info.meta->0.err is None,
            );
            &&& slot == block.slot
            &&& deliveries@.len() == succeeded.len() + block.accounts@.len()
            &&& forall|i: int|
                0 <= i < succeeded.len() ==> #[trigger] deliveries@[i] == Delivery::Transaction(
                    Some(succeeded[i]),
                    block_time,
                )
            &&& forall|i: int|
                0 <= i < block.accounts@.len() ==> #[trigger] deliveries@[succeeded.len() + i] == Delivery::Account(
                    Some(block.accounts@[i]),
                )
        },
{
    let block_time = match block.block_time {
        Some(time) => Some(time.timestamp),
        None => None,
    };
    lemma_succeeded_transactions(block.transactions@, block_time);
}

/// The order of the delivered transactions: of two transactions of a block that have a status
/// without an error, the earlier one is delivered earlier, and each at its own place, which is
/// the number of such transactions before it.
pub proof fn law_succeeded_transactions_keep_their_places(
    transactions: Seq<SubscribeUpdateTransactionInfo>,
    block_time: Option<i64>,
    i: int,
)
    requires
        0 <= i < transactions.len(),
        transactions[i].meta matches Some(meta) && meta.err is None,
    ensures
        ({
            let kept = crate::stream::kept_transactions(false, transactions, block_time);
            let before = crate::stream::kept_transactions(false, transactions.take(i), block_time);
            &&& before.len() <= i
            &&& before.len() < kept.len()
            &&& kept.take(before.len() as int) == before
            &&& kept[before.len() as int] == Delivery::Transaction(Some(transactions[i]), block_time)
        }),
    decreases transactions.len(),
{
    let kept = crate::stream::kept_transactions(false, transactions, block_time);
    let before = crate::stream::kept_transactions(false, transactions.take(i), block_time);
    let rest = transactions.drop_last();
    lemma_kept_is_no_longer(transactions.take(i), block_time);
    if i == transactions.len() - 1 {
        assert(transactions.take(i) =~= rest);
        assert(kept.take(before.len() as int) =~= before);
    } else {
        law_succeeded_transactions_keep_their_places(rest, block_time, i);
        assert(rest.take(i) =~= transactions.take(i));
        let kept_rest = crate::stream::kept_transactions(false, rest, block_time);
        assert(kept.take(before.len() as int) =~= kept_rest.take(before.len() as int));
    }
}

/// No more transactions are delivered than there are.
proof fn lemma_kept_is_no_longer(transactions: Seq<SubscribeUpdateTransactionInfo>, block_time: Option<i64>)
    ensures
        crate::stream::kept_transactions(false, transactions, block_time).len() <= transactions.len(),
    decreases transactions.len(),
{
    if transactions.len() > 0 {
        lemma_kept_is_no_longer(transactions.drop_last(), block_time);
    }
}

/// A transaction without a status, or with an error, is not delivered where failed transactions
/// are left out.
pub proof fn law_failed_transactions_are_left_out(
    transactions: Seq<SubscribeUpdateTransactionInfo>,
    block_time: Option<i64>,
    j: int,
)
    requires
        0 <= j < crate::stream::kept_transactions(false, transactions, block_time).len(),
    ensures
        crate::stream::kept_transactions(false, transactions, block_time)[j] matches Delivery::Transaction(
            Some(info),
            time,
        ) && {
            &&& info.meta matches Some(meta) && meta.err is None
            &&& time == block_time
            &&& transactions.contains(info)
        },
    decreases transactions.len(),
{
    let rest = transactions.drop_last();
    let kept_rest = crate::stream::kept_transactions(false, rest, block_time);
    if j < kept_rest.len() {
        law_failed_transactions_are_left_out(rest, block_time, j);
        let info = kept_rest[j]->Transaction_0->0;
        let k = choose|k: int| 0 <= k < rest.len() && rest[k] == info;
        assert(transactions[k] == info);
    } else {
        assert(transactions[transactions.len() - 1] == transactions.last());
    }
}

/// With failed transactions kept, a block delivers all of its transactions, in order, and
/// behind them all of its accounts, in order.
pub proof fn law_block_delivers_all_transactions(block: SubscribeUpdateBlock, step: MessageStep)
    requires
        crate::stream::step_matches(Some(UpdateOneof::Block(block)), true, step),
    ensures
        step matches MessageStep::Deliver { slot, deliveries } && {
            let block_time = match block.block_time {
                Some(time) => Some(time.timestamp),
                None => None,
            };
            &&& slot == block.slot
            &&& deliveries@.len() == block.transactions@.len() + block.accounts@.len()
            &&& forall|i: int|
                0 <= i < block.transactions@.len() ==> #[trigger] deliveries@[i] == Delivery::Transaction(
                    Some(block.transactions@[i]),
                    block_time,
                )
            &&& forall|i: int|
                0 <= i < block.accounts@.len() ==> #[trigger] deliveries@[block.transactions@.len() + i]
                    == Delivery::Account(Some(block.accounts@[i]))
        },
{
    let block_time = match block.block_time {
        Some(time) => Some(time.timestamp),
        None => None,
    };
    crate::stream::law_all_transactions_kept(block.transactions@, block_time);
}

/// An account or a transaction that comes alone is delivered as it came, under its slot, and a
/// transaction without a block time. A ping is answered with the number 1. Every other message
/// asks for nothing.
pub proof fn law_single_messages(update: Option<UpdateOneof>, retain_failed: bool, step: MessageStep)
    requires
        crate::stream::step_matches(update, retain_failed, step),
    ensures
        update matches Some(UpdateOneof::Account(account)) ==> (step matches MessageStep::Deliver { slot, deliveries } && {
            &&& slot == account.slot
            &&& deliveries@.len() == 1
            &&& deliveries@[0] == Delivery::Account(account.account)
        }),
        update matches Some(UpdateOneof::Transaction(transaction)) ==> (step matches MessageStep::Deliver {
            slot,
            deliveries,
        } && {
            &&& slot == transaction.slot
            &&& deliveries@.len() == 1
            &&& deliveries@[0] == Delivery::Transaction(transaction.transaction, None)
        }),
        update matches Some(UpdateOneof::Ping) <==> step is AnswerPing,
        update matches Some(UpdateOneof::Ping) ==> step == (MessageStep::AnswerPing { id: 1 }),
        update is None ==> step is Nothing,
        update matches Some(UpdateOneof::Slot(_)) ==> step is Nothing,
        update matches Some(UpdateOneof::TransactionStatus) ==> step is Nothing,
        update matches Some(UpdateOneof::Pong) ==> step is Nothing,
        update matches Some(UpdateOneof::BlockMeta) ==> step is Nothing,
        update matches Some(UpdateOneof::Entry) ==> step is Nothing,
        update matches Some(UpdateOneof::Block(_)) ==> step is Deliver,
{
}

/// The kinds of message, and their labels.
pub proof fn law_message_kinds(update: UpdateOneof)
    ensures
        YellowstoneGrpcUpdateType::type_of(None).label() == "other",
        update is Account ==> YellowstoneGrpcUpdateType::type_of(Some(update)).label() == "account",
        update is Slot ==> YellowstoneGrpcUpdateType::type_of(Some(update)).label() == "slot",
        update is Transaction ==> YellowstoneGrpcUpdateType::type_of(Some(update)).label() == "transaction",
        update is TransactionStatus ==> YellowstoneGrpcUpdateType::type_of(Some(update)).label()
            == "transaction_status",
        update is Block ==> YellowstoneGrpcUpdateType::type_of(Some(update)).label() == "block",
        update is Ping ==> YellowstoneGrpcUpdateType::type_of(Some(update)).label() == "ping",
        update is Pong ==> YellowstoneGrpcUpdateType::type_of(Some(update)).label() == "pong",
        update is BlockMeta ==> YellowstoneGrpcUpdateType::type_of(Some(update)).label() == "block_meta",
        update is Entry ==> YellowstoneGrpcUpdateType::type_of(Some(update)).label() == "entry",
        YellowstoneGrpcUpdateType::type_of(None) == YellowstoneGrpcUpdateType::Other,
        update is Account <==> YellowstoneGrpcUpdateType::type_of(Some(update)) == YellowstoneGrpcUpdateType::Account,
        update is Slot <==> YellowstoneGrpcUpdateType::type_of(Some(update)) == YellowstoneGrpcUpdateType::Slot,
        update is Transaction <==> YellowstoneGrpcUpdateType::type_of(Some(update))
            == YellowstoneGrpcUpdateType::Transaction,
        update is TransactionStatus <==> YellowstoneGrpcUpdateType::type_of(Some(update))
            == YellowstoneGrpcUpdateType::TransactionStatus,
        update is Block <==> YellowstoneGrpcUpdateType::type_of(Some(update)) == YellowstoneGrpcUpdateType::Block,
        update is Ping <==> YellowstoneGrpcUpdateType::type_of(Some(update)) == YellowstoneGrpcUpdateType::Ping,
        update is Pong <==> YellowstoneGrpcUpdateType::type_of(Some(update)) == YellowstoneGrpcUpdateType::Pong,
        update is BlockMeta <==> YellowstoneGrpcUpdateType::type_of(Some(update))
            == YellowstoneGrpcUpdateType::BlockMeta,
        update is Entry <==> YellowstoneGrpcUpdateType::type_of(Some(update)) == YellowstoneGrpcUpdateType::Entry,
{
}

/// Accounts, transactions and blocks have a slot; no other message has.
pub proof fn law_workload_slots(update: Option<UpdateOneof>)
    ensures
        update matches Some(UpdateOneof::Account(account)) ==> crate::stream::workload_slot(update) == Some(
            account.slot,
        ),
        update matches Some(UpdateOneof::Transaction(transaction)) ==> crate::stream::workload_slot(update) == Some(
            transaction.slot,
        ),
        update matches Some(UpdateOneof::Block(block)) ==> crate::stream::workload_slot(update) == Some(block.slot),
        crate::stream::workload_slot(update) is Some ==> (update matches Some(inner) && (inner is Account
            || inner is Transaction || inner is Block)),
{
}

/// The loss of a connection: a failed subscription, a closed stream, a time-out and a failure
/// of the stream. If no loss was known, its time and the last delivered slot are noted and the
/// slot is told; a loss after a loss changes and tells nothing. The stream is subscribed to
/// anew, and nothing else that is known changes.
pub proof fn law_losses(state: StreamView, event: StreamEvent, now: Timestamp)
    requires
        event == StreamEvent::SubscribeFailed || event == StreamEvent::StreamClosed || event == StreamEvent::TimedOut
            || event == StreamEvent::StreamFailed,
    ensures
        ({
            let after = state.after_event(event, now);
            let reaction = state.reaction(event);
            &&& reaction.next == NextStep::Subscribe
            &&& !reaction.connected
            &&& reaction.summary is None
            &&& state.last_disconnect_time is None ==> {
                &&& reaction.disconnected_at == Some(state.last_processed_slot)
                &&& after.last_disconnect_time == Some(now)
                &&& after.last_slot_before_disconnect == Some(state.last_processed_slot)
            }
            &&& state.last_disconnect_time is Some ==> {
                &&& reaction.disconnected_at is None
                &&& after.last_disconnect_time == state.last_disconnect_time
                &&& after.last_slot_before_disconnect == state.last_slot_before_disconnect
            }
            &&& after.last_processed_slot == state.last_processed_slot
            &&& after.first_message_after_reconnect == state.first_message_after_reconnect
            &&& after.last_slot == state.last_slot
            &&& after.highest_slot == state.highest_slot
            &&& after.arrivals == state.arrivals
        }),
{
}

/// A new subscription makes the stream wait for a first slot exactly if a loss is still to be
/// told; the stream is connected, waits for messages, and nothing else that is known changes.
pub proof fn law_subscription(state: StreamView, now: Timestamp)
    ensures
        ({
            let after = state.after_event(StreamEvent::Subscribed, now);
            let reaction = state.reaction(StreamEvent::Subscribed);
            &&& reaction.next == NextStep::Receive
            &&& reaction.connected
            &&& reaction.disconnected_at is None
            &&& reaction.summary is None
            &&& after.first_message_after_reconnect <==> state.last_disconnect_time is Some
            &&& after.last_disconnect_time == state.last_disconnect_time
            &&& after.last_slot_before_disconnect == state.last_slot_before_disconnect
            &&& after.last_processed_slot == state.last_processed_slot
            &&& after.last_slot == state.last_slot
            &&& after.highest_slot == state.highest_slot
            &&& after.arrivals == state.arrivals
        }),
{
}

/// A cancelled generation and a ping that could not be answered are no loss: the stream is
/// subscribed to anew, and nothing that is known changes.
pub proof fn law_generation_end(state: StreamView, event: StreamEvent, now: Timestamp)
    requires
        event == StreamEvent::GenerationCancelled || event == StreamEvent::PingFailed,
    ensures
        state.after_event(event, now) == state,
        state.reaction(event).next == NextStep::Subscribe,
        !state.reaction(event).connected,
        state.reaction(event).disconnected_at is None,
        state.reaction(event).summary is None,
{
}

/// The end of the datasource: it stops, changes nothing, and tells the timing of the account
/// updates if at least two came.
pub proof fn law_cancellation(state: StreamView, now: Timestamp)
    ensures
        ({
            let reaction = state.reaction(StreamEvent::Cancelled);
            &&& state.after_event(StreamEvent::Cancelled, now) == state
            &&& reaction.next == NextStep::Stop
            &&& !reaction.connected
            &&& reaction.disconnected_at is None
            &&& state.arrivals.arrival_count <= 1 ==> reaction.summary is None
            &&& state.arrivals.arrival_count > 1 ==> (reaction.summary matches Some(summary) && {
                &&& summary.count == state.arrivals.arrival_count
                &&& summary.min_delta_us == state.arrivals.min_delta_us
                &&& summary.max_delta_us == state.arrivals.max_delta_us
                &&& summary == state.arrivals.summarized()
            })
        }),
{
}

/// A message that was delivered whole moves the last delivered slot to its own, and nothing
/// else. One of which something was lost is a loss of the connection: the last delivered slot
/// stays, and unless a loss was known, its time and that slot are noted.
pub proof fn law_deliveries(state: StreamView, slot: u64, error: AuthoritativeOutputError, now: Timestamp)
    ensures
        ({
            let whole = state.after_deliveries(slot, Ok(()), now);
            let reaction = state.deliveries_reaction(Ok(()));
            &&& whole.last_processed_slot == slot
            &&& whole.last_disconnect_time == state.last_disconnect_time
            &&& whole.last_slot_before_disconnect == state.last_slot_before_disconnect
            &&& whole.first_message_after_reconnect == state.first_message_after_reconnect
            &&& whole.last_slot == state.last_slot
            &&& whole.highest_slot == state.highest_slot
            &&& whole.arrivals == state.arrivals
            &&& reaction.next == NextStep::Receive
            &&& reaction.connected
            &&& reaction.disconnected_at is None
            &&& reaction.summary is None
        }),
        ({
            let lost = state.after_deliveries(slot, Err(error), now);
            let reaction = state.deliveries_reaction(Err(error));
            &&& lost.last_processed_slot == state.last_processed_slot
            &&& lost.first_message_after_reconnect == state.first_message_after_reconnect
            &&& lost.last_slot == state.last_slot
            &&& lost.highest_slot == state.highest_slot
            &&& lost.arrivals == state.arrivals
            &&& reaction.next == NextStep::Subscribe
            &&& !reaction.connected
            &&& reaction.summary is None
            &&& state.last_disconnect_time is None ==> {
                &&& lost.last_disconnect_time == Some(now)
                &&& lost.last_slot_before_disconnect == Some(state.last_processed_slot)
                &&& reaction.disconnected_at == Some(state.last_processed_slot)
            }
            &&& state.last_disconnect_time is Some ==> {
                &&& lost.last_disconnect_time == state.last_disconnect_time
                &&& lost.last_slot_before_disconnect == state.last_slot_before_disconnect
                &&& reaction.disconnected_at is None
            }
        }),
{
}

/// What is noted of a lost update beside its message: the same as of a lost connection.
pub proof fn law_recorded_loss(state: StreamView, now: Timestamp)
    ensures
        state.last_disconnect_time is None ==> {
            &&& state.loss() == Some(state.last_processed_slot)
            &&& state.disconnected(now).last_disconnect_time == Some(now)
            &&& state.disconnected(now).last_slot_before_disconnect == Some(state.last_processed_slot)
        },
        state.last_disconnect_time is Some ==> state.loss() is None && state.disconnected(now) == state,
        state.disconnected(now).last_processed_slot == state.last_processed_slot,
        state.disconnected(now).first_message_after_reconnect == state.first_message_after_reconnect,
        state.disconnected(now).last_slot == state.last_slot,
        state.disconnected(now).highest_slot == state.highest_slot,
        state.disconnected(now).arrivals == state.arrivals,
{
}

/// The notice of a gap: it comes with the first account, transaction or block after the
/// connection is back, and only there. It names the source, the time of the loss, the last slot
/// before it, the slot of the message, and how many slots lie from the one to the other, or
/// none where the slot is not higher. With it the loss is forgotten.
pub proof fn law_gap_notice(
    state: StreamView,
    update: Option<UpdateOneof>,
    arrival: u64,
    report: MessageReport,
    slot: u64,
    lost_at: Timestamp,
    last_slot: u64,
)
    requires
        state.told(update, arrival, report),
        state.last_disconnect_time == Some(lost_at),
        state.last_slot_before_disconnect == Some(last_slot),
        ({
            ||| update matches Some(UpdateOneof::Account(account)) && account.slot == slot
            ||| update matches Some(UpdateOneof::Transaction(transaction)) && transaction.slot == slot
            ||| update matches Some(UpdateOneof::Block(block)) && block.slot == slot
        }),
    ensures
        !state.first_message_after_reconnect ==> {
            &&& report.reconnection is None
            &&& state.after_message(update, arrival).last_disconnect_time == Some(lost_at)
            &&& state.after_message(update, arrival).last_slot_before_disconnect == Some(last_slot)
        },
        state.first_message_after_reconnect ==> {
            &&& report.reconnection matches Some(notice)
            &&& notice.source@ == "yellowstone-grpc"@
            &&& notice.disconnect_time == lost_at
            &&& notice.last_slot_before_disconnect == last_slot
            &&& notice.first_slot_after_reconnect == slot
            &&& slot > last_slot ==> notice.missed_slots + last_slot == slot
            &&& slot <= last_slot ==> notice.missed_slots == 0
        },
        state.first_message_after_reconnect ==> {
            &&& state.after_message(update, arrival).last_disconnect_time is None
            &&& state.after_message(update, arrival).last_slot_before_disconnect is None
        },
        !state.after_message(update, arrival).first_message_after_reconnect,
{
}

/// A gap from end to end: the connection is lost after a slot was delivered, the stream is
/// subscribed to anew, and the first account, transaction or block tells the time of the loss,
/// that slot, its own, and the difference.
pub proof fn law_gap_from_end_to_end(
    state: StreamView,
    delivered_slot: u64,
    lost_at: Timestamp,
    subscribed_at: Timestamp,
    update: Option<UpdateOneof>,
    slot: u64,
    arrival: u64,
    report: MessageReport,
)
    requires
        state.wf(),
        state.last_disconnect_time is None,
        state.after_deliveries(delivered_slot, Ok(()), lost_at).after_event(
            StreamEvent::StreamClosed,
            lost_at,
        ).after_event(StreamEvent::Subscribed, subscribed_at).told(update, arrival, report),
        ({
            ||| update matches Some(UpdateOneof::Account(account)) && account.slot == slot
            ||| update matches Some(UpdateOneof::Transaction(transaction)) && transaction.slot == slot
            ||| update matches Some(UpdateOneof::Block(block)) && block.slot == slot
        }),
        delivered_slot < slot,
    ensures
        report.reconnection matches Some(notice) && {
            &&& notice.disconnect_time == lost_at
            &&& notice.last_slot_before_disconnect == delivered_slot
            &&& notice.first_slot_after_reconnect == slot
            &&& notice.missed_slots == slot - delivered_slot
        },
{
}

/// What a message changes of what is known, beside a gap: a slot message sets the last slot and
/// raises the highest; an account message advances the timing; the last delivered slot stays in
/// any case.
pub proof fn law_message_is_noted(state: StreamView, update: Option<UpdateOneof>, arrival: u64, report: MessageReport)
    requires
        state.told(update, arrival, report),
    ensures
        report.update_type == YellowstoneGrpcUpdateType::type_of(update),
        state.after_message(update, arrival).last_processed_slot == state.last_processed_slot,
        update matches Some(UpdateOneof::Slot(slot)) ==> {
            let after = state.after_message(update, arrival);
            &&& report.last_slot == Some(slot)
            &&& after.last_slot == Some(slot)
            &&& state.highest_slot is None ==> after.highest_slot == Some(slot) && report.slot_progress == Some(slot)
            &&& state.highest_slot matches Some(highest) ==> {
                &&& slot > highest ==> after.highest_slot == Some(slot) && report.slot_progress == Some(slot)
                &&& slot <= highest ==> after.highest_slot == Some(highest) && report.slot_progress is None
            }
            &&& report.arrival is None
            &&& report.reconnection is None
            &&& after.arrivals == state.arrivals
        },
        !(update matches Some(UpdateOneof::Slot(_))) ==> {
            &&& report.last_slot is None
            &&& report.slot_progress is None
            &&& state.after_message(update, arrival).last_slot == state.last_slot
            &&& state.after_message(update, arrival).highest_slot == state.highest_slot
        },
        update matches Some(UpdateOneof::Account(account)) ==> {
            &&& report.arrival == Some(state.arrivals.told(account.slot, arrival))
            &&& state.after_message(update, arrival).arrivals == state.arrivals.advanced(account.slot, arrival)
        },
        !(update matches Some(UpdateOneof::Account(_))) ==> {
            &&& report.arrival is None
            &&& state.after_message(update, arrival).arrivals == state.arrivals
        },
        !state.first_message_after_reconnect ==> {
            &&& report.reconnection is None
            &&& state.after_message(update, arrival).last_disconnect_time == state.last_disconnect_time
            &&& state.after_message(update, arrival).last_slot_before_disconnect == state.last_slot_before_disconnect
            &&& !state.after_message(update, arrival).first_message_after_reconnect
        },
{
}

/// The clock of the account updates: a time difference is in whole microseconds, rounded down.
pub proof fn law_whole_microseconds(from: u64, to: u64)
    requires
        from <= to,
    ensures
        crate::arrivals::elapsed_us(from, to) * 1000 <= to - from < (crate::arrivals::elapsed_us(from, to) + 1) * 1000,
{
}

/// The first account update is counted and its time and slot are noted; there is no time
/// between updates to tell of yet.
pub proof fn law_first_arrival(slot: u64, arrival: u64)
    ensures
        ({
            let fresh = ArrivalTracker::fresh();
            let after = fresh.advanced(slot, arrival);
            let report = fresh.told(slot, arrival);
            &&& fresh.arrival_count == 0
            &&& fresh.last_arrival is None
            &&& fresh.window is None
            &&& fresh.total_delta_us == 0
            &&& after.arrival_count == 1
            &&& after.last_arrival == Some(arrival)
            &&& after.total_delta_us == 0
            &&& after.window matches Some(window)
            &&& window.slot == slot
            &&& window.first_arrival == arrival
            &&& window.last_arrival == arrival
            &&& window.update_count == 1
            &&& report.delta_us is None
            &&& report.intra_slot_delta_us is None
            &&& report.finished_slot is None
            &&& report.summary is None
        }),
{
}

/// Every further account update is counted; the time since the last one is told, added to the
/// total, and held against the least and the greatest so far. The first such time is both.
pub proof fn law_next_arrival(tracker: ArrivalTracker, slot: u64, arrival: u64, last: u64)
    requires
        tracker.wf(),
        tracker.can_take(arrival),
        tracker.last_arrival == Some(last),
    ensures
        ({
            let after = tracker.advanced(slot, arrival);
            &&& tracker.told(slot, arrival).delta_us matches Some(delta)
            &&& delta * 1000 <= arrival - last < (delta + 1) * 1000
            &&& after.arrival_count == tracker.arrival_count + 1
            &&& after.last_arrival == Some(arrival)
            &&& after.total_delta_us == tracker.total_delta_us + delta
            &&& after.min_delta_us <= delta <= after.max_delta_us
            &&& after.min_delta_us <= tracker.min_delta_us
            &&& after.max_delta_us >= tracker.max_delta_us
            &&& after.min_delta_us == delta || after.min_delta_us == tracker.min_delta_us
            &&& after.max_delta_us == delta || after.max_delta_us == tracker.max_delta_us
            &&& tracker.arrival_count == 1 ==> after.min_delta_us == delta && after.max_delta_us == delta
        }),
{
}

/// An account update of the same slot is one more of the slot, and tells the time since the
/// last one of it. One of another slot starts that slot, and tells of the finished one how many
/// updates it had and how long they took.
pub proof fn law_slot_windows(tracker: ArrivalTracker, slot: u64, arrival: u64)
    requires
        tracker.wf(),
        tracker.can_take(arrival),
        tracker.window is Some,
    ensures
        ({
            let window = tracker.window->0;
            let report = tracker.told(slot, arrival);
            let after = tracker.advanced(slot, arrival).window;
            &&& after is Some
            &&& after->0.slot == slot
            &&& after->0.last_arrival == arrival
            &&& window.slot == slot ==> {
                &&& after->0.first_arrival == window.first_arrival
                &&& after->0.update_count == window.update_count + 1
                &&& report.finished_slot is None
                &&& report.intra_slot_delta_us matches Some(delta)
                &&& delta * 1000 <= arrival - window.last_arrival < (delta + 1) * 1000
            }
            &&& window.slot != slot ==> {
                &&& after->0.first_arrival == arrival
                &&& after->0.update_count == 1
                &&& report.intra_slot_delta_us is None
                &&& report.finished_slot matches Some(finished)
                &&& finished.update_count == window.update_count
                &&& finished.span_us * 1000 <= window.last_arrival - window.first_arrival < (finished.span_us + 1)
                    * 1000
            }
        }),
{
    assert(tracker.arrival_count > 0);
}

/// A summary is told with every five thousandth account update, and with no other.
pub proof fn law_summaries_come_from_time_to_time(tracker: ArrivalTracker, slot: u64, arrival: u64)
    requires
        tracker.can_take(arrival),
    ensures
        tracker.told(slot, arrival).summary is Some <==> (tracker.arrival_count + 1) % 5000 == 0,
        tracker.told(slot, arrival).summary matches Some(summary) ==> summary == tracker.advanced(
            slot,
            arrival,
        ).summarized(),
{
}

/// A summary counts the updates, and tells the least, the greatest and the average time between
/// them: the total over the number of times, rounded down.
pub proof fn law_summary(tracker: ArrivalTracker)
    requires
        tracker.arrival_count > 1,
    ensures
        tracker.summarized().count == tracker.arrival_count,
        tracker.summarized().min_delta_us == tracker.min_delta_us,
        tracker.summarized().max_delta_us == tracker.max_delta_us,
        tracker.summarized().avg_delta_us * (tracker.arrival_count - 1) <= tracker.total_delta_us,
        tracker.total_delta_us < (tracker.summarized().avg_delta_us + 1) * (tracker.arrival_count - 1),
{
    let gaps = tracker.arrival_count - 1;
    let total = tracker.total_delta_us as int;
    vstd::arithmetic::div_mod::lemma_fundamental_div_mod(total, gaps);
    assert(0 <= total % gaps < gaps);
    assert(0 <= total / gaps <= total) by (nonlinear_arith)
        requires
            gaps >= 1,
            total >= 0,
    ;
    assert((total / gaps) * gaps == gaps * (total / gaps)) by (nonlinear_arith);
    assert((total / gaps + 1) * gaps == (total / gaps) * gaps + gaps) by (nonlinear_arith);
}

/// An account update can be taken exactly if it does not come before the last one, and the
/// updates can still be counted.
pub proof fn law_clock_does_not_run_backwards(tracker: ArrivalTracker, arrival: u64)
    ensures
        tracker.last_arrival is None ==> (tracker.can_take(arrival) <==> tracker.arrival_count < u64::MAX),
        tracker.last_arrival matches Some(last) ==> (tracker.can_take(arrival) <==> last <= arrival
            && tracker.arrival_count < u64::MAX),
{
}

} // verus!
