//! The steps of a stream, over its state before and after.
use crate::arrivals::ArrivalTracker;
use crate::output::AuthoritativeOutputError;
use crate::proto::{SubscribeUpdateBlock, SubscribeUpdateTransactionInfo, UpdateOneof};
use crate::stream::{
    Batch, BatchStep, Delivery, MessageReport, MessageStep, NextStep, Reaction, StreamEvent, StreamState,
    YellowstoneGrpcUpdateType,
};
use crate::updates::Timestamp;
use vstd::prelude::*;

verus! {

/// With failed transactions left out, a block delivers, in order, exactly those of its
/// transactions whose status is there and has no error, whatever their other fields, and then
/// all of its accounts, in order.
pub proof fn law_message_step_leaves_failed_transactions_out(block: SubscribeUpdateBlock, step: MessageStep)
    requires
        call_ensures(crate::stream::message_step, (Some(UpdateOneof::Block(block)), false), step),
    ensures
        step matches MessageStep::Deliver { slot, deliveries } && {
            let block_time = match block.block_time {
                Some(time) => Some(time.timestamp),
                None => None,
            };
            let succeeded = block.transactions@.filter(
                |info: SubscribeUpdateTransactionInfo| info.meta is Some && info.meta->0.err is None,
            );
            &&& slot == block.slot
            &&& deliveries@.len() == succeeded.len() + block.accounts@.len()
            &&& forall|i: int|
                0 <= i < succeeded.len() ==> #[trigger] deliveries@[i] == Delivery::Transaction(
                    Some(succeeded[i]),
                    block_time,
                )
            &&& forall|i: int|
                0 <= i < block.accounts@.len() ==> #[trigger] deliveries@[succeeded.len() + i] == Delivery::Account(
                    Some(block.accounts@[i]),
                )
        },
{
    crate::laws::streams::law_block_delivers_succeeded_transactions(block, step);
}

/// With failed transactions kept, a block delivers all of its transactions and then all of its
/// accounts, in order.
pub proof fn law_message_step_keeps_failed_transactions(block: SubscribeUpdateBlock, step: MessageStep)
    requires
        call_ensures(crate::stream::message_step, (Some(UpdateOneof::Block(block)), true), step),
    ensures
        step matches MessageStep::Deliver { slot, deliveries } && {
            let block_time = match block.block_time {
                Some(time) => Some(time.timestamp),
                None => None,
            };
            &&& slot == block.slot
            &&& deliveries@.len() == block.transactions@.len() + block.accounts@.len()
            &&& forall|i: int|
                0 <= i < block.transactions@.len() ==> #[trigger] deliveries@[i] == Delivery::Transaction(
                    Some(block.transactions@[i]),
                    block_time,
                )
            &&& forall|i: int|
                0 <= i < block.accounts@.len() ==> #[trigger] deliveries@[block.transactions@.len() + i]
                    == Delivery::Account(Some(block.accounts@[i]))
        },
{
    crate::laws::streams::law_block_delivers_all_transactions(block, step);
}

/// What every other message asks for: an account or a transaction is delivered alone, a ping is
/// answered, and the rest asks for nothing.
pub proof fn law_message_step(update: Option<UpdateOneof>, retain_failed: bool, step: MessageStep)
    requires
        call_ensures(crate::stream::message_step, (update, retain_failed), step),
    ensures
        update matches Some(UpdateOneof::Account(account)) ==> (step matches MessageStep::Deliver { slot, deliveries } && {
            &&& slot == account.slot
            &&& deliveries@.len() == 1
            &&& deliveries@[0] == Delivery::Account(account.account)
        }),
        update matches Some(UpdateOneof::Transaction(transaction)) ==> (step matches MessageStep::Deliver {
            slot,
            deliveries,
        } && {
            &&& slot == transaction.slot
            &&& deliveries@.len() == 1
            &&& deliveries@[0] == Delivery::Transaction(transaction.transaction, None)
        }),
        update matches Some(UpdateOneof::Ping) ==> step == (MessageStep::AnswerPing { id: 1 }),
        step is AnswerPing ==> update matches Some(UpdateOneof::Ping),
        step is Deliver <==> (update matches Some(inner) && (inner is Account || inner is Transaction
            || inner is Block)),
{
    crate::laws::streams::law_single_messages(update, retain_failed, step);
}

/// The kind of a message, and its label.
pub proof fn law_kind_of_message(update: &Option<UpdateOneof>, kind: YellowstoneGrpcUpdateType, label: &'static str)
    requires
        call_ensures(YellowstoneGrpcUpdateType::from_update, (update,), kind),
        call_ensures(YellowstoneGrpcUpdateType::as_label, (kind,), label),
    ensures
        *update is None ==> label == "other",
        *update matches Some(inner) ==> {
            &&& inner is Account ==> label == "account"
            &&& inner is Slot ==> label == "slot"
            &&& inner is Transaction ==> label == "transaction"
            &&& inner is TransactionStatus ==> label == "transaction_status"
            &&& inner is Block ==> label == "block"
            &&& inner is Ping ==> label == "ping"
            &&& inner is Pong ==> label == "pong"
            &&& inner is BlockMeta ==> label == "block_meta"
            &&& inner is Entry ==> label == "entry"
        },
{
}

/// Before its first connection nothing is known of a stream.
pub proof fn law_new_stream(r: StreamState)
    requires
        call_ensures(StreamState::new, (), r),
    ensures
        r@.last_disconnect_time is None,
        r@.last_slot_before_disconnect is None,
        r@.last_processed_slot == 0,
        !r@.first_message_after_reconnect,
        r@.last_slot is None,
        r@.highest_slot is None,
        r@.arrivals.arrival_count == 0,
        r@.arrivals.last_arrival is None,
        r@.arrivals.window is None,
        r@.arrivals.total_delta_us == 0,
{
}

/// A lost connection: the first loss notes the time and the last delivered slot, and tells the
/// slot; a later one changes and tells nothing. The stream is subscribed to anew in any case.
pub proof fn law_on_loss(stream: &mut StreamState, event: StreamEvent, now: Timestamp, r: Reaction)
    requires
        call_ensures(StreamState::on_event, (stream, event, now), r),
        event == StreamEvent::SubscribeFailed || event == StreamEvent::StreamClosed || event == StreamEvent::TimedOut
            || event == StreamEvent::StreamFailed,
    ensures
        r.next == NextStep::Subscribe,
        !r.connected,
        r.summary is None,
        old(stream)@.last_disconnect_time is None ==> {
            &&& r.disconnected_at == Some(old(stream)@.last_processed_slot)
            &&& final(stream)@.last_disconnect_time == Some(now)
            &&& final(stream)@.last_slot_before_disconnect == Some(old(stream)@.last_processed_slot)
        },
        old(stream)@.last_disconnect_time is Some ==> {
            &&& r.disconnected_at is None
            &&& final(stream)@.last_disconnect_time == old(stream)@.last_disconnect_time
            &&& final(stream)@.last_slot_before_disconnect == old(stream)@.last_slot_before_disconnect
        },
        final(stream)@.last_processed_slot == old(stream)@.last_processed_slot,
        final(stream)@.first_message_after_reconnect == old(stream)@.first_message_after_reconnect,
        final(stream)@.last_slot == old(stream)@.last_slot,
        final(stream)@.highest_slot == old(stream)@.highest_slot,
        final(stream)@.arrivals == old(stream)@.arrivals,
{
    crate::laws::streams::law_losses(old(stream)@, event, now);
}

/// A new subscription: the stream waits for messages, and for a first slot exactly if a loss is
/// still to be told.
pub proof fn law_on_subscribed(stream: &mut StreamState, now: Timestamp, r: Reaction)
    requires
        call_ensures(StreamState::on_event, (stream, StreamEvent::Subscribed, now), r),
    ensures
        r.next == NextStep::Receive,
        r.connected,
        r.disconnected_at is None,
        r.summary is None,
        final(stream)@.first_message_after_reconnect <==> old(stream)@.last_disconnect_time is Some,
        final(stream)@.last_disconnect_time == old(stream)@.last_disconnect_time,
        final(stream)@.last_slot_before_disconnect == old(stream)@.last_slot_before_disconnect,
        final(stream)@.last_processed_slot == old(stream)@.last_processed_slot,
        final(stream)@.last_slot == old(stream)@.last_slot,
        final(stream)@.highest_slot == old(stream)@.highest_slot,
        final(stream)@.arrivals == old(stream)@.arrivals,
{
    crate::laws::streams::law_subscription(old(stream)@, now);
}

/// The other events change nothing of what is known. The end of the datasource stops it, and
/// tells the timing of the account updates if at least two came; a cancelled generation and a
/// ping that could not be answered make it subscribe anew.
pub proof fn law_on_other_events(stream: &mut StreamState, event: StreamEvent, now: Timestamp, r: Reaction)
    requires
        call_ensures(StreamState::on_event, (stream, event, now), r),
        event == StreamEvent::Cancelled || event == StreamEvent::GenerationCancelled || event
            == StreamEvent::PingFailed,
    ensures
        final(stream)@ == old(stream)@,
        !r.connected,
        r.disconnected_at is None,
        event == StreamEvent::Cancelled ==> r.next == NextStep::Stop,
        event != StreamEvent::Cancelled ==> r.next == NextStep::Subscribe,
        r.summary is Some <==> event == StreamEvent::Cancelled && old(stream)@.arrivals.arrival_count > 1,
        r.summary matches Some(summary) ==> {
            &&& summary.count == old(stream)@.arrivals.arrival_count
            &&& summary.min_delta_us == old(stream)@.arrivals.min_delta_us
            &&& summary.max_delta_us == old(stream)@.arrivals.max_delta_us
            &&& summary.avg_delta_us * (summary.count - 1) <= old(stream)@.arrivals.total_delta_us
                < (summary.avg_delta_us + 1) * (summary.count - 1)
        },
{
    if event == StreamEvent::Cancelled {
        crate::laws::streams::law_cancellation(old(stream)@, now);
        if old(stream)@.arrivals.arrival_count > 1 {
            crate::laws::streams::law_summary(old(stream)@.arrivals);
        }
    } else {
        crate::laws::streams::law_generation_end(old(stream)@, event, now);
    }
}

/// A lost update is a lost connection.
pub proof fn law_on_output_failure(stream: &mut StreamState, now: Timestamp, r: Reaction)
    requires
        call_ensures(StreamState::record_authoritative_output_failure, (stream, now), r),
    ensures
        r.next == NextStep::Subscribe,
        !r.connected,
        r.summary is None,
        old(stream)@.last_disconnect_time is None ==> {
            &&& r.disconnected_at == Some(old(stream)@.last_processed_slot)
            &&& final(stream)@.last_disconnect_time == Some(now)
            &&& final(stream)@.last_slot_before_disconnect == Some(old(stream)@.last_processed_slot)
        },
        old(stream)@.last_disconnect_time is Some ==> r.disconnected_at is None && final(stream)@ == old(stream)@,
        final(stream)@.last_processed_slot == old(stream)@.last_processed_slot,
        final(stream)@.first_message_after_reconnect == old(stream)@.first_message_after_reconnect,
        final(stream)@.last_slot == old(stream)@.last_slot,
        final(stream)@.highest_slot == old(stream)@.highest_slot,
        final(stream)@.arrivals == old(stream)@.arrivals,
{
    crate::laws::streams::law_recorded_loss(old(stream)@, now);
}

/// A message that was delivered whole moves the last delivered slot, and nothing else; one of
/// which something was lost leaves it, and is a lost connection.
pub proof fn law_on_deliveries(
    stream: &mut StreamState,
    slot: u64,
    outcome: &Result<(), AuthoritativeOutputError>,
    now: Timestamp,
    r: Reaction,
)
    requires
        call_ensures(StreamState::on_deliveries, (stream, slot, outcome, now), r),
    ensures
        *outcome is Ok ==> {
            &&& r.next == NextStep::Receive
            &&& r.connected
            &&& r.disconnected_at is None
            &&& r.summary is None
            &&& final(stream)@.last_processed_slot == slot
            &&& final(stream)@.last_disconnect_time == old(stream)@.last_disconnect_time
            &&& final(stream)@.last_slot_before_disconnect == old(stream)@.last_slot_before_disconnect
        },
        *outcome is Err ==> {
            &&& r.next == NextStep::Subscribe
            &&& !r.connected
            &&& r.summary is None
            &&& final(stream)@.last_processed_slot == old(stream)@.last_processed_slot
            &&& old(stream)@.last_disconnect_time is None ==> {
                &&& r.disconnected_at == Some(old(stream)@.last_processed_slot)
                &&& final(stream)@.last_disconnect_time == Some(now)
                &&& final(stream)@.last_slot_before_disconnect == Some(old(stream)@.last_processed_slot)
            }
            &&& old(stream)@.last_disconnect_time is Some ==> {
                &&& r.disconnected_at is None
                &&& final(stream)@.last_disconnect_time == old(stream)@.last_disconnect_time
                &&& final(stream)@.last_slot_before_disconnect == old(stream)@.last_slot_before_disconnect
            }
        },
        final(stream)@.first_message_after_reconnect == old(stream)@.first_message_after_reconnect,
        final(stream)@.last_slot == old(stream)@.last_slot,
        final(stream)@.highest_slot == old(stream)@.highest_slot,
        final(stream)@.arrivals == old(stream)@.arrivals,
{
    if let Err(error) = outcome {
        crate::laws::streams::law_deliveries(old(stream)@, slot, *error, now);
    }
}

/// A batch holds the deliveries of its message, in order, under its slot.
pub proof fn law_new_batch(slot: u64, deliveries: Vec<Delivery>, r: Batch, told: u64)
    requires
        call_ensures(Batch::new, (slot, deliveries), r),
        call_ensures(Batch::slot, (&r,), told),
    ensures
        r@.len() == deliveries@.len(),
        forall|i: int| 0 <= i < deliveries@.len() ==> #[trigger] r@[i] == deliveries@[i],
        told == slot,
{
}

/// The deliveries of a message go on in order, one at a time, until one is lost or none is left;
/// nothing of the stream changes before that. At the end its slot counts as delivered if nothing
/// was lost, and else the connection is lost.
pub proof fn law_next_delivery(
    stream: &mut StreamState,
    batch: &mut Batch,
    last: &Result<(), AuthoritativeOutputError>,
    now: Timestamp,
    r: BatchStep,
)
    requires
        call_ensures(StreamState::next_delivery, (stream, batch, last, now), r),
    ensures
        r is Deliver <==> *last is Ok && old(batch)@.len() > 0,
        r matches BatchStep::Deliver(delivery) ==> {
            &&& delivery == old(batch)@[0]
            &&& final(batch)@.len() == old(batch)@.len() - 1
            &&& forall|i: int| 0 <= i < final(batch)@.len() ==> #[trigger] final(batch)@[i] == old(batch)@[i + 1]
            &&& final(stream)@ == old(stream)@
        },
        r matches BatchStep::Done(reaction) ==> {
            &&& *last is Ok ==> {
                &&& reaction.next == NextStep::Receive
                &&& reaction.connected
                &&& final(stream)@.last_processed_slot == old(batch).slot_of()
                &&& final(stream)@.last_disconnect_time == old(stream)@.last_disconnect_time
            }
            &&& *last is Err ==> {
                &&& reaction.next == NextStep::Subscribe
                &&& !reaction.connected
                &&& final(stream)@.last_processed_slot == old(stream)@.last_processed_slot
                &&& final(stream)@.last_disconnect_time is Some
                &&& old(stream)@.last_disconnect_time is None ==> final(stream)@.last_slot_before_disconnect == Some(
                    old(stream)@.last_processed_slot,
                )
            }
        },
        final(batch).slot_of() == old(batch).slot_of(),
{
}

/// The first account, transaction or block after the connection is back brings the notice of
/// the gap, with the time of the loss, the last slot before it, its own slot, and how many slots
/// lie from the one to the other; it forgets the loss. Any other message brings no notice.
pub proof fn law_on_message_tells_the_gap(
    stream: &mut StreamState,
    update: &Option<UpdateOneof>,
    arrival: u64,
    r: MessageReport,
)
    requires
        call_ensures(StreamState::on_message, (stream, update, arrival), r),
        old(stream)@.wf(),
    ensures
        r.reconnection is Some <==> old(stream)@.first_message_after_reconnect && (*update matches Some(inner) && (
        inner is Account || inner is Transaction || inner is Block)),
        r.reconnection matches Some(notice) ==> {
            &&& notice.source@ == "yellowstone-grpc"@
            &&& old(stream)@.last_disconnect_time == Some(notice.disconnect_time)
            &&& old(stream)@.last_slot_before_disconnect == Some(notice.last_slot_before_disconnect)
            &&& *update matches Some(UpdateOneof::Account(account)) ==> notice.first_slot_after_reconnect
                == account.slot
            &&& *update matches Some(UpdateOneof::Transaction(transaction)) ==> notice.first_slot_after_reconnect
                == transaction.slot
            &&& *update matches Some(UpdateOneof::Block(block)) ==> notice.first_slot_after_reconnect == block.slot
            &&& notice.first_slot_after_reconnect > notice.last_slot_before_disconnect ==> notice.missed_slots
                == notice.first_slot_after_reconnect - notice.last_slot_before_disconnect
            &&& notice.first_slot_after_reconnect <= notice.last_slot_before_disconnect ==> notice.missed_slots == 0
            &&& final(stream)@.last_disconnect_time is None
            &&& final(stream)@.last_slot_before_disconnect is None
            &&& !final(stream)@.first_message_after_reconnect
        },
        r.reconnection is None ==> {
            &&& final(stream)@.last_disconnect_time == old(stream)@.last_disconnect_time
            &&& final(stream)@.last_slot_before_disconnect == old(stream)@.last_slot_before_disconnect
            &&& final(stream)@.first_message_after_reconnect == old(stream)@.first_message_after_reconnect
        },
{
    crate::laws::streams::law_workload_slots(*update);
}

/// What else a message changes and tells: a slot message sets the last slot, and raises and
/// tells the highest where it is higher; an account message advances the timing and tells it;
/// the last delivered slot stays in any case.
pub proof fn law_on_message(stream: &mut StreamState, update: &Option<UpdateOneof>, arrival: u64, r: MessageReport)
    requires
        call_ensures(StreamState::on_message, (stream, update, arrival), r),
    ensures
        r.update_type == YellowstoneGrpcUpdateType::type_of(*update),
        final(stream)@.last_processed_slot == old(stream)@.last_processed_slot,
        *update matches Some(UpdateOneof::Slot(slot)) ==> {
            &&& r.last_slot == Some(slot)
            &&& final(stream)@.last_slot == Some(slot)
            &&& old(stream)@.highest_slot is None ==> final(stream)@.highest_slot == Some(slot) && r.slot_progress
                == Some(slot)
            &&& old(stream)@.highest_slot matches Some(highest) ==> {
                &&& slot > highest ==> final(stream)@.highest_slot == Some(slot) && r.slot_progress == Some(slot)
                &&& slot <= highest ==> final(stream)@.highest_slot == Some(highest) && r.slot_progress is None
            }
        },
        !(*update matches Some(UpdateOneof::Slot(_))) ==> {
            &&& r.last_slot is None
            &&& r.slot_progress is None
            &&& final(stream)@.last_slot == old(stream)@.last_slot
            &&& final(stream)@.highest_slot == old(stream)@.highest_slot
        },
        *update matches Some(UpdateOneof::Account(account)) ==> {
            &&& r.arrival == Some(old(stream)@.arrivals.told(account.slot, arrival))
            &&& final(stream)@.arrivals == old(stream)@.arrivals.advanced(account.slot, arrival)
        },
        !(*update matches Some(UpdateOneof::Account(_))) ==> r.arrival is None && final(stream)@.arrivals == old(stream)@.arrivals,
{
    crate::laws::streams::law_message_is_noted(old(stream)@, *update, arrival, r);
}

/// The timing of an account update, from the stream before to the stream after: it is counted,
/// the time since the last one is told and added, and its slot is the current one.
pub proof fn law_on_account_message(
    stream: &mut StreamState,
    update: &Option<UpdateOneof>,
    slot: u64,
    arrival: u64,
    r: MessageReport,
)
    requires
        call_ensures(StreamState::on_message, (stream, update, arrival), r),
        *update matches Some(UpdateOneof::Account(account)) && account.slot == slot,
        old(stream)@.arrivals.wf(),
        old(stream)@.arrivals.can_take(arrival),
    ensures
        ({
            let before: ArrivalTracker = old(stream)@.arrivals;
            let after: ArrivalTracker = final(stream)@.arrivals;
            &&& after.arrival_count == before.arrival_count + 1
            &&& after.last_arrival == Some(arrival)
            &&& after.window matches Some(window)
            &&& window.slot == slot
            &&& window.last_arrival == arrival
            &&& r.arrival matches Some(report)
            &&& before.last_arrival is None ==> report.delta_us is None
            &&& before.last_arrival matches Some(last) ==> {
                &&& report.delta_us matches Some(delta)
                &&& delta * 1000 <= arrival - last < (delta + 1) * 1000
                &&& after.total_delta_us == before.total_delta_us + delta
                &&& after.min_delta_us <= delta <= after.max_delta_us
            }
            &&& report.summary is Some <==> after.arrival_count % 5000 == 0
        }),
{
    let before: ArrivalTracker = old(stream)@.arrivals;
    crate::laws::streams::law_message_is_noted(old(stream)@, *update, arrival, r);
    crate::laws::streams::law_summaries_come_from_time_to_time(before, slot, arrival);
    if let Some(last) = before.last_arrival {
        crate::laws::streams::law_next_arrival(before, slot, arrival, last);
        crate::laws::streams::law_slot_windows(before, slot, arrival);
    } else {
        crate::laws::streams::law_first_arrival(slot, arrival);
    }
}

/// What is known of a stream can be looked at.
pub proof fn law_snapshot(stream: &StreamState, r: crate::stream::StreamView)
    requires
        call_ensures(StreamState::snapshot, (stream,), r),
    ensures
        r == stream@,
        r.last_disconnect_time is Some <==> r.last_slot_before_disconnect is Some,
        r.first_message_after_reconnect ==> r.last_disconnect_time is Some,
{
}

/// An account update can be taken exactly if the clock did not run backwards and the updates
/// can still be counted.
pub proof fn law_can_take(stream: &StreamState, arrival: u64, r: bool)
    requires
        call_ensures(StreamState::can_take, (stream, arrival), r),
    ensures
        r <==> stream@.arrivals.arrival_count < u64::MAX && (stream@.arrivals.last_arrival matches Some(last) ==> last
            <= arrival),
{
}

} // verus!
