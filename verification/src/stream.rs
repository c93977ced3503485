//! The life of a Yellowstone stream: connections, their loss, and the messages in between.
use crate::arrivals::{ArrivalReport, ArrivalSummary, ArrivalTracker};
use crate::output::AuthoritativeOutputError;
use crate::proto::{SubscribeUpdateAccountInfo, SubscribeUpdateTransactionInfo, UpdateOneof};
use crate::updates::{DatasourceDisconnection, Timestamp};
use std::collections::VecDeque;
use vstd::prelude::*;

verus! {

/// The name of the source in the notices of lost connections.
pub const DISCONNECTION_SOURCE: &'static str = "yellowstone-grpc";

/// The number that the answer to a ping carries.
pub const PING_ID: i32 = 1;

/// The kinds of message.
#[derive(Debug, Clone, Copy, PartialEq, Eq, Structural)]
pub enum YellowstoneGrpcUpdateType {
    Account,
    Slot,
    Transaction,
    TransactionStatus,
    Block,
    Ping,
    Pong,
    BlockMeta,
    Entry,
    Other,
}

impl YellowstoneGrpcUpdateType {
    /// The kind of a message.
    pub open spec fn type_of(update: Option<UpdateOneof>) -> YellowstoneGrpcUpdateType {
        match update {
            Some(UpdateOneof::Account(_)) => YellowstoneGrpcUpdateType::Account,
            Some(UpdateOneof::Slot(_)) => YellowstoneGrpcUpdateType::Slot,
            Some(UpdateOneof::Transaction(_)) => YellowstoneGrpcUpdateType::Transaction,
            Some(UpdateOneof::TransactionStatus) => YellowstoneGrpcUpdateType::TransactionStatus,
            Some(UpdateOneof::Block(_)) => YellowstoneGrpcUpdateType::Block,
            Some(UpdateOneof::Ping) => YellowstoneGrpcUpdateType::Ping,
            Some(UpdateOneof::Pong) => YellowstoneGrpcUpdateType::Pong,
            Some(UpdateOneof::BlockMeta) => YellowstoneGrpcUpdateType::BlockMeta,
            Some(UpdateOneof::Entry) => YellowstoneGrpcUpdateType::Entry,
            None => YellowstoneGrpcUpdateType::Other,
        }
    }

    /// The label of the kind.
    pub open spec fn label(&self) -> &'static str {
        match self {
            YellowstoneGrpcUpdateType::Account => "account",
            YellowstoneGrpcUpdateType::Slot => "slot",
            YellowstoneGrpcUpdateType::Transaction => "transaction",
            YellowstoneGrpcUpdateType::TransactionStatus => "transaction_status",
            YellowstoneGrpcUpdateType::Block => "block",
            YellowstoneGrpcUpdateType::Ping => "ping",
            YellowstoneGrpcUpdateType::Pong => "pong",
            YellowstoneGrpcUpdateType::BlockMeta => "block_meta",
            YellowstoneGrpcUpdateType::Entry => "entry",
            YellowstoneGrpcUpdateType::Other => "other",
        }
    }

    /// The kind of a message.
    pub fn from_update(update: &Option<UpdateOneof>) -> (r: Self)
        ensures
            r == YellowstoneGrpcUpdateType::type_of(*update),
    {
        match update {
            Some(UpdateOneof::Account(_)) => YellowstoneGrpcUpdateType::Account,
            Some(UpdateOneof::Slot(_)) => YellowstoneGrpcUpdateType::Slot,
            Some(UpdateOneof::Transaction(_)) => YellowstoneGrpcUpdateType::Transaction,
            Some(UpdateOneof::TransactionStatus) => YellowstoneGrpcUpdateType::TransactionStatus,
            Some(UpdateOneof::Block(_)) => YellowstoneGrpcUpdateType::Block,
            Some(UpdateOneof::Ping) => YellowstoneGrpcUpdateType::Ping,
            Some(UpdateOneof::Pong) => YellowstoneGrpcUpdateType::Pong,
            Some(UpdateOneof::BlockMeta) => YellowstoneGrpcUpdateType::BlockMeta,
            Some(UpdateOneof::Entry) => YellowstoneGrpcUpdateType::Entry,
            None => YellowstoneGrpcUpdateType::Other,
        }
    }

    /// The label of the kind.
    pub fn as_label(self) -> (r: &'static str)
        ensures
            r == self.label(),
    {
        match self {
            YellowstoneGrpcUpdateType::Account => "account",
            YellowstoneGrpcUpdateType::Slot => "slot",
            YellowstoneGrpcUpdateType::Transaction => "transaction",
            YellowstoneGrpcUpdateType::TransactionStatus => "transaction_status",
            YellowstoneGrpcUpdateType::Block => "block",
            YellowstoneGrpcUpdateType::Ping => "ping",
            YellowstoneGrpcUpdateType::Pong => "pong",
            YellowstoneGrpcUpdateType::BlockMeta => "block_meta",
            YellowstoneGrpcUpdateType::Entry => "entry",
            YellowstoneGrpcUpdateType::Other => "other",
        }
    }
}

/// The slot of a message that brings accounts or transactions.
pub open spec fn workload_slot(update: Option<UpdateOneof>) -> Option<u64> {
    match update {
        Some(UpdateOneof::Account(update)) => Some(update.slot),
        Some(UpdateOneof::Transaction(update)) => Some(update.slot),
        Some(UpdateOneof::Block(update)) => Some(update.slot),
        _ => None,
    }
}

/// What is known of a stream.
#[derive(Debug, Clone, Copy, PartialEq, Eq, Structural)]
pub struct StreamView {
    /// When the connection was lost, until the notice of it is out.
    pub last_disconnect_time: Option<Timestamp>,
    /// The last slot that was delivered before the connection was lost.
    pub last_slot_before_disconnect: Option<u64>,
    /// The last slot that was delivered.
    pub last_processed_slot: u64,
    /// No slot came yet since the connection is back.
    pub first_message_after_reconnect: bool,
    /// The last slot that the source told of.
    pub last_slot: Option<u64>,
    /// The highest slot that the source told of.
    pub highest_slot: Option<u64>,
    pub arrivals: ArrivalTracker,
}

/// The state of a stream.
#[derive(Debug)]
pub struct StreamState {
    known: StreamView,
}

impl View for StreamState {
    type V = StreamView;

    closed spec fn view(&self) -> StreamView {
        self.known
    }
}

/// What can befall a stream, beside a message.
#[derive(Debug, Clone, Copy, PartialEq, Eq, Structural)]
pub enum StreamEvent {
    /// The datasource was cancelled while it was not connected.
    Cancelled,
    /// The datasource was cancelled while it was connected.
    GenerationCancelled,
    Subscribed,
    SubscribeFailed,
    StreamClosed,
    TimedOut,
    StreamFailed,
    /// The answer to a ping could not be sent.
    PingFailed,
}

/// What is to be done next.
#[derive(Debug, Clone, Copy, PartialEq, Eq, Structural)]
pub enum NextStep {
    /// Subscribe, unless the datasource is cancelled first.
    Subscribe,
    /// Wait for the next message.
    Receive,
    /// Stop.
    Stop,
}

/// What is to be done after an event.
#[derive(Debug, Clone, Copy, PartialEq, Eq, Structural)]
pub struct Reaction {
    pub next: NextStep,
    /// Whether the datasource is connected now.
    pub connected: bool,
    /// The slot at which the connection was lost, if this event is the first to tell of it.
    pub disconnected_at: Option<u64>,
    /// The timing of the account updates, at the end of the datasource.
    pub summary: Option<ArrivalSummary>,
}

/// What a message tells, apart from its contents.
#[derive(Debug, PartialEq, Eq)]
pub struct MessageReport {
    pub update_type: YellowstoneGrpcUpdateType,
    /// The gap in the stream that this message ends.
    pub reconnection: Option<DatasourceDisconnection>,
    /// The slot that the source tells of.
    pub last_slot: Option<u64>,
    /// The highest slot of the source, if this message raises it.
    pub slot_progress: Option<u64>,
    /// The timing of an account update.
    pub arrival: Option<ArrivalReport>,
}

/// An account or a transaction of a message.
#[derive(Debug, PartialEq)]
pub enum Delivery {
    Account(Option<SubscribeUpdateAccountInfo>),
    Transaction(Option<SubscribeUpdateTransactionInfo>, Option<i64>),
}

/// What is to be done with a message.
#[derive(Debug, PartialEq)]
pub enum MessageStep {
    /// The accounts and transactions are delivered in order.
    Deliver { slot: u64, deliveries: Vec<Delivery> },
    /// The ping is answered.
    AnswerPing { id: i32 },
    Nothing,
}

/// The accounts and transactions of a message that are still to be delivered.
#[derive(Debug)]
pub struct Batch {
    slot: u64,
    rest: VecDeque<Delivery>,
}

impl View for Batch {
    type V = Seq<Delivery>;

    closed spec fn view(&self) -> Seq<Delivery> {
        self.rest@
    }
}

impl Batch {
    /// The slot of the message.
    pub closed spec fn slot_of(&self) -> u64 {
        self.slot
    }

    /// All the accounts and transactions of a message are still to be delivered.
    pub fn new(slot: u64, deliveries: Vec<Delivery>) -> (r: Self)
        ensures
            r@ == deliveries@,
            r.slot_of() == slot,
    {
        let mut rest: VecDeque<Delivery> = VecDeque::new();
        for delivery in it: deliveries
            invariant
                it.seq() == deliveries@,
                rest@ == deliveries@.take(it.index()),
        {
            assert(delivery == deliveries@[it.index()]);
            rest.push_back(delivery);
            assert(rest@ =~= deliveries@.take(it.index() + 1));
        }
        assert(deliveries@.take(deliveries@.len() as int) =~= deliveries@);
        Batch { slot, rest }
    }

    /// The slot of the message.
    pub fn slot(&self) -> (r: u64)
        ensures
            r == self.slot_of(),
    {
        self.slot
    }
}

/// What is to be done next with a message.
#[derive(Debug, PartialEq)]
pub enum BatchStep {
    Deliver(Delivery),
    Done(Reaction),
}

/// Whether a transaction of a block is kept.
pub open spec fn keeps_transaction(retain_failed: bool, info: SubscribeUpdateTransactionInfo) -> bool {
    retain_failed || (info.meta is Some && info.meta->0.err is None)
}

/// The transactions of a block that are kept, in order.
pub open spec fn kept_transactions(
    retain_failed: bool,
    transactions: Seq<SubscribeUpdateTransactionInfo>,
    block_time: Option<i64>,
) -> Seq<Delivery>
    decreases transactions.len(),
{
    if transactions.len() == 0 {
        Seq::empty()
    } else {
        let rest = kept_transactions(retain_failed, transactions.drop_last(), block_time);
        if keeps_transaction(retain_failed, transactions.last()) {
            rest.push(Delivery::Transaction(Some(transactions.last()), block_time))
        } else {
            rest
        }
    }
}

/// What is to be done with a message: the transactions of a block that are kept come before
/// its accounts.
pub open spec fn step_matches(update: Option<UpdateOneof>, retain_failed: bool, step: MessageStep) -> bool {
    match update {
        Some(UpdateOneof::Account(update)) => {
            &&& step matches MessageStep::Deliver { slot, deliveries }
            &&& slot == update.slot
            &&& deliveries@ == seq![Delivery::Account(update.account)]
        },
        Some(UpdateOneof::Transaction(update)) => {
            &&& step matches MessageStep::Deliver { slot, deliveries }
            &&& slot == update.slot
            &&& deliveries@ == seq![Delivery::Transaction(update.transaction, None)]
        },
        Some(UpdateOneof::Block(block)) => {
            let block_time = match block.block_time {
                Some(time) => Some(time.timestamp),
                None => None,
            };
            &&& step matches MessageStep::Deliver { slot, deliveries }
            &&& slot == block.slot
            &&& deliveries@ == kept_transactions(retain_failed, block.transactions@, block_time) + Seq::new(
                block.accounts@.len(),
                |i: int| Delivery::Account(Some(block.accounts@[i])),
            )
        },
        Some(UpdateOneof::Ping) => step == (MessageStep::AnswerPing { id: PING_ID }),
        _ => step is Nothing,
    }
}

/// What is to be done with a message.
pub fn message_step(update: Option<UpdateOneof>, retain_block_failed_transactions: bool) -> (r: MessageStep)
    ensures
        step_matches(update, retain_block_failed_transactions, r),
{
    match update {
        Some(UpdateOneof::Account(update)) => {
            let deliveries: Vec<Delivery> = vec![Delivery::Account(update.account)];
            assert(deliveries@ =~= seq![Delivery::Account(update.account)]);
            MessageStep::Deliver { slot: update.slot, deliveries }
        },
        Some(UpdateOneof::Transaction(update)) => {
            let deliveries: Vec<Delivery> = vec![Delivery::Transaction(update.transaction, None)];
            assert(deliveries@ =~= seq![Delivery::Transaction(update.transaction, None)]);
            MessageStep::Deliver { slot: update.slot, deliveries }
        },
        Some(UpdateOneof::Block(block)) => {
            let block_time: Option<i64> = match block.block_time {
                Some(time) => Some(time.timestamp),
                None => None,
            };
            let mut deliveries: Vec<Delivery> = Vec::new();
            let ghost transactions = block.transactions@;
            let ghost accounts = block.accounts@;
            assert(transactions.take(0) =~= Seq::empty());
            for transaction in it: block.transactions
                invariant
                    it.seq() == transactions,
                    deliveries@ == kept_transactions(
                        retain_block_failed_transactions,
                        transactions.take(it.index()),
                        block_time,
                    ),
            {
                let ghost i = it.index();
                assert(transaction == transactions[i]);
                assert(transactions.take(i + 1).drop_last() =~= transactions.take(i));
                assert(transactions.take(i + 1).last() == transactions[i]);
                let keep = retain_block_failed_transactions || match &transaction.meta {
                    Some(meta) => meta.err.is_none(),
                    None => false,
                };
                if keep {
                    deliveries.push(Delivery::Transaction(Some(transaction), block_time));
                }
            }
            assert(transactions.take(transactions.len() as int) =~= transactions);
            let ghost kept = deliveries@;
            for account in it: block.accounts
                invariant
                    it.seq() == accounts,
                    deliveries@ == kept + Seq::new(it.index() as nat, |i: int| Delivery::Account(Some(accounts[i]))),
            {
                assert(account == accounts[it.index()]);
                deliveries.push(Delivery::Account(Some(account)));
                assert(deliveries@ =~= kept + Seq::new(
                    (it.index() + 1) as nat,
                    |i: int| Delivery::Account(Some(accounts[i])),
                ));
            }
            MessageStep::Deliver { slot: block.slot, deliveries }
        },
        Some(UpdateOneof::Ping) => MessageStep::AnswerPing { id: PING_ID },
        Some(UpdateOneof::Slot(_))
        | Some(UpdateOneof::TransactionStatus)
        | Some(UpdateOneof::Pong)
        | Some(UpdateOneof::BlockMeta)
        | Some(UpdateOneof::Entry)
        | None => MessageStep::Nothing,
    }
}

/// The notice of a gap in the stream.
pub open spec fn notice_matches(
    disconnect_time: Timestamp,
    last_slot: u64,
    slot: u64,
    notice: DatasourceDisconnection,
) -> bool {
    &&& notice.source@ == DISCONNECTION_SOURCE@
    &&& notice.disconnect_time == disconnect_time
    &&& notice.last_slot_before_disconnect == last_slot
    &&& notice.first_slot_after_reconnect == slot
    &&& notice.missed_slots == (if slot > last_slot {
        slot - last_slot
    } else {
        0
    })
}

impl StreamView {
    /// The two halves of a lost connection are known together, and the stream waits for a
    /// first slot only while it has a lost connection to tell of.
    pub open spec fn wf(&self) -> bool {
        &&& self.last_disconnect_time is Some <==> self.last_slot_before_disconnect is Some
        &&& self.first_message_after_reconnect ==> self.last_disconnect_time is Some
        &&& self.arrivals.wf()
    }

    /// The state after the loss of the connection: the first loss since the last notice counts.
    pub open spec fn disconnected(&self, now: Timestamp) -> StreamView {
        if self.last_disconnect_time is Some {
            *self
        } else {
            StreamView {
                last_disconnect_time: Some(now),
                last_slot_before_disconnect: Some(self.last_processed_slot),
                ..*self
            }
        }
    }

    /// The slot at which the connection is lost, unless its loss is known already.
    pub open spec fn loss(&self) -> Option<u64> {
        if self.last_disconnect_time is Some {
            None
        } else {
            Some(self.last_processed_slot)
        }
    }

    /// Whether an event is a loss of the connection.
    pub open spec fn is_loss(event: StreamEvent) -> bool {
        match event {
            StreamEvent::SubscribeFailed
            | StreamEvent::StreamClosed
            | StreamEvent::TimedOut
            | StreamEvent::StreamFailed => true,
            _ => false,
        }
    }

    /// The state after an event.
    pub open spec fn after_event(&self, event: StreamEvent, now: Timestamp) -> StreamView {
        if StreamView::is_loss(event) {
            self.disconnected(now)
        } else if event == StreamEvent::Subscribed {
            StreamView { first_message_after_reconnect: self.last_disconnect_time is Some, ..*self }
        } else {
            *self
        }
    }

    /// What is to be done after an event.
    pub open spec fn reaction(&self, event: StreamEvent) -> Reaction {
        Reaction {
            next: match event {
                StreamEvent::Cancelled => NextStep::Stop,
                StreamEvent::Subscribed => NextStep::Receive,
                _ => NextStep::Subscribe,
            },
            connected: event == StreamEvent::Subscribed,
            disconnected_at: if StreamView::is_loss(event) {
                self.loss()
            } else {
                None
            },
            summary: if event == StreamEvent::Cancelled && self.arrivals.arrival_count > 1 {
                Some(self.arrivals.summarized())
            } else {
                None
            },
        }
    }

    /// The state after the accounts and transactions of a message were offered to the output.
    pub open spec fn after_deliveries(
        &self,
        slot: u64,
        outcome: Result<(), AuthoritativeOutputError>,
        now: Timestamp,
    ) -> StreamView {
        match outcome {
            Ok(()) => StreamView { last_processed_slot: slot, ..*self },
            Err(_) => self.disconnected(now),
        }
    }

    /// What is to be done after the accounts and transactions of a message were offered to
    /// the output.
    pub open spec fn deliveries_reaction(&self, outcome: Result<(), AuthoritativeOutputError>) -> Reaction {
        match outcome {
            Ok(()) => Reaction { next: NextStep::Receive, connected: true, disconnected_at: None, summary: None },
            Err(_) => Reaction {
                next: NextStep::Subscribe,
                connected: false,
                disconnected_at: self.loss(),
                summary: None,
            },
        }
    }

    /// The state after a message came.
    pub open spec fn after_message(&self, update: Option<UpdateOneof>, arrival: u64) -> StreamView {
        let notice = self.first_message_after_reconnect && workload_slot(update) is Some;
        StreamView {
            last_disconnect_time: if notice {
                None
            } else {
                self.last_disconnect_time
            },
            last_slot_before_disconnect: if notice {
                None
            } else {
                self.last_slot_before_disconnect
            },
            first_message_after_reconnect: self.first_message_after_reconnect && !notice,
            last_slot: match update {
                Some(UpdateOneof::Slot(slot)) => Some(slot),
                _ => self.last_slot,
            },
            highest_slot: match update {
                Some(UpdateOneof::Slot(slot)) => if self.raises(slot) {
                    Some(slot)
                } else {
                    self.highest_slot
                },
                _ => self.highest_slot,
            },
            arrivals: match update {
                Some(UpdateOneof::Account(update)) => self.arrivals.advanced(update.slot, arrival),
                _ => self.arrivals,
            },
            ..*self
        }
    }

    /// Whether a slot is higher than all that the source told of.
    pub open spec fn raises(&self, slot: u64) -> bool {
        match self.highest_slot {
            Some(highest) => slot > highest,
            None => true,
        }
    }

    /// What a message tells.
    pub open spec fn told(&self, update: Option<UpdateOneof>, arrival: u64, report: MessageReport) -> bool {
        &&& report.update_type == YellowstoneGrpcUpdateType::type_of(update)
        &&& report.last_slot == (match update {
            Some(UpdateOneof::Slot(slot)) => Some(slot),
            _ => None,
        })
        &&& report.slot_progress == (match update {
            Some(UpdateOneof::Slot(slot)) => if self.raises(slot) {
                Some(slot)
            } else {
                None
            },
            _ => None,
        })
        &&& report.arrival == (match update {
            Some(UpdateOneof::Account(update)) => Some(self.arrivals.told(update.slot, arrival)),
            _ => None,
        })
        &&& match report.reconnection {
            Some(notice) => {
                &&& self.first_message_after_reconnect
                &&& workload_slot(update) matches Some(slot)
                &&& notice_matches(self.last_disconnect_time->0, self.last_slot_before_disconnect->0, slot, notice)
            },
            None => !self.first_message_after_reconnect || workload_slot(update) is None,
        }
    }
}

impl StreamState {
    /// What is known of a stream is always well formed.
    #[verifier::type_invariant]
    spec fn inv(self) -> bool {
        self.known.wf()
    }

    /// The stream before its first connection.
    pub fn new() -> (r: Self)
        ensures
            r@.wf(),
            r@.last_disconnect_time is None,
            r@.last_slot_before_disconnect is None,
            r@.last_processed_slot == 0,
            !r@.first_message_after_reconnect,
            r@.last_slot is None,
            r@.highest_slot is None,
            r@.arrivals == ArrivalTracker::fresh(),
    {
        StreamState {
            known: StreamView {
                last_disconnect_time: None,
                last_slot_before_disconnect: None,
                last_processed_slot: 0,
                first_message_after_reconnect: false,
                last_slot: None,
                highest_slot: None,
                arrivals: ArrivalTracker::new(),
            },
        }
    }

    /// What is known of the stream.
    pub fn snapshot(&self) -> (r: StreamView)
        ensures
            r == self@,
            r.wf(),
    {
        proof {
            use_type_invariant(self);
        }
        self.known
    }

    /// Whether an account update can arrive at this time: the clock does not run backwards,
    /// and the updates can still be counted.
    pub fn can_take(&self, arrival: u64) -> (r: bool)
        ensures
            r == self@.arrivals.can_take(arrival),
    {
        let in_order = match self.known.arrivals.last_arrival {
            Some(last) => last <= arrival,
            None => true,
        };
        in_order && self.known.arrivals.arrival_count < u64::MAX
    }

    /// Takes note of the loss of the connection, if it is not known already; says at which
    /// slot.
    fn record_disconnect(&mut self, now: Timestamp) -> (r: Option<u64>)
        ensures
            final(self)@.wf(),
            final(self)@ == old(self)@.disconnected(now),
            r == old(self)@.loss(),
    {
        proof {
            use_type_invariant(&*self);
        }
        if self.known.last_disconnect_time.is_none() {
            let last_processed_slot = self.known.last_processed_slot;
            self.known = StreamView {
                last_disconnect_time: Some(now),
                last_slot_before_disconnect: Some(last_processed_slot),
                ..self.known
            };
            Some(last_processed_slot)
        } else {
            None
        }
    }

    /// Takes note of an event, and says what to do next.
    pub fn on_event(&mut self, event: StreamEvent, now: Timestamp) -> (r: Reaction)
        ensures
            final(self)@.wf(),
            final(self)@ == old(self)@.after_event(event, now),
            r == old(self)@.reaction(event),
    {
        proof {
            use_type_invariant(&*self);
        }
        match event {
            StreamEvent::Cancelled => Reaction {
                next: NextStep::Stop,
                connected: false,
                disconnected_at: None,
                summary: self.known.arrivals.final_summary(),
            },
            StreamEvent::Subscribed => {
                self.known = StreamView {
                    first_message_after_reconnect: self.known.last_disconnect_time.is_some(),
                    ..self.known
                };
                Reaction { next: NextStep::Receive, connected: true, disconnected_at: None, summary: None }
            },
            StreamEvent::GenerationCancelled | StreamEvent::PingFailed => Reaction {
                next: NextStep::Subscribe,
                connected: false,
                disconnected_at: None,
                summary: None,
            },
            StreamEvent::SubscribeFailed
            | StreamEvent::StreamClosed
            | StreamEvent::TimedOut
            | StreamEvent::StreamFailed => {
                let disconnected_at = self.record_disconnect(now);
                Reaction { next: NextStep::Subscribe, connected: false, disconnected_at, summary: None }
            },
        }
    }

    /// Takes note of an update that was lost: the connection is given up, so that the stream
    /// is subscribed to anew.
    pub fn record_authoritative_output_failure(&mut self, now: Timestamp) -> (r: Reaction)
        ensures
            final(self)@.wf(),
            final(self)@ == old(self)@.disconnected(now),
            r == (Reaction {
                next: NextStep::Subscribe,
                connected: false,
                disconnected_at: old(self)@.loss(),
                summary: None,
            }),
    {
        let disconnected_at = self.record_disconnect(now);
        Reaction { next: NextStep::Subscribe, connected: false, disconnected_at, summary: None }
    }

    /// Takes note of what came of the accounts and transactions of a message, up to the first
    /// of them that was lost.
    pub fn on_deliveries(
        &mut self,
        slot: u64,
        outcome: &Result<(), AuthoritativeOutputError>,
        now: Timestamp,
    ) -> (r: Reaction)
        ensures
            final(self)@.wf(),
            final(self)@ == old(self)@.after_deliveries(slot, *outcome, now),
            r == old(self)@.deliveries_reaction(*outcome),
    {
        proof {
            use_type_invariant(&*self);
        }
        match outcome {
            Ok(()) => {
                self.known = StreamView { last_processed_slot: slot, ..self.known };
                Reaction { next: NextStep::Receive, connected: true, disconnected_at: None, summary: None }
            },
            Err(_) => self.record_authoritative_output_failure(now),
        }
    }

    /// Takes note of what came of the last delivery of a message, if there was one, and says
    /// what to do next: the deliveries go on in order until one is lost or none is left.
    pub fn next_delivery(
        &mut self,
        batch: &mut Batch,
        last: &Result<(), AuthoritativeOutputError>,
        now: Timestamp,
    ) -> (r: BatchStep)
        ensures
            final(self)@.wf(),
            final(batch).slot_of() == old(batch).slot_of(),
            if *last is Ok && old(batch)@.len() > 0 {
                &&& r == BatchStep::Deliver(old(batch)@[0])
                &&& final(batch)@ == old(batch)@.drop_first()
                &&& final(self)@ == old(self)@
            } else {
                &&& r matches BatchStep::Done(reaction)
                &&& reaction == old(self)@.deliveries_reaction(*last)
                &&& final(self)@ == old(self)@.after_deliveries(old(batch).slot_of(), *last, now)
                &&& final(batch)@ == old(batch)@
            },
    {
        proof {
            use_type_invariant(&*self);
        }
        if last.is_ok() {
            if let Some(delivery) = batch.rest.pop_front() {
                assert(batch@ =~= old(batch)@.drop_first());
                return BatchStep::Deliver(delivery);
            }
        }
        BatchStep::Done(self.on_deliveries(batch.slot, last, now))
    }

    /// Takes note of a message, and says what it tells apart from its contents.
    pub fn on_message(&mut self, update: &Option<UpdateOneof>, arrival: u64) -> (r: MessageReport)
        requires
            *update matches Some(UpdateOneof::Account(_)) ==> old(self)@.arrivals.can_take(arrival),
        ensures
            final(self)@.wf(),
            final(self)@ == old(self)@.after_message(*update, arrival),
            old(self)@.told(*update, arrival, r),
    {
        proof {
            use_type_invariant(&*self);
        }
        let mut known = self.known;
        let update_type = YellowstoneGrpcUpdateType::from_update(update);
        let mut reconnection: Option<DatasourceDisconnection> = None;
        if known.first_message_after_reconnect {
            let current_slot: Option<u64> = match update {
                Some(UpdateOneof::Account(update)) => Some(update.slot),
                Some(UpdateOneof::Transaction(update)) => Some(update.slot),
                Some(UpdateOneof::Block(update)) => Some(update.slot),
                _ => None,
            };
            if let Some(slot) = current_slot {
                known.first_message_after_reconnect = false;
                if let (Some(disconnect_time), Some(last_slot)) = (
                    known.last_disconnect_time,
                    known.last_slot_before_disconnect,
                ) {
                    reconnection = Some(
                        DatasourceDisconnection {
                            source: DISCONNECTION_SOURCE.to_owned(),
                            disconnect_time,
                            last_slot_before_disconnect: last_slot,
                            first_slot_after_reconnect: slot,
                            missed_slots: slot.saturating_sub(last_slot),
                        },
                    );
                }
                known.last_disconnect_time = None;
                known.last_slot_before_disconnect = None;
            }
        }
        let mut last_slot: Option<u64> = None;
        let mut slot_progress: Option<u64> = None;
        let mut arrival_report: Option<ArrivalReport> = None;
        match update {
            Some(UpdateOneof::Slot(slot)) => {
                known.last_slot = Some(*slot);
                last_slot = Some(*slot);
                let raised = match known.highest_slot {
                    Some(highest) => *slot > highest,
                    None => true,
                };
                if raised {
                    known.highest_slot = Some(*slot);
                    slot_progress = Some(*slot);
                }
            },
            Some(UpdateOneof::Account(update)) => {
                let mut arrivals = known.arrivals;
                arrival_report = Some(arrivals.on_account_update(update.slot, arrival));
                known.arrivals = arrivals;
            },
            _ => {},
        }
        self.known = known;
        MessageReport { update_type, reconnection, last_slot, slot_progress, arrival: arrival_report }
    }
}

/// Only the first loss of a connection counts until its notice is out: a later loss changes
/// neither the time nor the slot.
pub proof fn law_first_loss_counts(state: StreamView, first: Timestamp, second: Timestamp)
    ensures
        state.disconnected(first).disconnected(second) == state.disconnected(first),
        state.disconnected(first).last_disconnect_time is Some,
        state.disconnected(first).loss() is None,
        state.loss() is Some ==> state.disconnected(first).last_disconnect_time == Some(first)
            && state.disconnected(first).last_slot_before_disconnect == Some(state.last_processed_slot),
{
}

/// A gap is told whole: after the loss of a connection and a new subscription, the first
/// message with a slot brings the notice of the loss, with the time of the loss, the last slot
/// before it, the first slot after it, and how far apart they are.
pub proof fn law_gap_is_told(
    state: StreamView,
    loss: StreamEvent,
    lost_at: Timestamp,
    subscribed_at: Timestamp,
    update: Option<UpdateOneof>,
    arrival: u64,
    report: MessageReport,
)
    requires
        state.wf(),
        state.last_disconnect_time is None,
        StreamView::is_loss(loss),
        workload_slot(update) is Some,
        state.after_event(loss, lost_at).after_event(StreamEvent::Subscribed, subscribed_at).told(
            update,
            arrival,
            report,
        ),
    ensures
        report.reconnection matches Some(notice) && notice_matches(
            lost_at,
            state.last_processed_slot,
            workload_slot(update)->0,
            notice,
        ),
{
}

/// A gap is told once: no message after the one with the notice brings another, until the
/// connection is lost again.
pub proof fn law_gap_is_told_once(
    state: StreamView,
    update: Option<UpdateOneof>,
    arrival: u64,
    report: MessageReport,
    later: Option<UpdateOneof>,
    later_arrival: u64,
    later_report: MessageReport,
)
    requires
        state.wf(),
        state.told(update, arrival, report),
        report.reconnection is Some,
        state.after_message(update, arrival).told(later, later_arrival, later_report),
    ensures
        later_report.reconnection is None,
        state.after_message(update, arrival).last_disconnect_time is None,
        state.after_message(update, arrival).last_slot_before_disconnect is None,
{
}

/// A message without a slot of its own leaves a loss untold: the notice waits for a slot.
pub proof fn law_notice_waits_for_slot(
    state: StreamView,
    update: Option<UpdateOneof>,
    arrival: u64,
    report: MessageReport,
)
    requires
        state.told(update, arrival, report),
        workload_slot(update) is None,
    ensures
        report.reconnection is None,
        state.after_message(update, arrival).last_disconnect_time == state.last_disconnect_time,
        state.after_message(update, arrival).last_slot_before_disconnect == state.last_slot_before_disconnect,
        state.after_message(update, arrival).first_message_after_reconnect == state.first_message_after_reconnect,
{
}

/// A slot counts as delivered only once all of its message was taken: a message of which a
/// part was lost leaves the last delivered slot as it was, and the loss is known.
pub proof fn law_lost_update_is_a_loss(
    state: StreamView,
    slot: u64,
    error: AuthoritativeOutputError,
    now: Timestamp,
)
    requires
        state.wf(),
    ensures
        state.after_deliveries(slot, Err(error), now).last_processed_slot == state.last_processed_slot,
        state.after_deliveries(slot, Err(error), now).last_disconnect_time is Some,
        state.after_deliveries(slot, Err(error), now).last_slot_before_disconnect is Some,
        state.last_disconnect_time is None ==> state.after_deliveries(slot, Err(error), now).last_slot_before_disconnect
            == Some(state.last_processed_slot),
        state.after_deliveries(slot, Ok(()), now).last_processed_slot == slot,
{
}

/// What comes of the deliveries of a message, given what would come of each: nothing is lost,
/// or the first that is lost.
pub open spec fn first_lost(
    outcomes: Seq<Result<(), AuthoritativeOutputError>>,
) -> Result<(), AuthoritativeOutputError>
    decreases outcomes.len(),
{
    if outcomes.len() == 0 {
        Ok(())
    } else if outcomes[0] is Err {
        outcomes[0]
    } else {
        first_lost(outcomes.drop_first())
    }
}

/// The number of deliveries of a message that are tried: all, or those up to the first that
/// is lost.
pub open spec fn tries(outcomes: Seq<Result<(), AuthoritativeOutputError>>) -> nat
    decreases outcomes.len(),
{
    if outcomes.len() == 0 {
        0
    } else if outcomes[0] is Err {
        1
    } else {
        1 + tries(outcomes.drop_first())
    }
}

/// A message is delivered whole or up to the first update that is lost: all updates before
/// that one were taken, and none behind it is tried. The stream goes on if and only if
/// nothing was lost.
pub proof fn law_delivery_stops_at_first_loss(
    state: StreamView,
    outcomes: Seq<Result<(), AuthoritativeOutputError>>,
)
    ensures
        tries(outcomes) <= outcomes.len(),
        forall|i: int| 0 <= i < tries(outcomes) - 1 ==> #[trigger] outcomes[i] is Ok,
        first_lost(outcomes) is Ok <==> (forall|i: int| 0 <= i < outcomes.len() ==> #[trigger] outcomes[i] is Ok),
        first_lost(outcomes) is Ok ==> tries(outcomes) == outcomes.len(),
        first_lost(outcomes) is Err ==> tries(outcomes) > 0 && first_lost(outcomes) == outcomes[tries(outcomes) - 1],
        state.deliveries_reaction(first_lost(outcomes)).next == NextStep::Receive <==> first_lost(outcomes) is Ok,
    decreases outcomes.len(),
{
    if outcomes.len() > 0 && outcomes[0] is Ok {
        let rest = outcomes.drop_first();
        law_delivery_stops_at_first_loss(state, rest);
        assert forall|i: int| 0 <= i < tries(outcomes) - 1 implies #[trigger] outcomes[i] is Ok by {
            if i > 0 {
                assert(rest[i - 1] == outcomes[i]);
            }
        }
        assert((forall|i: int| 0 <= i < outcomes.len() ==> #[trigger] outcomes[i] is Ok) ==> (forall|i: int|
            0 <= i < rest.len() ==> #[trigger] rest[i] is Ok));
        if first_lost(rest) is Ok {
            assert forall|i: int| 0 <= i < outcomes.len() implies #[trigger] outcomes[i] is Ok by {
                if i > 0 {
                    assert(rest[i - 1] == outcomes[i]);
                }
            }
        }
    }
}

/// The state at the end of a message, step by step: while nothing is lost and something is
/// left, the next delivery is tried.
pub open spec fn delivered(
    state: StreamView,
    slot: u64,
    rest: Seq<Delivery>,
    last: Result<(), AuthoritativeOutputError>,
    outcomes: Seq<Result<(), AuthoritativeOutputError>>,
    now: Timestamp,
) -> StreamView
    decreases rest.len(),
{
    if last is Ok && rest.len() > 0 {
        delivered(state, slot, rest.drop_first(), outcomes[0], outcomes.drop_first(), now)
    } else {
        state.after_deliveries(slot, last, now)
    }
}

/// Step by step, a message comes to what its first lost update comes to: its slot counts as
/// delivered if nothing is lost, and else the connection is.
pub proof fn law_message_is_delivered_whole_or_lost(
    state: StreamView,
    slot: u64,
    deliveries: Seq<Delivery>,
    outcomes: Seq<Result<(), AuthoritativeOutputError>>,
    now: Timestamp,
)
    requires
        outcomes.len() == deliveries.len(),
    ensures
        delivered(state, slot, deliveries, Ok(()), outcomes, now) == state.after_deliveries(
            slot,
            first_lost(outcomes),
            now,
        ),
    decreases deliveries.len(),
{
    if deliveries.len() > 0 {
        if outcomes[0] is Ok {
            law_message_is_delivered_whole_or_lost(
                state,
                slot,
                deliveries.drop_first(),
                outcomes.drop_first(),
                now,
            );
        } else {
            assert(delivered(state, slot, deliveries.drop_first(), outcomes[0], outcomes.drop_first(), now)
                == state.after_deliveries(slot, outcomes[0], now));
        }
    }
}

/// Every slot that the source tells of is its last slot, higher or not. The highest slot
/// never falls, and is told exactly when it rises.
pub proof fn law_slot_progress_rises(
    state: StreamView,
    update: Option<UpdateOneof>,
    arrival: u64,
    report: MessageReport,
)
    requires
        state.told(update, arrival, report),
    ensures
        state.highest_slot matches Some(before) ==> state.after_message(update, arrival).highest_slot matches Some(after)
            && before <= after,
        update matches Some(UpdateOneof::Slot(slot)) ==> report.last_slot == Some(slot) && state.after_message(
            update,
            arrival,
        ).last_slot == Some(slot),
        !(update matches Some(UpdateOneof::Slot(_))) ==> report.last_slot is None && state.after_message(
            update,
            arrival,
        ).last_slot == state.last_slot,
        report.slot_progress is Some <==> state.after_message(update, arrival).highest_slot != state.highest_slot,
        report.slot_progress is Some ==> report.slot_progress == state.after_message(update, arrival).highest_slot,
{
}

/// Only accounts, transactions and blocks reach the output: a slot or any other message of
/// the source does not.
pub proof fn law_only_workload_is_delivered(update: Option<UpdateOneof>, retain_failed: bool, step: MessageStep)
    requires
        step_matches(update, retain_failed, step),
    ensures
        step is Deliver <==> workload_slot(update) is Some,
        step is Deliver ==> workload_slot(update) == Some(step->slot),
        update matches Some(UpdateOneof::Slot(_)) ==> step is Nothing,
{
}

/// With failed transactions kept, a block delivers all of its transactions, in order.
pub proof fn law_all_transactions_kept(transactions: Seq<SubscribeUpdateTransactionInfo>, block_time: Option<i64>)
    ensures
        kept_transactions(true, transactions, block_time) == Seq::new(
            transactions.len(),
            |i: int| Delivery::Transaction(Some(transactions[i]), block_time),
        ),
    decreases transactions.len(),
{
    if transactions.len() > 0 {
        law_all_transactions_kept(transactions.drop_last(), block_time);
    }
    assert(kept_transactions(true, transactions, block_time) =~= Seq::new(
        transactions.len(),
        |i: int| Delivery::Transaction(Some(transactions[i]), block_time),
    ));
}

/// Whether failed transactions are kept or not, a block delivers every transaction that
/// succeeded, and each one that is delivered is of the block and is kept.
pub proof fn law_kept_transactions(
    retain_failed: bool,
    transactions: Seq<SubscribeUpdateTransactionInfo>,
    block_time: Option<i64>,
)
    ensures
        forall|i: int|
            0 <= i < transactions.len() && keeps_transaction(retain_failed, #[trigger] transactions[i])
                ==> kept_transactions(retain_failed, transactions, block_time).contains(
                Delivery::Transaction(Some(transactions[i]), block_time),
            ),
        forall|j: int|
            0 <= j < kept_transactions(retain_failed, transactions, block_time).len() ==> {
                &&& (#[trigger] kept_transactions(retain_failed, transactions, block_time)[j]) matches Delivery::Transaction(
                    Some(info),
                    time,
                )
                &&& transactions.contains(info)
                &&& keeps_transaction(retain_failed, info)
                &&& time == block_time
            },
    decreases transactions.len(),
{
    if transactions.len() > 0 {
        let rest = transactions.drop_last();
        let last = transactions.last();
        let kept_rest = kept_transactions(retain_failed, rest, block_time);
        let kept = kept_transactions(retain_failed, transactions, block_time);
        law_kept_transactions(retain_failed, rest, block_time);
        assert forall|i: int|
            0 <= i < transactions.len() && keeps_transaction(retain_failed, #[trigger] transactions[i]) implies kept.contains(
            Delivery::Transaction(Some(transactions[i]), block_time),
        ) by {
            if i == transactions.len() - 1 {
                assert(kept[kept_rest.len() as int] == Delivery::Transaction(Some(last), block_time));
            } else {
                assert(rest[i] == transactions[i]);
                let k = choose|k: int|
                    0 <= k < kept_rest.len() && kept_rest[k] == Delivery::Transaction(Some(rest[i]), block_time);
                assert(kept[k] == kept_rest[k]);
            }
        }
        assert forall|j: int| 0 <= j < kept.len() implies {
            &&& (#[trigger] kept[j]) matches Delivery::Transaction(Some(info), time)
            &&& transactions.contains(info)
            &&& keeps_transaction(retain_failed, info)
            &&& time == block_time
        } by {
            if j < kept_rest.len() {
                assert(kept[j] == kept_rest[j]);
                let info = kept_rest[j]->Transaction_0->0;
                let k = choose|k: int| 0 <= k < rest.len() && rest[k] == info;
                assert(transactions[k] == info);
            } else {
                assert(transactions[transactions.len() - 1] == last);
            }
        }
    }
}

} // verus!
