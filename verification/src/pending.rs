//! Transactions that wait for the metadata of their block.
use crate::keys::BlockHash;
use crate::text::push_decimal;
use crate::updates::TransactionUpdate;
use vstd::prelude::*;

verus! {

/// The thread that a transaction came on, and its slot.
pub type PendingTransactionKey = (usize, u64);

/// The transactions of one thread and slot, in order of arrival.
#[derive(Debug)]
struct PendingSlot {
    key: PendingTransactionKey,
    transactions: Vec<TransactionUpdate>,
}

/// A bounded number of transactions that wait for the metadata of their block.
#[derive(Debug)]
pub struct PendingTransactionBuffer {
    by_slot: Vec<PendingSlot>,
    len: usize,
    max_len: usize,
}

/// The buffer holds as many transactions as it may.
#[derive(Debug, Clone, Copy, PartialEq, Eq, Structural)]
pub struct PendingLimitReached {
    pub max_len: usize,
}

impl PendingLimitReached {
    /// The text of the error.
    pub open spec fn text(&self) -> Seq<char> {
        "Jetstreamer metadata buffer reached its "@ + crate::text::decimal_digits(self.max_len as nat)
            + " transaction limit"@
    }

    /// The text of the error.
    pub fn describe(&self) -> (r: String)
        ensures
            r@ == self.text(),
    {
        let mut text = "Jetstreamer metadata buffer reached its ".to_owned();
        push_decimal(&mut text, self.max_len as u64);
        text.append(" transaction limit");
        text
    }
}

/// The transactions that wait under a key: none, where the key is not there.
pub open spec fn waiting(
    pending: Map<PendingTransactionKey, Seq<TransactionUpdate>>,
    key: PendingTransactionKey,
) -> Seq<TransactionUpdate> {
    if pending.contains_key(key) {
        pending[key]
    } else {
        Seq::empty()
    }
}

/// The transactions that wait under several keys, key by key.
pub open spec fn all_waiting(
    pending: Map<PendingTransactionKey, Seq<TransactionUpdate>>,
    keys: Seq<PendingTransactionKey>,
) -> Seq<TransactionUpdate>
    decreases keys.len(),
{
    if keys.len() == 0 {
        Seq::empty()
    } else {
        all_waiting(pending, keys.drop_last()) + waiting(pending, keys.last())
    }
}

/// The number of transactions in slots.
spec fn total(slots: Seq<PendingSlot>) -> nat
    decreases slots.len(),
{
    if slots.len() == 0 {
        0
    } else {
        total(slots.drop_last()) + slots.last().transactions@.len()
    }
}

/// Whether a slot with a key is there.
spec fn has_key(slots: Seq<PendingSlot>, key: PendingTransactionKey) -> bool {
    exists|i: int| 0 <= i < slots.len() && (#[trigger] slots[i]).key == key
}

/// The contents of slots, by key.
spec fn contents(slots: Seq<PendingSlot>) -> Map<PendingTransactionKey, Seq<TransactionUpdate>> {
    Map::new(
        |key: PendingTransactionKey| has_key(slots, key),
        |key: PendingTransactionKey|
            slots[choose|i: int| 0 <= i < slots.len() && (#[trigger] slots[i]).key == key].transactions@,
    )
}

/// No key occurs twice, and every slot holds something.
spec fn slots_wf(slots: Seq<PendingSlot>) -> bool {
    &&& forall|i: int, j: int| 0 <= i < j < slots.len() ==> (#[trigger] slots[i]).key != (#[trigger] slots[j]).key
    &&& forall|i: int| 0 <= i < slots.len() ==> (#[trigger] slots[i]).transactions@.len() > 0
}

/// Where a key is, its transactions are.
proof fn lemma_contents_at(slots: Seq<PendingSlot>, i: int)
    requires
        slots_wf(slots),
        0 <= i < slots.len(),
    ensures
        contents(slots).contains_key(slots[i].key),
        contents(slots)[slots[i].key] == slots[i].transactions@,
{
    let key = slots[i].key;
    let j = choose|j: int| 0 <= j < slots.len() && (#[trigger] slots[j]).key == key;
    assert(has_key(slots, key));
    assert(j == i);
}

/// Slots with the same keys and transactions, in whatever order, have the same contents.
proof fn lemma_contents_of(slots: Seq<PendingSlot>, pending: Map<PendingTransactionKey, Seq<TransactionUpdate>>)
    requires
        slots_wf(slots),
        forall|i: int|
            0 <= i < slots.len() ==> pending.contains_key((#[trigger] slots[i]).key) && pending[slots[i].key]
                == slots[i].transactions@,
        forall|key: PendingTransactionKey| #[trigger] pending.contains_key(key) ==> has_key(slots, key),
    ensures
        contents(slots) == pending,
{
    assert forall|key: PendingTransactionKey| contents(slots).contains_key(key) == pending.contains_key(key) by {
        if has_key(slots, key) {
            let i = choose|i: int| 0 <= i < slots.len() && (#[trigger] slots[i]).key == key;
            assert(pending.contains_key(slots[i].key));
        }
    }
    assert forall|key: PendingTransactionKey| contents(slots).contains_key(key) implies contents(slots)[key]
        == pending[key] by {
        let i = choose|i: int| 0 <= i < slots.len() && (#[trigger] slots[i]).key == key;
        lemma_contents_at(slots, i);
    }
    assert(contents(slots) =~= pending);
}

/// The number of transactions changes with one slot alone.
proof fn lemma_total_update(slots: Seq<PendingSlot>, i: int, slot: PendingSlot)
    requires
        0 <= i < slots.len(),
    ensures
        total(slots.update(i, slot)) == total(slots) - slots[i].transactions@.len() + slot.transactions@.len(),
        slots[i].transactions@.len() <= total(slots),
    decreases slots.len(),
{
    if i == slots.len() - 1 {
        assert(slots.update(i, slot).drop_last() =~= slots.drop_last());
    } else {
        lemma_total_update(slots.drop_last(), i, slot);
        assert(slots.update(i, slot).drop_last() =~= slots.drop_last().update(i, slot));
    }
}

/// To take out a slot and to put the last one in its place takes its transactions alone.
proof fn lemma_total_swap_remove(slots: Seq<PendingSlot>, i: int)
    requires
        0 <= i < slots.len(),
    ensures
        total(slots.update(i, slots.last()).drop_last()) == total(slots) - slots[i].transactions@.len(),
{
    lemma_total_update(slots, i, slots.last());
    let moved = slots.update(i, slots.last());
    assert(total(moved) == total(moved.drop_last()) + moved.last().transactions@.len());
}

impl View for PendingTransactionBuffer {
    type V = Map<PendingTransactionKey, Seq<TransactionUpdate>>;

    closed spec fn view(&self) -> Map<PendingTransactionKey, Seq<TransactionUpdate>> {
        contents(self.by_slot@)
    }
}

impl PendingTransactionBuffer {
    /// No key is held twice, no key is held without transactions, and the transactions are
    /// counted and within the limit.
    pub closed spec fn wf(&self) -> bool {
        &&& slots_wf(self.by_slot@)
        &&& self.len == total(self.by_slot@)
        &&& self.len <= self.max_len
    }

    /// The number of transactions that wait.
    pub closed spec fn count(&self) -> nat {
        self.len as nat
    }

    /// The greatest number of transactions that may wait.
    pub closed spec fn limit(&self) -> nat {
        self.max_len as nat
    }

    /// A buffer in which nothing waits.
    pub fn new(max_len: usize) -> (r: Self)
        ensures
            r.wf(),
            r@ == Map::<PendingTransactionKey, Seq<TransactionUpdate>>::empty(),
            r.count() == 0,
            r.limit() == max_len,
    {
        let r = PendingTransactionBuffer { by_slot: Vec::new(), len: 0, max_len };
        assert(r@ =~= Map::<PendingTransactionKey, Seq<TransactionUpdate>>::empty());
        r
    }

    /// The number of transactions that wait.
    pub fn len(&self) -> (r: usize)
        ensures
            r == self.count(),
    {
        self.len
    }

    /// Where a key is held.
    fn find(&self, key: PendingTransactionKey) -> (r: Option<usize>)
        ensures
            match r {
                Some(i) => i < self.by_slot@.len() && self.by_slot@[i as int].key == key,
                None => !has_key(self.by_slot@, key),
            },
    {
        for i in 0..self.by_slot.len()
            invariant
                forall|j: int| 0 <= j < i ==> (#[trigger] self.by_slot@[j]).key != key,
        {
            if self.by_slot[i].key.0 == key.0 && self.by_slot[i].key.1 == key.1 {
                return Some(i);
            }
        }
        None
    }

    /// The transactions that wait under a key.
    pub fn get(&self, key: PendingTransactionKey) -> (r: Option<&Vec<TransactionUpdate>>)
        requires
            self.wf(),
        ensures
            match r {
                Some(transactions) => self@.contains_key(key) && transactions@ == self@[key],
                None => !self@.contains_key(key),
            },
    {
        match self.find(key) {
            Some(i) => {
                proof {
                    lemma_contents_at(self.by_slot@, i as int);
                }
                Some(&self.by_slot[i].transactions)
            },
            None => None,
        }
    }

    /// Lets a transaction wait under a key, behind those that wait there already. A full
    /// buffer refuses it.
    pub fn push(&mut self, key: PendingTransactionKey, transaction: TransactionUpdate) -> (r: Result<(), PendingLimitReached>)
        requires
            old(self).wf(),
        ensures
            final(self).wf(),
            final(self).limit() == old(self).limit(),
            r is Err <==> old(self).count() >= old(self).limit(),
            match r {
                Ok(()) => {
                    &&& final(self)@ == old(self)@.insert(key, waiting(old(self)@, key).push(transaction))
                    &&& final(self).count() == old(self).count() + 1
                },
                Err(error) => {
                    &&& error.max_len == old(self).limit()
                    &&& *final(self) == *old(self)
                },
            },
    {
        if self.len >= self.max_len {
            return Err(PendingLimitReached { max_len: self.max_len });
        }
        let ghost before = self.by_slot@;
        let ghost pending = self@.insert(key, waiting(self@, key).push(transaction));
        match self.find(key) {
            Some(i) => {
                proof {
                    lemma_contents_at(before, i as int);
                }
                let mut slot = self.by_slot.swap_remove(i);
                slot.transactions.push(transaction);
                let ghost grown = slot;
                proof {
                    lemma_total_swap_remove(before, i as int);
                }
                self.by_slot.push(slot);
                proof {
                    let after = self.by_slot@;
                    let last = before.len() - 1;
                    assert(after.drop_last() =~= before.update(i as int, before.last()).drop_last());
                    assert(after.last() == grown);
                    assert forall|a: int, b: int| 0 <= a < b < after.len() implies (#[trigger] after[a]).key != (
                    #[trigger] after[b]).key by {
                        let from_a = if a == i {
                            last
                        } else {
                            a
                        };
                        let from_b = if b == last {
                            i as int
                        } else if b == i {
                            last
                        } else {
                            b
                        };
                        if a != last {
                            assert(after[a].key == before[from_a].key);
                        }
                        assert(after[b].key == before[from_b].key);
                        assert(before[from_a].key != before[from_b].key);
                    }
                    assert forall|a: int| 0 <= a < after.len() implies pending.contains_key((#[trigger] after[a]).key)
                        && pending[after[a].key] == after[a].transactions@ && after[a].transactions@.len() > 0 by {
                        if a != last {
                            let from_a = if a == i {
                                last
                            } else {
                                a
                            };
                            assert(after[a] == before[from_a]);
                            lemma_contents_at(before, from_a);
                            assert(before[from_a].key != before[i as int].key);
                        }
                    }
                    assert forall|k: PendingTransactionKey| #[trigger] pending.contains_key(k) implies has_key(
                        after,
                        k,
                    ) by {
                        if k == key {
                            assert(after[last].key == key);
                        } else {
                            assert(contents(before).contains_key(k));
                            let j = choose|j: int| 0 <= j < before.len() && (#[trigger] before[j]).key == k;
                            if j == last {
                                assert(after[i as int].key == k);
                            } else {
                                assert(after[j].key == k);
                            }
                        }
                    }
                    lemma_contents_of(after, pending);
                }
            },
            None => {
                let slot = PendingSlot { key, transactions: vec![transaction] };
                let ghost new_slot = slot;
                self.by_slot.push(slot);
                proof {
                    let after = self.by_slot@;
                    assert(after.drop_last() =~= before);
                    assert(new_slot.transactions@ =~= Seq::empty().push(transaction));
                    assert forall|a: int, b: int| 0 <= a < b < after.len() implies (#[trigger] after[a]).key != (
                    #[trigger] after[b]).key by {
                        assert(after[a] == before[a]);
                        if b < before.len() {
                            assert(after[b] == before[b]);
                        } else {
                            assert(before[a].key != key);
                        }
                    }
                    assert forall|a: int| 0 <= a < after.len() implies pending.contains_key((#[trigger] after[a]).key)
                        && pending[after[a].key] == after[a].transactions@ && after[a].transactions@.len() > 0 by {
                        if a < before.len() {
                            assert(after[a] == before[a]);
                            lemma_contents_at(before, a);
                        }
                    }
                    assert forall|k: PendingTransactionKey| #[trigger] pending.contains_key(k) implies has_key(
                        after,
                        k,
                    ) by {
                        if k == key {
                            assert(after[before.len() as int].key == key);
                        } else {
                            assert(contents(before).contains_key(k));
                            let j = choose|j: int| 0 <= j < before.len() && (#[trigger] before[j]).key == k;
                            assert(after[j].key == k);
                        }
                    }
                    lemma_contents_of(after, pending);
                }
            },
        }
        self.len = self.len + 1;
        Ok(())
    }

    /// Takes out the transactions that wait under a key.
    pub fn remove(&mut self, key: PendingTransactionKey) -> (r: Vec<TransactionUpdate>)
        requires
            old(self).wf(),
        ensures
            final(self).wf(),
            final(self).limit() == old(self).limit(),
            r@ == waiting(old(self)@, key),
            final(self)@ == old(self)@.remove(key),
            final(self).count() == old(self).count() - r@.len(),
    {
        let ghost before = self.by_slot@;
        let ghost pending = self@.remove(key);
        match self.find(key) {
            Some(i) => {
                proof {
                    lemma_contents_at(before, i as int);
                    lemma_total_update(before, i as int, before[i as int]);
                    lemma_total_swap_remove(before, i as int);
                }
                let slot = self.by_slot.swap_remove(i);
                proof {
                    let after = self.by_slot@;
                    let last = before.len() - 1;
                    assert(after =~= before.update(i as int, before.last()).drop_last());
                    assert forall|a: int, b: int| 0 <= a < b < after.len() implies (#[trigger] after[a]).key != (
                    #[trigger] after[b]).key by {
                        let from_a = if a == i {
                            last
                        } else {
                            a
                        };
                        let from_b = if b == i {
                            last
                        } else {
                            b
                        };
                        assert(before[from_a].key != before[from_b].key);
                    }
                    assert forall|a: int| 0 <= a < after.len() implies pending.contains_key((#[trigger] after[a]).key)
                        && pending[after[a].key] == after[a].transactions@ && after[a].transactions@.len() > 0 by {
                        let from_a = if a == i {
                            last
                        } else {
                            a
                        };
                        assert(after[a] == before[from_a]);
                        lemma_contents_at(before, from_a);
                        assert(before[from_a].key != before[i as int].key);
                    }
                    assert forall|k: PendingTransactionKey| #[trigger] pending.contains_key(k) implies has_key(
                        after,
                        k,
                    ) by {
                        assert(contents(before).contains_key(k));
                        let j = choose|j: int| 0 <= j < before.len() && (#[trigger] before[j]).key == k;
                        if j == last {
                            assert(after[i as int].key == k);
                        } else {
                            assert(after[j].key == k);
                        }
                    }
                    lemma_contents_of(after, pending);
                }
                self.len = self.len - slot.transactions.len();
                slot.transactions
            },
            None => {
                assert(!self@.contains_key(key));
                assert(self@.remove(key) =~= self@);
                Vec::new()
            },
        }
    }

    /// The keys under which transactions wait.
    pub fn keys(&self) -> (r: Vec<PendingTransactionKey>)
        requires
            self.wf(),
        ensures
            r@.no_duplicates(),
            r@.to_set() == self@.dom(),
            all_waiting(self@, r@).len() == self.count(),
    {
        let ghost slots = self.by_slot@;
        let mut keys: Vec<PendingTransactionKey> = Vec::with_capacity(self.by_slot.len());
        assert(slots.take(0) =~= Seq::empty());
        for i in 0..self.by_slot.len()
            invariant
                slots == self.by_slot@,
                slots_wf(slots),
                keys@.len() == i,
                forall|j: int| 0 <= j < i ==> #[trigger] keys@[j] == slots[j].key,
                all_waiting(contents(slots), keys@).len() == total(slots.take(i as int)),
        {
            let ghost shorter = keys@;
            keys.push(self.by_slot[i].key);
            proof {
                lemma_contents_at(slots, i as int);
                assert(keys@.drop_last() =~= shorter);
                assert(slots.take(i + 1).drop_last() =~= slots.take(i as int));
                assert(slots.take(i + 1).last() == slots[i as int]);
            }
        }
        proof {
            assert(slots.take(slots.len() as int) =~= slots);
            assert forall|a: int, b: int| 0 <= a < keys@.len() && 0 <= b < keys@.len() && a != b implies keys@[a]
                != keys@[b] by {
                if a < b {
                    assert(slots[a].key != slots[b].key);
                } else {
                    assert(slots[b].key != slots[a].key);
                }
            }
            assert forall|key: PendingTransactionKey| keys@.to_set().contains(key) == self@.dom().contains(key) by {
                if self@.dom().contains(key) {
                    let i = choose|i: int| 0 <= i < slots.len() && (#[trigger] slots[i]).key == key;
                    assert(keys@[i] == key);
                }
                if keys@.to_set().contains(key) {
                    let i = choose|i: int| 0 <= i < keys@.len() && keys@[i] == key;
                    lemma_contents_at(slots, i);
                }
            }
            assert(keys@.to_set() =~= self@.dom());
        }
        keys
    }
}

/// What a block tells of its transactions.
#[derive(Debug, Clone, Copy, PartialEq, Eq)]
pub struct BlockMetadata {
    pub block_time: Option<i64>,
    pub block_hash: BlockHash,
}

/// A transaction with the metadata of its block, where there is any.
pub open spec fn with_metadata(transaction: TransactionUpdate, metadata: Option<BlockMetadata>) -> TransactionUpdate {
    match metadata {
        Some(metadata) => TransactionUpdate {
            block_time: metadata.block_time,
            block_hash: Some(metadata.block_hash),
            ..transaction
        },
        None => transaction,
    }
}

/// Takes out the transactions that wait under a key, in order, and gives each the metadata of
/// its block, where there is any.
pub fn flush_pending_transactions(
    pending_transactions: &mut PendingTransactionBuffer,
    key: PendingTransactionKey,
    metadata: Option<BlockMetadata>,
) -> (r: Vec<TransactionUpdate>)
    requires
        old(pending_transactions).wf(),
    ensures
        final(pending_transactions).wf(),
        final(pending_transactions).limit() == old(pending_transactions).limit(),
        final(pending_transactions)@ == old(pending_transactions)@.remove(key),
        final(pending_transactions).count() == old(pending_transactions).count() - r@.len(),
        r@ == waiting(old(pending_transactions)@, key).map_values(
            |transaction: TransactionUpdate| with_metadata(transaction, metadata),
        ),
{
    let transactions = pending_transactions.remove(key);
    let metadata = match metadata {
        Some(metadata) => metadata,
        None => {
            assert(transactions@ =~= transactions@.map_values(
                |transaction: TransactionUpdate| with_metadata(transaction, None),
            ));
            return transactions;
        },
    };
    let mut flushed: Vec<TransactionUpdate> = Vec::with_capacity(transactions.len());
    for transaction in it: transactions
        invariant
            it.seq() == transactions@,
            flushed@.len() == it.index(),
            forall|i: int| 0 <= i < it.index() ==> #[trigger] flushed@[i] == with_metadata(transactions@[i], Some(metadata)),
    {
        assert(transaction == transactions@[it.index()]);
        let mut transaction = transaction;
        transaction.block_time = metadata.block_time;
        transaction.block_hash = Some(metadata.block_hash);
        flushed.push(transaction);
    }
    assert(flushed@ =~= transactions@.map_values(
        |transaction: TransactionUpdate| with_metadata(transaction, Some(metadata)),
    ));
    flushed
}

/// Takes out all the transactions that wait, key by key and in order under each key, without
/// the metadata of their blocks.
pub fn flush_all_pending_transactions_without_block_time(
    pending_transactions: &mut PendingTransactionBuffer,
) -> (r: Vec<TransactionUpdate>)
    requires
        old(pending_transactions).wf(),
    ensures
        final(pending_transactions).wf(),
        final(pending_transactions).limit() == old(pending_transactions).limit(),
        final(pending_transactions)@ == Map::<PendingTransactionKey, Seq<TransactionUpdate>>::empty(),
        final(pending_transactions).count() == 0,
        r@.len() == old(pending_transactions).count(),
        exists|keys: Seq<PendingTransactionKey>|
            keys.no_duplicates() && keys.to_set() == old(pending_transactions)@.dom() && r@ == #[trigger] all_waiting(
                old(pending_transactions)@,
                keys,
            ),
{
    let ghost before = pending_transactions@;
    let keys = pending_transactions.keys();
    let mut flushed: Vec<TransactionUpdate> = Vec::new();
    assert(keys@.take(0) =~= Seq::empty());
    for i in 0..keys.len()
        invariant
            pending_transactions.wf(),
            pending_transactions.limit() == old(pending_transactions).limit(),
            pending_transactions.count() == old(pending_transactions).count() - flushed@.len(),
            keys@.no_duplicates(),
            before == old(pending_transactions)@,
            flushed@ == all_waiting(before, keys@.take(i as int)),
            forall|key: PendingTransactionKey| #[trigger]
                pending_transactions@.contains_key(key) <==> before.contains_key(key) && !keys@.take(i as int).contains(key),
            forall|key: PendingTransactionKey| #[trigger]
                pending_transactions@.contains_key(key) ==> pending_transactions@[key] == before[key],
    {
        let ghost rest = pending_transactions@;
        let key = keys[i];
        proof {
            let done = keys@.take(i as int);
            let more = keys@.take(i + 1);
            assert(more.drop_last() =~= done);
            assert(more.last() == key);
            assert(!done.contains(key)) by {
                if done.contains(key) {
                    let j = choose|j: int| 0 <= j < done.len() && done[j] == key;
                    assert(keys@[j] == keys@[i as int]);
                }
            }
            assert(waiting(rest, key) == waiting(before, key));
            assert forall|k: PendingTransactionKey| more.contains(k) == (done.contains(k) || k == key) by {
                if done.contains(k) {
                    let j = choose|j: int| 0 <= j < done.len() && done[j] == k;
                    assert(more[j] == k);
                }
                if k == key {
                    assert(more[i as int] == k);
                }
                if more.contains(k) {
                    let j = choose|j: int| 0 <= j < more.len() && more[j] == k;
                    if j < i {
                        assert(done[j] == k);
                    }
                }
            }
        }
        let mut transactions = flush_pending_transactions(pending_transactions, key, None);
        assert(transactions@ =~= waiting(rest, key));
        flushed.append(&mut transactions);
    }
    proof {
        assert(keys@.take(keys@.len() as int) =~= keys@);
        assert forall|key: PendingTransactionKey| !pending_transactions@.contains_key(key) by {
            if before.contains_key(key) {
                assert(before.dom().contains(key));
                assert(keys@.to_set().contains(key));
            }
        }
        assert(pending_transactions@ =~= Map::<PendingTransactionKey, Seq<TransactionUpdate>>::empty());
    }
    flushed
}

/// What was let wait comes out, behind what waited before, and nothing else of the buffer is
/// touched: the transactions under another key stay as they are.
pub proof fn law_pushed_comes_out(
    pending: Map<PendingTransactionKey, Seq<TransactionUpdate>>,
    key: PendingTransactionKey,
    transaction: TransactionUpdate,
    other: PendingTransactionKey,
)
    requires
        other != key,
    ensures
        ({
            let pushed = pending.insert(key, waiting(pending, key).push(transaction));
            &&& waiting(pushed, key) == waiting(pending, key).push(transaction)
            &&& waiting(pushed, other) == waiting(pending, other)
            &&& waiting(pushed.remove(key), key) == Seq::<TransactionUpdate>::empty()
            &&& waiting(pushed.remove(key), other) == waiting(pending, other)
        }),
{
}

/// The buffer never holds more transactions than its limit.
pub proof fn law_buffer_is_bounded(buffer: PendingTransactionBuffer)
    requires
        buffer.wf(),
    ensures
        buffer.count() <= buffer.limit(),
{
}

/// The metadata of a block changes nothing of a transaction but its block time and its
/// block hash.
pub proof fn law_metadata_keeps_transaction(transaction: TransactionUpdate, metadata: Option<BlockMetadata>)
    ensures
        ({
            let out = with_metadata(transaction, metadata);
            &&& out.signature == transaction.signature
            &&& out.transaction == transaction.transaction
            &&& out.meta == transaction.meta
            &&& out.is_vote == transaction.is_vote
            &&& out.slot == transaction.slot
            &&& out.index == transaction.index
            &&& metadata is None ==> out == transaction
        }),
{
}

} // verus!
