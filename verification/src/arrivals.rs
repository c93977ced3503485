//! The timing of account updates: over the whole stream, and slot by slot.
use vstd::prelude::*;

verus! {

/// The number of account updates between two summaries.
pub const SUMMARY_INTERVAL: u64 = 5000;

/// The account updates of the current slot so far.
#[derive(Debug, Clone, Copy, PartialEq, Eq, Structural)]
pub struct SlotWindow {
    pub slot: u64,
    /// Nanoseconds on the clock of the stream.
    pub first_arrival: u64,
    /// Nanoseconds on the clock of the stream.
    pub last_arrival: u64,
    pub update_count: u64,
}

/// The timing of the account updates of a stream so far.
#[derive(Debug, Clone, Copy, PartialEq, Eq, Structural)]
pub struct ArrivalTracker {
    /// Nanoseconds on the clock of the stream.
    pub last_arrival: Option<u64>,
    pub arrival_count: u64,
    pub total_delta_us: u64,
    pub min_delta_us: u64,
    pub max_delta_us: u64,
    pub window: Option<SlotWindow>,
}

/// A slot that has had its last account update.
#[derive(Debug, Clone, Copy, PartialEq, Eq, Structural)]
pub struct SlotSpan {
    /// From the first to the last account update of the slot.
    pub span_us: u64,
    pub update_count: u64,
}

/// The times between account updates, in microseconds.
#[derive(Debug, Clone, Copy, PartialEq, Eq, Structural)]
pub struct ArrivalSummary {
    pub count: u64,
    pub avg_delta_us: u64,
    pub min_delta_us: u64,
    pub max_delta_us: u64,
}

/// What the arrival of an account update tells.
#[derive(Debug, Clone, Copy, PartialEq, Eq, Structural)]
pub struct ArrivalReport {
    /// The slot that this update ends by being of another one.
    pub finished_slot: Option<SlotSpan>,
    /// The time since the last account update of the same slot.
    pub intra_slot_delta_us: Option<u64>,
    /// The time since the last account update.
    pub delta_us: Option<u64>,
    /// A summary, from time to time.
    pub summary: Option<ArrivalSummary>,
}

/// The whole microseconds between two times in nanoseconds.
pub open spec fn elapsed_us(from: u64, to: u64) -> u64 {
    ((to - from) / 1000) as u64
}

impl ArrivalTracker {
    /// No account update came yet.
    pub open spec fn fresh() -> ArrivalTracker {
        ArrivalTracker {
            last_arrival: None,
            arrival_count: 0,
            total_delta_us: 0,
            min_delta_us: u64::MAX,
            max_delta_us: 0,
            window: None,
        }
    }

    pub open spec fn wf(&self) -> bool {
        &&& self.arrival_count == 0 ==> *self == ArrivalTracker::fresh()
        &&& self.arrival_count > 0 ==> {
            &&& self.last_arrival is Some
            &&& self.total_delta_us * 1000 <= self.last_arrival->0
            &&& self.window matches Some(window)
            &&& window.first_arrival <= window.last_arrival
            &&& window.last_arrival == self.last_arrival->0
            &&& 1 <= window.update_count <= self.arrival_count
        }
        &&& self.arrival_count == 1 ==> {
            &&& self.total_delta_us == 0
            &&& self.min_delta_us == u64::MAX
            &&& self.max_delta_us == 0
        }
        &&& self.arrival_count > 1 ==> {
            &&& self.min_delta_us <= self.max_delta_us
            &&& self.min_delta_us * (self.arrival_count - 1) <= self.total_delta_us
            &&& self.total_delta_us <= self.max_delta_us * (self.arrival_count - 1)
        }
    }

    /// Whether an update can arrive at this time: the clock does not run backwards, and the
    /// updates can still be counted.
    pub open spec fn can_take(&self, arrival: u64) -> bool {
        &&& self.last_arrival matches Some(last) ==> last <= arrival
        &&& self.arrival_count < u64::MAX
    }

    /// The summary of what came so far.
    pub open spec fn summarized(&self) -> ArrivalSummary {
        ArrivalSummary {
            count: self.arrival_count,
            avg_delta_us: (self.total_delta_us as int / (self.arrival_count - 1)) as u64,
            min_delta_us: self.min_delta_us,
            max_delta_us: self.max_delta_us,
        }
    }

    /// The time since the last account update, if there was one.
    pub open spec fn delta(&self, arrival: u64) -> Option<u64> {
        match self.last_arrival {
            Some(last) => Some(elapsed_us(last, arrival)),
            None => None,
        }
    }

    /// The timing after one more account update.
    pub open spec fn advanced(&self, slot: u64, arrival: u64) -> ArrivalTracker {
        ArrivalTracker {
            last_arrival: Some(arrival),
            arrival_count: (self.arrival_count + 1) as u64,
            total_delta_us: match self.delta(arrival) {
                Some(delta) => (self.total_delta_us + delta) as u64,
                None => self.total_delta_us,
            },
            min_delta_us: match self.delta(arrival) {
                Some(delta) => if delta < self.min_delta_us {
                    delta
                } else {
                    self.min_delta_us
                },
                None => self.min_delta_us,
            },
            max_delta_us: match self.delta(arrival) {
                Some(delta) => if delta > self.max_delta_us {
                    delta
                } else {
                    self.max_delta_us
                },
                None => self.max_delta_us,
            },
            window: match self.window {
                Some(window) => if window.slot == slot {
                    Some(
                        SlotWindow {
                            slot,
                            first_arrival: window.first_arrival,
                            last_arrival: arrival,
                            update_count: (window.update_count + 1) as u64,
                        },
                    )
                } else {
                    Some(SlotWindow { slot, first_arrival: arrival, last_arrival: arrival, update_count: 1 })
                },
                None => Some(SlotWindow { slot, first_arrival: arrival, last_arrival: arrival, update_count: 1 }),
            },
        }
    }

    /// What the arrival of one more account update tells.
    pub open spec fn told(&self, slot: u64, arrival: u64) -> ArrivalReport {
        let count = self.arrival_count + 1;
        ArrivalReport {
            finished_slot: match self.window {
                Some(window) => if window.slot != slot {
                    Some(
                        SlotSpan {
                            span_us: elapsed_us(window.first_arrival, window.last_arrival),
                            update_count: window.update_count,
                        },
                    )
                } else {
                    None
                },
                None => None,
            },
            intra_slot_delta_us: match self.window {
                Some(window) => if window.slot == slot {
                    Some(elapsed_us(window.last_arrival, arrival))
                } else {
                    None
                },
                None => None,
            },
            delta_us: self.delta(arrival),
            summary: if count > 1 && count % SUMMARY_INTERVAL as int == 0 {
                Some(self.advanced(slot, arrival).summarized())
            } else {
                None
            },
        }
    }

    /// The timing before the first account update.
    pub(crate) fn new() -> (r: Self)
        ensures
            r == ArrivalTracker::fresh(),
            r.wf(),
            describes(r, Seq::empty()),
    {
        ArrivalTracker {
            last_arrival: None,
            arrival_count: 0,
            total_delta_us: 0,
            min_delta_us: u64::MAX,
            max_delta_us: 0,
            window: None,
        }
    }

    /// The summary of what came so far.
    fn summary(&self) -> (r: ArrivalSummary)
        requires
            self.arrival_count > 1,
        ensures
            r == self.summarized(),
    {
        ArrivalSummary {
            count: self.arrival_count,
            avg_delta_us: self.total_delta_us / (self.arrival_count - 1),
            min_delta_us: self.min_delta_us,
            max_delta_us: self.max_delta_us,
        }
    }

    /// The summary at the end of a stream, if there is any time between updates to tell of.
    pub(crate) fn final_summary(&self) -> (r: Option<ArrivalSummary>)
        ensures
            r == (if self.arrival_count > 1 {
                Some(self.summarized())
            } else {
                None
            }),
    {
        if self.arrival_count > 1 {
            Some(self.summary())
        } else {
            None
        }
    }

    /// Takes note of an account update.
    pub(crate) fn on_account_update(&mut self, slot: u64, arrival: u64) -> (r: ArrivalReport)
        requires
            old(self).wf(),
            old(self).can_take(arrival),
        ensures
            final(self).wf(),
            *final(self) == old(self).advanced(slot, arrival),
            r == old(self).told(slot, arrival),
    {
        let mut finished_slot: Option<SlotSpan> = None;
        let mut intra_slot_delta_us: Option<u64> = None;
        let window = match self.window {
            Some(window) => if window.slot == slot {
                intra_slot_delta_us = Some((arrival - window.last_arrival) / 1000);
                SlotWindow {
                    slot,
                    first_arrival: window.first_arrival,
                    last_arrival: arrival,
                    update_count: window.update_count + 1,
                }
            } else {
                finished_slot = Some(
                    SlotSpan {
                        span_us: (window.last_arrival - window.first_arrival) / 1000,
                        update_count: window.update_count,
                    },
                );
                SlotWindow { slot, first_arrival: arrival, last_arrival: arrival, update_count: 1 }
            },
            None => SlotWindow { slot, first_arrival: arrival, last_arrival: arrival, update_count: 1 },
        };
        self.window = Some(window);

        let mut delta_us: Option<u64> = None;
        if let Some(last_arrival) = self.last_arrival {
            let delta: u64 = (arrival - last_arrival) / 1000;
            self.total_delta_us = self.total_delta_us + delta;
            if delta < self.min_delta_us {
                self.min_delta_us = delta;
            }
            if delta > self.max_delta_us {
                self.max_delta_us = delta;
            }
            delta_us = Some(delta);
        }
        self.last_arrival = Some(arrival);
        self.arrival_count = self.arrival_count + 1;
        proof {
            if old(self).arrival_count > 0 {
                lemma_bounds_step(
                    old(self).arrival_count as int,
                    old(self).total_delta_us as int,
                    old(self).min_delta_us as int,
                    old(self).max_delta_us as int,
                    delta_us->0 as int,
                );
            }
        }

        let summary = if self.arrival_count > 1 && self.arrival_count % SUMMARY_INTERVAL == 0 {
            Some(self.summary())
        } else {
            None
        };
        ArrivalReport { finished_slot, intra_slot_delta_us, delta_us, summary }
    }
}

/// One more time keeps the total between the least and the greatest time, each taken as
/// often as there are times.
proof fn lemma_bounds_step(count: int, total: int, min: int, max: int, delta: int)
    requires
        count >= 1,
        delta >= 0,
        count == 1 ==> total == 0 && min == u64::MAX && max == 0 && delta <= u64::MAX,
        count > 1 ==> min <= max && min * (count - 1) <= total <= max * (count - 1),
    ensures
        ({
            let new_min = if delta < min { delta } else { min };
            let new_max = if delta > max { delta } else { max };
            new_min <= new_max && new_min * count <= total + delta && total + delta <= new_max * count
        }),
{
    let new_min = if delta < min { delta } else { min };
    let new_max = if delta > max { delta } else { max };
    if count == 1 {
        assert(new_min * count == new_min);
        assert(new_max * count == new_max);
    } else {
        assert(new_min * (count - 1) <= min * (count - 1)) by (nonlinear_arith)
            requires
                new_min <= min,
                count > 1,
        ;
        assert(max * (count - 1) <= new_max * (count - 1)) by (nonlinear_arith)
            requires
                max <= new_max,
                count > 1,
        ;
        assert(new_min * count == new_min * (count - 1) + new_min) by (nonlinear_arith);
        assert(new_max * count == new_max * (count - 1) + new_max) by (nonlinear_arith);
    }
}

/// The average time between account updates lies between the least and the greatest one.
pub proof fn law_average_is_between(tracker: ArrivalTracker)
    requires
        tracker.wf(),
        tracker.arrival_count > 1,
    ensures
        tracker.min_delta_us <= tracker.summarized().avg_delta_us <= tracker.max_delta_us,
{
    let gaps = tracker.arrival_count - 1;
    let total = tracker.total_delta_us as int;
    let min = tracker.min_delta_us as int;
    let max = tracker.max_delta_us as int;
    assert(min <= total / gaps <= max) by (nonlinear_arith)
        requires
            gaps > 0,
            min * gaps <= total,
            total <= max * gaps,
    ;
}

/// The account updates of a stream: the slot and the time of each.
pub struct Arrival {
    pub slot: u64,
    pub time: u64,
}

/// The sum of the times between updates, each in whole microseconds.
pub open spec fn total_delta(history: Seq<Arrival>) -> nat
    decreases history.len(),
{
    if history.len() < 2 {
        0
    } else {
        total_delta(history.drop_last()) + elapsed_us(history[history.len() - 2].time, history.last().time) as nat
    }
}

/// The number of updates at the end of a history that are of one slot.
pub open spec fn last_run(history: Seq<Arrival>) -> nat
    decreases history.len(),
{
    if history.len() == 0 {
        0
    } else if history.len() == 1 || history[history.len() - 2].slot != history.last().slot {
        1
    } else {
        last_run(history.drop_last()) + 1
    }
}

/// The timing is that of a history.
pub open spec fn describes(tracker: ArrivalTracker, history: Seq<Arrival>) -> bool {
    &&& tracker.arrival_count == history.len()
    &&& tracker.total_delta_us == total_delta(history)
    &&& forall|i: int|
        0 <= i < history.len() - 1 ==> tracker.min_delta_us <= #[trigger] elapsed_us(history[i].time, history[i + 1].time)
            <= tracker.max_delta_us
    &&& history.len() > 1 ==> exists|i: int|
        0 <= i < history.len() - 1 && tracker.min_delta_us == #[trigger] elapsed_us(history[i].time, history[i + 1].time)
    &&& history.len() > 1 ==> exists|i: int|
        0 <= i < history.len() - 1 && tracker.max_delta_us == #[trigger] elapsed_us(history[i].time, history[i + 1].time)
    &&& history.len() > 0 ==> {
        &&& tracker.last_arrival == Some(history.last().time)
        &&& tracker.window matches Some(window)
        &&& window.slot == history.last().slot
        &&& window.update_count == last_run(history)
        &&& 1 <= last_run(history) <= history.len()
        &&& window.first_arrival == history[history.len() - last_run(history)].time
    }
}

/// The timing describes the account updates that came: all of them, and none but them.
pub proof fn law_tracker_describes_history(tracker: ArrivalTracker, history: Seq<Arrival>, slot: u64, arrival: u64)
    requires
        tracker.wf(),
        tracker.can_take(arrival),
        describes(tracker, history),
    ensures
        describes(tracker.advanced(slot, arrival), history.push(Arrival { slot, time: arrival })),
{
    let longer = history.push(Arrival { slot, time: arrival });
    let after = tracker.advanced(slot, arrival);
    assert(longer.drop_last() =~= history);
    assert(longer.last() == (Arrival { slot, time: arrival }));
    if history.len() > 0 {
        let last = history.len() - 1;
        assert(longer[last] == history[last]);
        let delta = elapsed_us(longer[last].time, longer[last + 1].time);
        assert(tracker.delta(arrival) == Some(delta));
        assert forall|i: int| 0 <= i < longer.len() - 1 implies after.min_delta_us <= #[trigger] elapsed_us(
            longer[i].time,
            longer[i + 1].time,
        ) <= after.max_delta_us by {
            if i < last {
                assert(longer[i] == history[i] && longer[i + 1] == history[i + 1]);
                assert(tracker.min_delta_us <= elapsed_us(history[i].time, history[i + 1].time));
            }
        }
        if history.len() > 1 {
            let low = choose|i: int|
                0 <= i < history.len() - 1 && tracker.min_delta_us == #[trigger] elapsed_us(
                    history[i].time,
                    history[i + 1].time,
                );
            assert(longer[low] == history[low] && longer[low + 1] == history[low + 1]);
            let high = choose|i: int|
                0 <= i < history.len() - 1 && tracker.max_delta_us == #[trigger] elapsed_us(
                    history[i].time,
                    history[i + 1].time,
                );
            assert(longer[high] == history[high] && longer[high + 1] == history[high + 1]);
            assert(after.min_delta_us == elapsed_us(longer[low].time, longer[low + 1].time) || after.min_delta_us
                == delta);
            assert(after.max_delta_us == elapsed_us(longer[high].time, longer[high + 1].time) || after.max_delta_us
                == delta);
        } else {
            assert(after.min_delta_us == delta);
            assert(after.max_delta_us == delta);
        }
        assert(after.total_delta_us == tracker.total_delta_us + delta);
    }
}

} // verus!
