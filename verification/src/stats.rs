//! What the firehose says of its own progress.
//!
//! The counts are kept in gauges. A gauge holds a double-precision number: of a count it
//! keeps 53 significant bits, and rounds to the nearest such number, on a tie to the even
//! one.
use vstd::prelude::*;

verus! {

/// The first count that may not fit the 53 bits of a gauge.
pub const GAUGE_LIMIT: u64 = 0x20_0000_0000_0000;

/// The distance between the numbers that a gauge can hold about a count.
pub open spec fn spacing_of(n: nat) -> nat
    decreases n,
{
    if n < GAUGE_LIMIT {
        1
    } else {
        2 * spacing_of(n / 2)
    }
}

/// The multiple of a spacing that is nearest to a count; of two that are as near, the even
/// multiple.
pub open spec fn nearest_multiple(n: nat, spacing: nat) -> nat {
    let below = n / spacing;
    let rest = n % spacing;
    if 2 * rest > spacing || (2 * rest == spacing && below % 2 == 1) {
        (below + 1) * spacing
    } else {
        below * spacing
    }
}

/// The count that is read back from a gauge after this count was put into it; the greatest
/// count, where the gauge holds more than that.
pub open spec fn gauge_value(n: u64) -> u64 {
    let held = nearest_multiple(n as nat, spacing_of(n as nat));
    if held > u64::MAX {
        u64::MAX
    } else {
        held as u64
    }
}

/// Where the spacing of a count lies: the count has 53 bits in units of its spacing.
proof fn lemma_spacing_bounds(n: nat)
    ensures
        spacing_of(n) >= 1,
        n < GAUGE_LIMIT * spacing_of(n),
        spacing_of(n) > 1 ==> 2 * n >= GAUGE_LIMIT * spacing_of(n),
    decreases n,
{
    if n >= GAUGE_LIMIT {
        lemma_spacing_bounds(n / 2);
    }
}

/// Counts with as many bits have the same spacing.
proof fn lemma_same_spacing(n: nat, p: nat)
    requires
        p < GAUGE_LIMIT * spacing_of(n),
        2 * p >= GAUGE_LIMIT * spacing_of(n),
    ensures
        spacing_of(p) == spacing_of(n),
    decreases n,
{
    if n >= GAUGE_LIMIT {
        lemma_spacing_bounds(n / 2);
        lemma_same_spacing(n / 2, p / 2);
    }
}

/// A multiple of its own spacing is its own nearest multiple.
proof fn lemma_multiple_is_nearest(k: nat, spacing: nat)
    requires
        spacing >= 1,
    ensures
        nearest_multiple(k * spacing, spacing) == k * spacing,
        (k * spacing) / spacing == k,
        (k * spacing) % spacing == 0,
{
    vstd::arithmetic::div_mod::lemma_div_multiples_vanish(k as int, spacing as int);
    vstd::arithmetic::div_mod::lemma_mod_multiples_basic(k as int, spacing as int);
    assert((k * spacing) / spacing == k) by (nonlinear_arith)
        requires
            spacing >= 1,
    ;
}

/// A count lies between two multiples of its spacing, of which a gauge holds one.
proof fn lemma_nearest_between(n: nat, spacing: nat)
    requires
        spacing >= 1,
    ensures
        (n / spacing) * spacing <= n < (n / spacing + 1) * spacing,
        nearest_multiple(n, spacing) == (n / spacing) * spacing || nearest_multiple(n, spacing) == (n / spacing + 1)
            * spacing,
        (n / spacing) * spacing <= nearest_multiple(n, spacing),
        n % spacing == 0 ==> (n / spacing) * spacing == n,
{
    vstd::arithmetic::div_mod::lemma_fundamental_div_mod(n as int, spacing as int);
    let below = n / spacing;
    assert(spacing * below == below * spacing) by (nonlinear_arith);
    assert((below + 1) * spacing == below * spacing + spacing) by (nonlinear_arith);
    assert(0 <= n % spacing < spacing);
}

/// A count of 53 bits is held as it is.
pub proof fn law_small_counts_are_exact(n: u64)
    requires
        n <= GAUGE_LIMIT,
    ensures
        gauge_value(n) == n,
{
    if n < GAUGE_LIMIT {
        lemma_multiple_is_nearest(n as nat, 1);
    } else {
        assert(spacing_of(GAUGE_LIMIT as nat / 2) == 1);
        lemma_multiple_is_nearest(GAUGE_LIMIT as nat / 2, 2);
    }
}

/// What a gauge holds it holds again: to put back what was read changes nothing.
pub proof fn law_gauge_is_stable(n: u64)
    ensures
        gauge_value(gauge_value(n)) == gauge_value(n),
{
    let s = spacing_of(n as nat);
    let below = n as nat / s;
    let held = nearest_multiple(n as nat, s);
    lemma_spacing_bounds(n as nat);
    lemma_nearest_between(n as nat, s);
    if held > u64::MAX {
        let top = u64::MAX as nat;
        assert(spacing_of(top) == 2048) by {
            reveal_with_fuel(spacing_of, 12);
        }
    } else {
        let k: nat = if held == below * s {
            below
        } else {
            below + 1
        };
        assert(held == k * s);
        assert(below < GAUGE_LIMIT) by (nonlinear_arith)
            requires
                below * s <= n,
                n < GAUGE_LIMIT * s,
                s >= 1,
        ;
        if s > 1 {
            assert(2 * (below + 1) > GAUGE_LIMIT) by (nonlinear_arith)
                requires
                    n < (below + 1) * s,
                    2 * n >= GAUGE_LIMIT * s,
                    s >= 1,
            ;
            assert(2 * below >= GAUGE_LIMIT);
        }
        if k < GAUGE_LIMIT {
            assert(held < GAUGE_LIMIT * s) by (nonlinear_arith)
                requires
                    held == k * s,
                    k < GAUGE_LIMIT,
                    s >= 1,
            ;
            if s > 1 {
                assert(2 * held >= GAUGE_LIMIT * s) by (nonlinear_arith)
                    requires
                        held == k * s,
                        2 * k >= GAUGE_LIMIT,
                ;
                lemma_same_spacing(n as nat, held);
            }
            assert(spacing_of(held) == s);
            lemma_multiple_is_nearest(k, s);
        } else {
            let twice = 2 * n as nat;
            assert(twice / 2 == n);
            assert(n >= GAUGE_LIMIT - 1) by (nonlinear_arith)
                requires
                    below * s <= n,
                    below + 1 >= GAUGE_LIMIT,
                    s >= 1,
            ;
            assert(spacing_of(twice) == 2 * s);
            assert(held == GAUGE_LIMIT * s) by (nonlinear_arith)
                requires
                    held == k * s,
                    k == GAUGE_LIMIT,
            ;
            lemma_same_spacing(twice, held);
            let half = GAUGE_LIMIT as nat / 2;
            assert(half * (2 * s) == held) by (nonlinear_arith)
                requires
                    held == GAUGE_LIMIT * s,
                    2 * half == GAUGE_LIMIT,
            ;
            lemma_multiple_is_nearest(half, 2 * s);
        }
    }
}

/// A gauge does not fall below a number that it can hold when a greater count is put into it.
pub proof fn law_gauge_keeps_order(p: u64, n: u64)
    requires
        gauge_value(p) == p,
        p <= n,
    ensures
        p <= gauge_value(n),
{
    let s = spacing_of(n as nat);
    let below = n as nat / s;
    lemma_spacing_bounds(n as nat);
    lemma_nearest_between(n as nat, s);
    if p > below * s {
        if s == 1 {
            assert(below * s == n);
        } else {
            assert(2 * (below + 1) > GAUGE_LIMIT) by (nonlinear_arith)
                requires
                    n < (below + 1) * s,
                    2 * n >= GAUGE_LIMIT * s,
                    s >= 1,
            ;
            assert(2 * p >= GAUGE_LIMIT * s) by (nonlinear_arith)
                requires
                    p > below * s,
                    2 * below >= GAUGE_LIMIT,
                    s >= 1,
            ;
            lemma_same_spacing(n as nat, p as nat);
            lemma_nearest_between(p as nat, s);
            if nearest_multiple(p as nat, s) <= u64::MAX {
                let k: nat = if p == (p as nat / s) * s {
                    p as nat / s
                } else {
                    p as nat / s + 1
                };
                assert(p == k * s);
                assert(below < k < below + 1) by (nonlinear_arith)
                    requires
                        below * s < k * s,
                        k * s < (below + 1) * s,
                        s >= 1,
                ;
            }
        }
    }
}

/// The count that is read back from a gauge.
pub fn through_gauge(n: u64) -> (r: u64)
    ensures
        r == gauge_value(n),
{
    let mut units: u64 = n;
    let mut spacing: u64 = 1;
    while units >= GAUGE_LIMIT
        invariant
            units * spacing <= n,
            1 <= spacing,
            spacing_of(n as nat) == spacing * spacing_of(units as nat),
        decreases units,
    {
        assert(spacing <= 2048) by (nonlinear_arith)
            requires
                units * spacing <= n,
                units >= GAUGE_LIMIT,
                n <= u64::MAX,
        ;
        assert((units / 2) * (2 * spacing) <= units * spacing) by (nonlinear_arith)
            requires
                spacing >= 1,
        ;
        assert(spacing * (2 * spacing_of((units / 2) as nat)) == (2 * spacing) * spacing_of((units / 2) as nat))
            by (nonlinear_arith);
        units = units / 2;
        spacing = 2 * spacing;
    }
    assert(spacing_of(n as nat) == spacing) by {
        assert(spacing_of(units as nat) == 1);
        assert(spacing * 1 == spacing) by (nonlinear_arith);
    }
    proof {
        lemma_spacing_bounds(n as nat);
        lemma_nearest_between(n as nat, spacing as nat);
        assert(spacing <= 4096) by (nonlinear_arith)
            requires
                spacing > 1 ==> 2 * n >= GAUGE_LIMIT * spacing,
                n <= u64::MAX,
        ;
        assert((n / spacing + 1) * spacing == (n / spacing) * spacing + spacing) by (nonlinear_arith);
    }
    let below: u64 = n / spacing;
    let rest: u64 = n % spacing;
    assert(below < u64::MAX) by {
        if spacing == 1 {
            assert(n < GAUGE_LIMIT);
        } else {
            assert(below < u64::MAX) by (nonlinear_arith)
                requires
                    below * spacing <= n,
                    spacing >= 2,
                    n <= u64::MAX,
            ;
        }
    }
    let rounded: u64 = if 2 * rest > spacing || (2 * rest == spacing && below % 2 == 1) {
        below + 1
    } else {
        below
    };
    match rounded.checked_mul(spacing) {
        Some(held) => held,
        None => u64::MAX,
    }
}

/// The counts of the firehose, as the gauges hold them.
#[derive(Debug, Clone, Copy, PartialEq, Eq, Structural)]
pub struct JetstreamerInternalStats {
    pub slots_processed: u64,
    pub blocks_processed: u64,
    pub transactions_processed: u64,
    pub slot_high_watermark: u64,
}

/// The counts of the firehose at one time.
#[derive(Debug, Clone, Copy, PartialEq, Eq, Structural)]
pub struct JetstreamerStatsSnapshot {
    pub slots_processed: u64,
    pub blocks_processed: u64,
    pub transactions_processed: u64,
    pub slot_high_watermark: u64,
}

/// What the firehose says of its progress.
#[derive(Debug, Clone, Copy, PartialEq, Eq, Structural)]
pub struct Stats {
    pub slots_processed: u64,
    pub blocks_processed: u64,
    pub transactions_processed: u64,
    /// The slot that the reporting thread is at.
    pub current_slot: u64,
}

impl JetstreamerInternalStats {
    /// The gauges hold what gauges can hold.
    pub open spec fn wf(&self) -> bool {
        &&& gauge_value(self.slots_processed) == self.slots_processed
        &&& gauge_value(self.blocks_processed) == self.blocks_processed
        &&& gauge_value(self.transactions_processed) == self.transactions_processed
        &&& gauge_value(self.slot_high_watermark) == self.slot_high_watermark
    }

    /// All counts are zero.
    pub open spec fn zero() -> JetstreamerInternalStats {
        JetstreamerInternalStats {
            slots_processed: 0,
            blocks_processed: 0,
            transactions_processed: 0,
            slot_high_watermark: 0,
        }
    }

    /// The counts after the firehose told of its progress.
    pub open spec fn after(&self, stats: Stats) -> JetstreamerInternalStats {
        JetstreamerInternalStats {
            slots_processed: gauge_value(stats.slots_processed),
            blocks_processed: gauge_value(stats.blocks_processed),
            transactions_processed: gauge_value(stats.transactions_processed),
            slot_high_watermark: gauge_value(
                if self.slot_high_watermark > stats.current_slot {
                    self.slot_high_watermark
                } else {
                    stats.current_slot
                },
            ),
        }
    }

    /// All counts are zero.
    pub fn new() -> (r: Self)
        ensures
            r == JetstreamerInternalStats::zero(),
            r.wf(),
    {
        proof {
            law_small_counts_are_exact(0);
        }
        JetstreamerInternalStats {
            slots_processed: 0,
            blocks_processed: 0,
            transactions_processed: 0,
            slot_high_watermark: 0,
        }
    }

    /// Takes note of what the firehose says of its progress. The highest slot is that of all
    /// threads and of all reports.
    pub fn record(&mut self, stats: Stats)
        ensures
            *final(self) == old(self).after(stats),
            final(self).wf(),
    {
        proof {
            law_gauge_is_stable(stats.slots_processed);
            law_gauge_is_stable(stats.blocks_processed);
            law_gauge_is_stable(stats.transactions_processed);
            law_gauge_is_stable(stats.current_slot);
            law_gauge_is_stable(self.slot_high_watermark);
        }
        self.slots_processed = through_gauge(stats.slots_processed);
        self.blocks_processed = through_gauge(stats.blocks_processed);
        self.transactions_processed = through_gauge(stats.transactions_processed);
        let watermark: u64 = if self.slot_high_watermark > stats.current_slot {
            self.slot_high_watermark
        } else {
            stats.current_slot
        };
        self.slot_high_watermark = through_gauge(watermark);
    }
}

/// Sets all counts to zero.
pub fn reset_jetstreamer_internal_stats(stats: &mut JetstreamerInternalStats)
    ensures
        *final(stats) == JetstreamerInternalStats::zero(),
        final(stats).wf(),
{
    *stats = JetstreamerInternalStats::new();
}

/// The counts of the firehose now.
pub fn jetstreamer_internal_stats_snapshot(stats: &JetstreamerInternalStats) -> (r: JetstreamerStatsSnapshot)
    ensures
        r.slots_processed == stats.slots_processed,
        r.blocks_processed == stats.blocks_processed,
        r.transactions_processed == stats.transactions_processed,
        r.slot_high_watermark == stats.slot_high_watermark,
{
    JetstreamerStatsSnapshot {
        slots_processed: stats.slots_processed,
        blocks_processed: stats.blocks_processed,
        transactions_processed: stats.transactions_processed,
        slot_high_watermark: stats.slot_high_watermark,
    }
}

/// The highest slot never falls, and with slots of 53 bits it is the highest that was told.
pub proof fn law_watermark_never_falls(before: JetstreamerInternalStats, stats: Stats)
    requires
        before.wf(),
    ensures
        before.after(stats).slot_high_watermark >= before.slot_high_watermark,
        stats.current_slot <= GAUGE_LIMIT ==> before.after(stats).slot_high_watermark >= stats.current_slot,
        stats.current_slot <= GAUGE_LIMIT ==> before.after(stats).slot_high_watermark == before.slot_high_watermark
            || before.after(stats).slot_high_watermark == stats.current_slot,
{
    if before.slot_high_watermark <= stats.current_slot {
        law_gauge_keeps_order(before.slot_high_watermark, stats.current_slot);
    }
    if stats.current_slot <= GAUGE_LIMIT {
        law_small_counts_are_exact(stats.current_slot);
    }
}

} // verus!
