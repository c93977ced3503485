use carbon_datasources::jetstreamer::JetstreamerDatasource;
use carbon_datasources::keys::PubkeySet;
use carbon_datasources::stats::{
    jetstreamer_internal_stats_snapshot, reset_jetstreamer_internal_stats, through_gauge, JetstreamerInternalStats,
    Stats, GAUGE_LIMIT,
};

type AnyFilter = fn(&PubkeySet, bool, bool) -> bool;

fn stats(current_slot: u64) -> Stats {
    Stats { slots_processed: 1, blocks_processed: 2, transactions_processed: 3, current_slot }
}

#[test]
fn a_gauge_rounds_as_a_double_does() {
    let limit = GAUGE_LIMIT;
    assert_eq!(limit, 1 << 53);
    let mut counts = vec![0, 1, 2, 12_345, u64::MAX, u64::MAX - 1, u64::MAX - 1023, u64::MAX - 1024, u64::MAX - 3071];
    for shift in 52..64 {
        let base = 1u64 << shift;
        for offset in 0..6 {
            counts.push(base + offset);
            counts.push(base - offset);
            counts.push(base + (base >> 53) * offset + (base >> 54));
            counts.push(base + (base >> 52) * 3 + (base >> 53));
        }
    }
    for count in counts {
        assert_eq!(through_gauge(count), (count as f64).max(0.0) as u64, "{count}");
    }
}

#[test]
fn a_gauge_is_exact_up_to_its_limit_and_not_beyond() {
    assert_eq!(through_gauge(GAUGE_LIMIT - 1), GAUGE_LIMIT - 1);
    assert_eq!(through_gauge(GAUGE_LIMIT), GAUGE_LIMIT);
    assert_eq!(through_gauge(GAUGE_LIMIT + 1), GAUGE_LIMIT);
    assert_eq!(through_gauge(GAUGE_LIMIT + 3), GAUGE_LIMIT + 4);
}

#[test]
fn what_a_gauge_holds_it_holds_again() {
    for count in [0, GAUGE_LIMIT + 1, u64::MAX, u64::MAX / 3] {
        let held = through_gauge(count);
        assert_eq!(through_gauge(held), held);
    }
}

#[test]
fn a_snapshot_shows_the_last_report() {
    let mut internal = JetstreamerInternalStats::new();
    JetstreamerDatasource::<AnyFilter>::on_stats(stats(42), &mut internal);
    let snapshot = jetstreamer_internal_stats_snapshot(&internal);
    assert_eq!(snapshot.slots_processed, 1);
    assert_eq!(snapshot.blocks_processed, 2);
    assert_eq!(snapshot.transactions_processed, 3);
    assert_eq!(snapshot.slot_high_watermark, 42);
}

#[test]
fn the_highest_slot_never_falls() {
    let mut internal = JetstreamerInternalStats::new();
    for (slot, highest) in [(5, 5), (3, 5), (9, 9), (9, 9), (8, 9)] {
        JetstreamerDatasource::<AnyFilter>::on_stats(stats(slot), &mut internal);
        assert_eq!(jetstreamer_internal_stats_snapshot(&internal).slot_high_watermark, highest);
    }
}

#[test]
fn a_reset_sets_all_counts_to_zero() {
    let mut internal = JetstreamerInternalStats::new();
    JetstreamerDatasource::<AnyFilter>::on_stats(stats(42), &mut internal);
    reset_jetstreamer_internal_stats(&mut internal);
    assert_eq!(internal, JetstreamerInternalStats::new());
    assert_eq!(jetstreamer_internal_stats_snapshot(&internal).slot_high_watermark, 0);
}
