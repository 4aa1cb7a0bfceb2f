use logradar::parse::{self, Level, LogEvent};
use logradar::pattern::{hash_str, PatternStore, Trend};

fn make_event(normalized: &str, raw: &str, level: Level) -> LogEvent {
    LogEvent {
        level,
        source: "test".into(),
        raw: raw.into(),
        normalized: normalized.into(),
    }
}

#[test]
fn ingest_creates_pattern() {
    let mut store = PatternStore::new();
    let ev = make_event("GET /api/<NUM>", "GET /api/42", Level::Info);
    store.ingest(&ev, 0);
    assert_eq!(store.len(), 1);
    assert_eq!(store.patterns()[0].count_total, 1);
    assert_eq!(store.patterns()[0].canonical, "GET /api/<NUM>");
}

#[test]
fn duplicate_normalized_clusters() {
    let mut store = PatternStore::new();
    let ev1 = make_event("GET /api/<NUM>", "GET /api/1", Level::Info);
    let ev2 = make_event("GET /api/<NUM>", "GET /api/2", Level::Info);
    let ev3 = make_event("GET /api/<NUM>", "GET /api/3", Level::Info);
    store.ingest(&ev1, 0);
    store.ingest(&ev2, 0);
    store.ingest(&ev3, 0);
    assert_eq!(store.len(), 1);
    assert_eq!(store.patterns()[0].count_total, 3);
}

#[test]
fn different_normalized_separate_patterns() {
    let mut store = PatternStore::new();
    let ev1 = make_event("GET /api/<NUM>", "GET /api/1", Level::Info);
    let ev2 = make_event("POST /api/<NUM>", "POST /api/1", Level::Info);
    store.ingest(&ev1, 0);
    store.ingest(&ev2, 0);
    assert_eq!(store.len(), 2);
}

#[test]
fn samples_capped_at_max() {
    let mut store = PatternStore::new();
    for i in 0..15 {
        let ev = make_event("pattern", &format!("raw {}", i), Level::Info);
        store.ingest(&ev, 0);
    }
    assert_eq!(store.patterns()[0].samples.len(), 10);
    assert_eq!(store.patterns()[0].samples.last().unwrap(), "raw 14");
}

#[test]
fn eleventh_sample_drops_first() {
    let mut store = PatternStore::new();
    for i in 0..11 {
        let ev = make_event("pattern", &format!("raw {}", i), Level::Info);
        store.ingest(&ev, 0);
    }
    let p = &store.patterns()[0];
    assert_eq!(p.samples.len(), 10);
    assert_eq!(p.samples.first().unwrap(), "raw 1");
    assert_eq!(p.samples.last().unwrap(), "raw 10");
}

#[test]
fn level_escalates() {
    let mut store = PatternStore::new();
    let ev1 = make_event("same", "info line", Level::Info);
    let ev2 = make_event("same", "error line", Level::Error);
    store.ingest(&ev1, 0);
    store.ingest(&ev2, 0);
    assert_eq!(store.patterns()[0].level, Level::Error);
}

#[test]
fn level_never_drops_back() {
    let mut store = PatternStore::new();
    store.ingest(&make_event("same", "error line", Level::Error), 0);
    store.ingest(&make_event("same", "debug line", Level::Debug), 0);
    assert_eq!(store.patterns()[0].level, Level::Error);
}

#[test]
fn rate_1m_counts_events() {
    let mut store = PatternStore::new();
    for _ in 0..5 {
        let ev = make_event("p", "r", Level::Info);
        store.ingest(&ev, 0);
    }
    assert_eq!(store.patterns()[0].rate_1m(), 5);
}

#[test]
fn clear_counters_resets() {
    let mut store = PatternStore::new();
    let ev = make_event("p", "r", Level::Info);
    store.ingest(&ev, 0);
    store.ingest(&ev, 0);
    store.clear_counters(0);
    assert_eq!(store.patterns()[0].count_total, 0);
    assert_eq!(store.patterns()[0].rate_1m(), 0);
}

#[test]
fn clear_counters_preserves_identity() {
    let mut store = PatternStore::new();
    store.ingest(&make_event("sig", "sample", Level::Warn), 7);
    store.clear_counters(1_000);
    let p = &store.patterns()[0];
    assert_eq!(p.canonical, "sig");
    assert_eq!(p.level, Level::Warn);
    assert_eq!(p.samples.len(), 1);
    assert_eq!(p.first_seen, 7);
    assert_eq!(p.last_seen, 7);
    assert_eq!(p.sources, vec!["test".to_string()]);
    assert_eq!(p.count_total, 0);
    assert_eq!(p.timestamps_1m.len(), 0);
    assert_eq!(p.timestamps_5m.len(), 0);
    assert_eq!(p.sparkline_buckets.len(), 0);
    assert_eq!(p.current_bucket_count, 0);
    assert_eq!(p.trend, Trend::Stable);
    assert!(!p.spike);
}

#[test]
fn reset_clears_all() {
    let mut store = PatternStore::new();
    let ev = make_event("p", "r", Level::Info);
    store.ingest(&ev, 0);
    store.reset();
    assert_eq!(store.len(), 0);
}

#[test]
fn sorted_indices_by_rate() {
    let mut store = PatternStore::new();
    // Pattern A: 1 event
    store.ingest(&make_event("A", "a", Level::Info), 0);
    // Pattern B: 3 events
    for _ in 0..3 {
        store.ingest(&make_event("B", "b", Level::Info), 0);
    }
    let sorted = store.sorted_indices();
    // B should come first (higher rate)
    assert_eq!(store.patterns()[sorted[0]].canonical, "B");
    assert_eq!(store.patterns()[sorted[1]].canonical, "A");
}

#[test]
fn sparkline_accumulates_in_current_bucket() {
    let mut store = PatternStore::new();
    for _ in 0..5 {
        store.ingest(&make_event("p", "r", Level::Info), 0);
    }
    let p = &store.patterns()[0];
    // All 5 events should be in current_bucket_count (not yet committed)
    assert_eq!(p.current_bucket_count, 5);
    // No completed buckets yet (haven't ticked past a bucket interval)
    assert_eq!(p.sparkline_buckets.len(), 0);
}

#[test]
fn integration_with_parse() {
    let mut store = PatternStore::new();
    let ev = parse::parse_line(
        "src",
        "2025-01-01T00:00:00Z [ERROR] timeout from 10.0.0.1 after 500ms",
    );
    store.ingest(&ev, 0);
    assert_eq!(store.len(), 1);
    let p = &store.patterns()[0];
    assert_eq!(p.level, Level::Error);
    assert!(p.canonical.contains("<TS>"));
    assert!(p.canonical.contains("<IP>"));
    assert!(p.canonical.contains("<DUR>"));
}

#[test]
fn idle_pattern_rate_drops_to_zero_after_tick() {
    let mut store = PatternStore::new();
    store.ingest(&make_event("p", "r", Level::Info), 0);
    assert_eq!(store.patterns()[0].rate_1m(), 1);
    // more than a minute of silence, then the next tick
    store.tick(61_000);
    assert_eq!(store.patterns()[0].rate_1m(), 0);
}

#[test]
fn tick_prunes_only_stale_timestamps() {
    let mut store = PatternStore::new();
    store.ingest(&make_event("p", "r1", Level::Info), 0);
    store.ingest(&make_event("p", "r2", Level::Info), 55_000);
    store.tick(61_000);
    // the event at 0 is 61 s old and leaves; the one at 55 s stays
    assert_eq!(store.patterns()[0].rate_1m(), 1);
    assert_eq!(store.patterns()[0].window_5m_len(), 2);
}

#[test]
fn spike_needs_rate_and_volume() {
    // eleven events in a burst: count_total > 10 and the whole five-minute
    // window sits inside the last minute, so r1 > 3 * r5 holds
    let mut store = PatternStore::new();
    for _ in 0..11 {
        store.ingest(&make_event("p", "r", Level::Info), 0);
    }
    store.tick(1_000);
    assert!(store.patterns()[0].spike);
    assert_eq!(store.patterns()[0].trend, Trend::Up);

    // ten events only: the rate burst is there but the volume is not
    let mut quiet = PatternStore::new();
    for _ in 0..10 {
        quiet.ingest(&make_event("p", "r", Level::Info), 0);
    }
    quiet.tick(1_000);
    assert!(!quiet.patterns()[0].spike);
}

#[test]
fn sparkline_advances_through_idle_ticks() {
    let mut store = PatternStore::new();
    for _ in 0..3 {
        store.ingest(&make_event("p", "r", Level::Info), 0);
    }
    // ticks every 50 ms for 30 s of idle time
    let mut t: u64 = 0;
    while t <= 30_000 {
        store.tick(t);
        t += 50;
    }
    let p = &store.patterns()[0];
    assert_eq!(p.current_bucket_count, 0);
    assert_eq!(p.sparkline_buckets, vec![3, 0, 0, 0, 0, 0]);
}

#[test]
fn hash_is_stable_and_separates_signatures() {
    assert_eq!(hash_str("GET /u/<NUM>"), hash_str("GET /u/<NUM>"));
    assert_ne!(hash_str("GET /u/<NUM>"), hash_str("POST /u/<NUM>"));
    assert_ne!(hash_str(""), hash_str(" "));
}

#[test]
fn trend_symbols() {
    assert_eq!(Trend::Up.symbol(), "↑");
    assert_eq!(Trend::Down.symbol(), "↓");
    assert_eq!(Trend::Stable.symbol(), "→");
}
