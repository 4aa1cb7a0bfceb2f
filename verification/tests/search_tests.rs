use logradar::parse::{Level, LogEvent};
use logradar::pattern::PatternStore;
use logradar::search::fuzzy_search;

fn build_store(canonicals: &[&str]) -> PatternStore {
    let mut store = PatternStore::new();
    for &c in canonicals {
        let ev = LogEvent {
            level: Level::Info,
            source: "test".into(),
            raw: c.into(),
            normalized: c.into(),
        };
        store.ingest(&ev, 0);
    }
    store
}

#[test]
fn empty_query_returns_all() {
    let store = build_store(&["foo", "bar", "baz"]);
    let indices = store.sorted_indices();
    let results = fuzzy_search("", store.patterns(), &indices);
    assert_eq!(results.len(), 3);
}

#[test]
fn search_filters_non_matching() {
    let store = build_store(&["GET /api/users", "POST /api/orders", "DELETE /api/users"]);
    let indices = store.sorted_indices();
    let results = fuzzy_search("users", store.patterns(), &indices);
    assert_eq!(results.len(), 2);
    for r in &results {
        assert!(store.patterns()[r.index].canonical.contains("users"));
    }
}

#[test]
fn search_returns_matched_indices() {
    let store = build_store(&["hello world"]);
    let indices = store.sorted_indices();
    let results = fuzzy_search("hlo", store.patterns(), &indices);
    assert_eq!(results.len(), 1);
    assert!(!results[0].matched_indices.is_empty());
}

#[test]
fn search_scores_better_match_higher() {
    let store = build_store(&["ab_cd_ef", "abcdef"]);
    let indices = store.sorted_indices();
    let results = fuzzy_search("abcdef", store.patterns(), &indices);
    assert!(results.len() >= 1);
    // Exact or near-exact match should score highest
    let top = &results[0];
    assert!(store.patterns()[top.index].canonical.contains("abcdef"));
}

#[test]
fn no_match_returns_empty() {
    let store = build_store(&["GET /api/users"]);
    let indices = store.sorted_indices();
    let results = fuzzy_search("zzzzzzz", store.patterns(), &indices);
    assert!(results.is_empty());
}

#[test]
fn results_sorted_by_score_descending() {
    let store = build_store(&["abc def", "abcdef", "a b c d e f"]);
    let indices = store.sorted_indices();
    let results = fuzzy_search("abc", store.patterns(), &indices);
    for pair in results.windows(2) {
        assert!(pair[0].score >= pair[1].score);
    }
}
