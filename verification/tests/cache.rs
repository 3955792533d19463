use flick_scan::cache::{scale_cost, Cache, CacheLoadStatus, CacheTimings, FileFingerprint, RollingSamples, StoredCache};
use flick_scan::pipeline::lint_source_at_path;
use flick_scan::lint::LintResult;

#[test]
fn prune_to_removes_missing_paths() {
    let file_a = String::from("a.ts");
    let file_b = String::from("b.ts");
    let mut cache = Cache::new("fingerprint");

    cache.upsert(
        file_a.clone(),
        FileFingerprint {
            size: 1,
            modified_ns: Some(1),
        },
        "hash-a".to_string(),
        LintResult {
            file: file_a.clone(),
            diagnostics: Vec::new(),
        },
    );
    cache.upsert(
        file_b.clone(),
        FileFingerprint {
            size: 1,
            modified_ns: Some(1),
        },
        "hash-b".to_string(),
        LintResult {
            file: file_b.clone(),
            diagnostics: Vec::new(),
        },
    );

    let live = vec![file_a.clone()];
    let changed = cache.prune_to(&live);

    assert!(changed);
    assert!(cache.get(&file_a).is_some());
    assert!(cache.get(&file_b).is_none());
}

#[test]
fn pruning_twice_changes_nothing_the_second_time() {
    let mut cache = Cache::new("fingerprint");
    for name in ["a.ts", "b.ts", "c.ts"] {
        cache.upsert(
            name.to_string(),
            FileFingerprint { size: 1, modified_ns: Some(1) },
            format!("hash-{name}"),
            LintResult { file: name.to_string(), diagnostics: Vec::new() },
        );
    }
    let live = vec!["c.ts".to_string(), "a.ts".to_string()];
    assert!(cache.prune_to(&live));
    assert!(!cache.prune_to(&live));
    assert!(cache.get("a.ts").is_some());
    assert!(cache.get("b.ts").is_none());
    assert!(cache.get("c.ts").is_some());
}

#[test]
fn hash_bytes_is_sha256_hex() {
    assert_eq!(
        flick_scan::cache::hash_bytes(b"abc"),
        "ba7816bf8f01cfea414140de5dae2223b00361a396177a9cb410ff61f20015ad"
    );
}

fn cache_with_demo(fingerprint: &str, source: &str) -> Cache {
    let mut cache = Cache::new(fingerprint);
    cache.upsert(
        "demo.ts".to_string(),
        FileFingerprint {
            size: source.len() as u64,
            modified_ns: Some(7),
        },
        flick_scan::cache::hash_bytes(source.as_bytes()),
        lint_source_at_path("demo.ts", source),
    );
    cache
}

#[test]
fn cache_round_trips_for_matching_fingerprint() {
    let cache = cache_with_demo("fingerprint-a", "const value: any = 1;\n");
    let (loaded, status) = Cache::from_stored(StoredCache::Parsed(cache), "fingerprint-a");
    assert_eq!(status, CacheLoadStatus::Loaded);
    assert_eq!(loaded.entries.len(), 1);
    assert_eq!(loaded.header.config_fingerprint, "fingerprint-a");
}

#[test]
fn cache_invalidates_on_fingerprint_change() {
    let cache = cache_with_demo("fingerprint-a", "const value = 1;\n");
    let (loaded, status) = Cache::from_stored(StoredCache::Parsed(cache), "fingerprint-b");
    assert_eq!(status, CacheLoadStatus::Invalidated);
    assert!(loaded.entries.is_empty());
    assert_eq!(loaded.header.config_fingerprint, "fingerprint-b");
}

#[test]
fn missing_and_unreadable_caches_start_empty() {
    let (missing, status) = Cache::from_stored(StoredCache::Missing, "fp");
    assert_eq!(status, CacheLoadStatus::Missing);
    assert!(missing.entries.is_empty());
    let (unreadable, status) = Cache::from_stored(StoredCache::Unreadable, "fp");
    assert_eq!(status, CacheLoadStatus::Invalidated);
    assert!(unreadable.entries.is_empty());
}

#[test]
fn stored_cache_with_repeated_path_keeps_last_entry() {
    let mut cache = cache_with_demo("fp", "let a = 1;\n");
    let mut again = cache.entries[0].clone();
    again.1.hash = "later".to_string();
    cache.entries.push(again);
    let (loaded, status) = Cache::from_stored(StoredCache::Parsed(cache), "fp");
    assert_eq!(status, CacheLoadStatus::Loaded);
    assert_eq!(loaded.entries.len(), 1);
    assert_eq!(loaded.get("demo.ts").unwrap().hash, "later");
}

#[test]
fn fresh_caches_have_no_timing_samples() {
    let mut cache = cache_with_demo("fp", "let a = 1;\n");
    cache.header.timings.load_ns.observe(5);
    cache.header.timings.lint_per_byte_ns.observe(9);
    let (loaded, status) = Cache::from_stored(StoredCache::Parsed(cache), "other");
    assert_eq!(status, CacheLoadStatus::Invalidated);
    let t = &loaded.header.timings;
    for series in [&t.load_ns, &t.save_ns, &t.stat_per_file_ns, &t.hash_per_byte_ns, &t.lint_per_byte_ns] {
        assert_eq!(series.count(), 0);
    }
    let (missing, _) = Cache::from_stored(StoredCache::Missing, "fp");
    assert_eq!(missing.header.timings.load_ns.count(), 0);
    assert_eq!(missing.header.schema_version, 4);
    assert_eq!(missing.header.logic_version, 1);
}

#[test]
fn upsert_reports_changes_only() {
    let mut cache = cache_with_demo("fp", "let a = 1;\n");
    let same = cache.entries[0].1.clone();
    assert!(!cache.upsert("demo.ts".to_string(), same.fingerprint, same.hash.clone(), same.result.clone()));
    assert!(cache.upsert("demo.ts".to_string(), same.fingerprint, "other".to_string(), same.result));
    assert_eq!(cache.entries.len(), 1);
}

#[test]
fn rolling_samples_keep_last_eight_and_skip_zero() {
    let mut samples = RollingSamples::new();
    samples.observe(0);
    assert_eq!(samples.count(), 0);
    assert_eq!(samples.median(), None);
    for v in 1..=10u64 {
        samples.observe(v);
    }
    assert_eq!(samples.values, vec![3, 4, 5, 6, 7, 8, 9, 10]);
    assert_eq!(samples.median(), Some(7));
}

#[test]
fn timings_predict_from_medians() {
    let mut timings = CacheTimings::new();
    assert!(!timings.ready_for_prediction());
    for _ in 0..3 {
        timings.record_load(100);
        timings.record_stat(1000, 10);
        timings.record_lint(500, 50);
    }
    timings.record_hash(40, 0);
    assert!(timings.ready_for_prediction());
    assert_eq!(timings.predict_load(), Some(100));
    assert_eq!(timings.predict_stat(4), Some(400));
    assert_eq!(timings.predict_lint(7), Some(70));
    assert_eq!(timings.predict_hash(7), None);
    assert_eq!(timings.predict_save(), None);
}

#[test]
fn scale_cost_saturates() {
    assert_eq!(scale_cost(0, 5), 0);
    assert_eq!(scale_cost(3, 5), 15);
    assert_eq!(scale_cost(u64::MAX, 2), u64::MAX);
}

#[test]
fn median_splits_the_samples() {
    let mut samples = RollingSamples::new();
    for v in [5u64, 1, 9, 3, 5, 0, 2] {
        samples.observe(v);
    }
    let m = samples.median().unwrap();
    assert_eq!(m, 5);
    let below = samples.values.iter().filter(|&&x| x < m).count();
    let at_or_below = samples.values.iter().filter(|&&x| x <= m).count();
    assert!(2 * below <= samples.values.len());
    assert!(2 * at_or_below > samples.values.len());
}
