use target_cleaner::target::{DEFAULT_AGE_SECS, ENTRY_COUNT_CAP, ESTIMATE_THRESHOLD, TIMESTAMP_SAMPLE};
use target_cleaner::{
    estimate_directory_size, last_used_time, SizeTally, TargetError, TargetFinder, TargetInfo,
};

const DAY: u64 = 24 * 60 * 60;

fn info(last: u64) -> TargetInfo {
    TargetInfo { path: "/p/target".to_string(), size_bytes: 1, last_accessed: last, is_stale: false }
}

#[test]
fn constants_are_documented_values() {
    assert_eq!(ESTIMATE_THRESHOLD, 10_000);
    assert_eq!(ENTRY_COUNT_CAP, 100_000);
    assert_eq!(TIMESTAMP_SAMPLE, 100);
    assert_eq!(DEFAULT_AGE_SECS, 30 * DAY);
}

#[test]
fn size_is_exact_sum_up_to_threshold() {
    assert_eq!(estimate_directory_size(&vec![], 7), 0);
    assert_eq!(estimate_directory_size(&vec![10, 20, 30], 99), 60);
    let sizes = vec![3u64; 10_000];
    assert_eq!(estimate_directory_size(&sizes, 1), 30_000);
}

#[test]
fn size_is_estimated_past_threshold() {
    let mut sizes = vec![10u64; 10_001];
    sizes.push(1_000_000);
    assert_eq!(estimate_directory_size(&sizes, 5), 50);
}

#[test]
fn estimate_uses_integer_mean() {
    let mut sizes = vec![0u64; 10_000];
    sizes.push(30_003);
    // mean over 10,001 files is 3
    assert_eq!(estimate_directory_size(&sizes, 4), 12);
}

#[test]
fn estimate_caps_entry_count() {
    let sizes = vec![2u64; 10_001];
    assert_eq!(estimate_directory_size(&sizes, 250_000), 200_000);
    assert_eq!(estimate_directory_size(&sizes, 100_000), 200_000);
}

#[test]
fn size_saturates() {
    assert_eq!(estimate_directory_size(&vec![u64::MAX, 1], 0), u64::MAX);
    let sizes = vec![u64::MAX; 10_001];
    assert_eq!(estimate_directory_size(&sizes, 2), u64::MAX);
}

#[test]
fn tally_reports_passing_threshold() {
    let mut t = SizeTally::new();
    for _ in 0..10_000 {
        assert!(!t.record_file(4));
    }
    assert_eq!(t.exact(), 40_000);
    assert!(t.record_file(4));
    assert_eq!(t.estimate(3), 12);
}

#[test]
fn last_used_is_oldest_sample() {
    let r = last_used_time(1000, &vec![Some(900), None, Some(500), Some(2000)], 5000);
    assert_eq!(r, 500);
}

#[test]
fn last_used_keeps_directory_time_when_files_are_newer() {
    let r = last_used_time(1000, &vec![Some(1500), Some(3000)], 5000);
    assert_eq!(r, 1000);
}

#[test]
fn last_used_defaults_to_thirty_days_ago() {
    let now = 100 * DAY;
    assert_eq!(last_used_time(1000, &vec![], now), now - 30 * DAY);
    assert_eq!(last_used_time(1000, &vec![None, None], now), now - 30 * DAY);
    assert_eq!(last_used_time(1000, &vec![], 5), 0);
}

#[test]
fn last_used_samples_only_first_hundred() {
    let mut samples = vec![Some(800u64); 100];
    samples.push(Some(1));
    assert_eq!(last_used_time(1000, &samples, 5000), 800);
}

#[test]
fn stale_when_age_reaches_threshold() {
    let t = info(1000);
    assert!(!TargetFinder::is_stale(&t, 7 * DAY, 1000 + 7 * DAY - 1));
    assert!(TargetFinder::is_stale(&t, 7 * DAY, 1000 + 7 * DAY));
    assert!(TargetFinder::is_stale(&t, 7 * DAY, 1000 + 8 * DAY));
}

#[test]
fn staleness_is_monotonic_in_time() {
    let t = info(50 * DAY);
    let mut was_stale = false;
    for d in 40..80 {
        let s = TargetFinder::is_stale(&t, 7 * DAY, d * DAY);
        assert!(!was_stale || s);
        was_stale = s;
    }
    assert!(was_stale);
}

#[test]
fn future_last_use_is_not_stale() {
    let t = info(10 * DAY);
    assert!(!TargetFinder::is_stale(&t, 1, 5 * DAY));
    assert!(TargetFinder::is_stale(&t, 0, 5 * DAY));
}

#[test]
fn update_sets_only_the_flag() {
    let mut t = info(0);
    TargetFinder::update_stale_status(&mut t, 7 * DAY, 10 * DAY);
    assert!(t.is_stale);
    assert_eq!(t.last_accessed, 0);
    assert_eq!(t.size_bytes, 1);
    TargetFinder::update_stale_status(&mut t, 11 * DAY, 10 * DAY);
    assert!(!t.is_stale);
}

#[test]
fn find_target_info_present() {
    let t = TargetFinder::find_target_info("/w/p", true, 2048, 77).ok().unwrap();
    assert_eq!(t.path, "/w/p/target");
    assert_eq!(t.size_bytes, 2048);
    assert_eq!(t.last_accessed, 77);
    assert!(!t.is_stale);
}

#[test]
fn find_target_info_missing() {
    match TargetFinder::find_target_info("/w/p", false, 0, 0) {
        Err(TargetError::NotFound(p)) => assert_eq!(p, "/w/p/target"),
        Ok(_) => panic!("expected NotFound"),
    }
}
