use target_cleaner::{DeleteOutcome, RustProject, TargetCleaner, TargetInfo};

fn project(name: &str, size: Option<u64>) -> RustProject {
    RustProject {
        path: format!("/w/{}", name),
        name: name.to_string(),
        target_info: size.map(|s| TargetInfo {
            path: format!("/w/{}/target", name),
            size_bytes: s,
            last_accessed: 0,
            is_stale: false,
        }),
    }
}

fn skipped(n: usize) -> Vec<DeleteOutcome> {
    (0..n).map(|_| DeleteOutcome::Skipped).collect()
}

#[test]
fn dry_run_counts_selected_sizes() {
    let ps = vec![project("a", Some(10)), project("b", Some(2048)), project("c", None)];
    let r = TargetCleaner::clean_selected_projects(&ps, &vec![true, true, true], true, &skipped(3));
    assert_eq!(r.total_freed, 2058);
    assert!(r.errors.is_empty());
    assert!(TargetCleaner::pending_deletions(&ps, &vec![true, true, true], true).is_empty());
}

#[test]
fn unselected_projects_are_left_alone() {
    let ps = vec![project("a", Some(10)), project("b", Some(20))];
    let r = TargetCleaner::clean_selected_projects(&ps, &vec![false, true], true, &skipped(2));
    assert_eq!(r.total_freed, 20);
    assert_eq!(TargetCleaner::pending_deletions(&ps, &vec![false, true], false), vec![1]);
}

#[test]
fn short_selection_leaves_rest_unselected() {
    let ps = vec![project("a", Some(10)), project("b", Some(20))];
    let r = TargetCleaner::clean_selected_projects(&ps, &vec![true], true, &skipped(2));
    assert_eq!(r.total_freed, 10);
}

#[test]
fn failures_are_recorded_and_processing_continues() {
    let ps = vec![project("a", Some(10)), project("b", Some(20)), project("c", Some(30))];
    let sel = vec![true, true, true];
    assert_eq!(TargetCleaner::pending_deletions(&ps, &sel, false), vec![0, 1, 2]);
    let outcomes = vec![
        DeleteOutcome::Failed("permission denied".to_string()),
        DeleteOutcome::Removed,
        DeleteOutcome::Failed("busy".to_string()),
    ];
    let r = TargetCleaner::clean_selected_projects(&ps, &sel, false, &outcomes);
    assert_eq!(r.total_freed, 20);
    assert_eq!(
        r.errors,
        vec![
            "Failed to delete /w/a/target: permission denied".to_string(),
            "Failed to delete /w/c/target: busy".to_string(),
        ]
    );
}

#[test]
fn vanished_directory_counts_as_freed() {
    let ps = vec![project("a", Some(512)), project("b", Some(100))];
    let outcomes = vec![DeleteOutcome::AlreadyGone, DeleteOutcome::Removed];
    let r = TargetCleaner::clean_selected_projects(&ps, &vec![true, true], false, &outcomes);
    assert_eq!(r.total_freed, 612);
    assert!(r.errors.is_empty());
}

#[test]
fn skipped_removal_frees_nothing_in_live_run() {
    let ps = vec![project("a", Some(10)), project("b", Some(20))];
    let outcomes = vec![DeleteOutcome::Skipped, DeleteOutcome::Removed];
    let r = TargetCleaner::clean_selected_projects(&ps, &vec![true, true], false, &outcomes);
    assert_eq!(r.total_freed, 20);
    assert!(r.errors.is_empty());
}

#[test]
fn selected_size_sums_selection() {
    let ps = vec![project("a", Some(10)), project("b", None), project("c", Some(5))];
    assert_eq!(TargetCleaner::selected_size(&ps, &vec![true, true, true]), 15);
    assert_eq!(TargetCleaner::selected_size(&ps, &vec![false, false, false]), 0);
    let big = vec![project("a", Some(u64::MAX)), project("b", Some(5))];
    assert_eq!(TargetCleaner::selected_size(&big, &vec![true, true]), u64::MAX);
}
