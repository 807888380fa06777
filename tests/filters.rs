use target_cleaner::{is_excluded, RustProjectScanner, ScanError};

fn strings(v: &[&str]) -> Vec<String> {
    v.iter().map(|s| s.to_string()).collect()
}

fn scanner_with_ignores(ignores: &[&str]) -> RustProjectScanner {
    RustProjectScanner::new_with_ignores(&strings(&["/home"]), &vec![true], &vec![], &strings(ignores))
        .ok()
        .unwrap()
}

#[test]
fn excluded_when_pattern_is_a_component() {
    let pats = strings(&[".git", "node_modules"]);
    assert!(is_excluded("/home/u/proj/.git", &pats));
    assert!(is_excluded("/home/u/proj/node_modules/x", &pats));
}

#[test]
fn excluded_on_partial_segment_match() {
    let pats = strings(&[".git"]);
    assert!(is_excluded("/home/u/my.github.io/src", &pats));
    assert!(is_excluded(".git", &pats));
}

#[test]
fn not_excluded_without_pattern() {
    let pats = strings(&[".git", "node_modules"]);
    assert!(!is_excluded("/home/u/proj/src", &pats));
    assert!(!is_excluded("/home/u/proj", &vec![]));
}

#[test]
fn empty_pattern_excludes_everything() {
    assert!(is_excluded("/anything", &strings(&[""])));
}

#[test]
fn ignored_when_equal() {
    let s = scanner_with_ignores(&["/home/u/work"]);
    assert!(s.is_ignored_path("/home/u/work"));
}

#[test]
fn ignored_when_descendant() {
    let s = scanner_with_ignores(&["/home/u/work"]);
    assert!(s.is_ignored_path("/home/u/work/a/b"));
}

#[test]
fn ignored_on_substring_match() {
    let s = scanner_with_ignores(&["/u/work"]);
    assert!(s.is_ignored_path("/home/u/workshop"));
    assert!(s.is_ignored_path("/home/u/work/x"));
}

#[test]
fn not_ignored_when_unrelated() {
    let s = scanner_with_ignores(&["/home/u/work"]);
    assert!(!s.is_ignored_path("/home/u/play"));
    assert!(!s.is_ignored_path("/home/u"));
    let none = scanner_with_ignores(&[]);
    assert!(!none.is_ignored_path("/home/u/work"));
}

#[test]
fn prune_combines_exclusion_and_ignores() {
    let s = RustProjectScanner::new_with_ignores(
        &strings(&["/home"]),
        &vec![true],
        &strings(&["target"]),
        &strings(&["/home/u/skip"]),
    )
    .ok()
    .unwrap();
    assert!(s.should_prune("/home/u/p/target"));
    assert!(s.should_prune("/home/u/skip/p"));
    assert!(!s.should_prune("/home/u/p/src"));
}

#[test]
fn roots_to_scan_drops_ignored_roots() {
    let s = RustProjectScanner::new_with_ignores(
        &strings(&["/a", "/b", "/c/d"]),
        &vec![true, true, true],
        &vec![],
        &strings(&["/b", "/c"]),
    )
    .ok()
    .unwrap();
    assert_eq!(s.roots_to_scan(), strings(&["/a"]));
}

#[test]
fn missing_search_root_is_an_error() {
    let r = RustProjectScanner::new(&strings(&["/a", "/missing", "/gone"]), &vec![true, false, false], &vec![]);
    match r {
        Err(ScanError::MissingSearchPath(p)) => assert_eq!(p, "/missing"),
        Ok(_) => panic!("expected an error"),
    }
}

#[test]
fn new_keeps_configuration() {
    let s = RustProjectScanner::new(&strings(&["/a"]), &vec![true], &strings(&[".git"])).ok().unwrap();
    assert_eq!(s.search_paths, strings(&["/a"]));
    assert_eq!(s.exclude_patterns, strings(&[".git"]));
    assert!(s.ignore_paths.is_empty());
}
