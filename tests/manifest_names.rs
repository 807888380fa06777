use target_cleaner::manifest::{manifest_name, path_base_name, resolve_project_name};
use target_cleaner::{ProjectError, RustProject};

#[test]
fn name_from_package_section() {
    let m = "[package]\nname = \"demo\"\nversion = \"0.1.0\"\n";
    assert_eq!(manifest_name(m), Some("demo".to_string()));
}

#[test]
fn name_with_single_quotes_and_spaces() {
    let m = "  [package]  \r\n   name   =   'tool'   \r\n";
    assert_eq!(manifest_name(m), Some("tool".to_string()));
}

#[test]
fn name_outside_package_is_ignored() {
    let m = "[dependencies]\nname = \"dep\"\n[package]\nversion = \"1\"\n";
    assert_eq!(manifest_name(m), None);
}

#[test]
fn later_section_ends_package() {
    let m = "[package]\nversion = \"1\"\n[lib]\nname = \"libname\"\n";
    assert_eq!(manifest_name(m), None);
}

#[test]
fn first_name_line_wins() {
    let m = "[package]\nname = \"first\"\nname = \"second\"\n";
    assert_eq!(manifest_name(m), Some("first".to_string()));
}

#[test]
fn name_key_prefix_matches_longer_keys() {
    let m = "[package]\nnamespace = \"ns\"\nname = \"real\"\n";
    assert_eq!(manifest_name(m), Some("ns".to_string()));
}

#[test]
fn value_stops_at_second_equals() {
    let m = "[package]\nname = \"a=b\"\n";
    assert_eq!(manifest_name(m), Some("a".to_string()));
}

#[test]
fn name_line_without_equals_is_skipped() {
    let m = "[package]\nname\nname = \"ok\"";
    assert_eq!(manifest_name(m), Some("ok".to_string()));
}

#[test]
fn one_layer_of_quotes_is_removed() {
    let m = "[package]\nname = \"\"x\"\"\n";
    assert_eq!(manifest_name(m), Some("\"x\"".to_string()));
}

#[test]
fn only_one_quote_character_leaves_each_end() {
    let m = "[package]\nname = \"'foo'\"\n";
    assert_eq!(manifest_name(m), Some("'foo'".to_string()));
    let n = "[package]\nname = 'bar\"\n";
    assert_eq!(manifest_name(n), Some("bar".to_string()));
    let o = "[package]\nname = \"baz\n";
    assert_eq!(manifest_name(o), Some("baz".to_string()));
}

#[test]
fn base_name_of_paths() {
    assert_eq!(path_base_name("/home/u/proj"), Some("proj".to_string()));
    assert_eq!(path_base_name("/home/u/proj/"), Some("proj".to_string()));
    assert_eq!(path_base_name("proj"), Some("proj".to_string()));
    assert_eq!(path_base_name("/"), None);
    assert_eq!(path_base_name(""), None);
    assert_eq!(path_base_name("/home/.."), None);
}

#[test]
fn falls_back_to_directory_name() {
    assert_eq!(resolve_project_name("[workspace]\n", "/w/ws"), Some("ws".to_string()));
    assert_eq!(resolve_project_name("[package]\nname = \"n\"", "/w/ws"), Some("n".to_string()));
}

#[test]
fn from_path_builds_project() {
    let p = RustProject::from_path("/w/demo", Some("[package]\nname = \"demo-app\"\n")).ok().unwrap();
    assert_eq!(p.path, "/w/demo");
    assert_eq!(p.name, "demo-app");
    assert!(p.target_info.is_none());
}

#[test]
fn from_path_errors() {
    match RustProject::from_path("/w/demo", None) {
        Err(ProjectError::ManifestUnreadable(p)) => assert_eq!(p, "/w/demo"),
        _ => panic!("expected ManifestUnreadable"),
    }
    match RustProject::from_path("/", Some("")) {
        Err(ProjectError::NoName(p)) => assert_eq!(p, "/"),
        _ => panic!("expected NoName"),
    }
}

#[test]
fn target_path_joins_target() {
    let p = RustProject::from_path("/w/demo", Some("")).ok().unwrap();
    assert_eq!(p.target_path(), Some("/w/demo/target".to_string()));
    let q = RustProject::from_path("/w/demo/", Some("")).ok().unwrap();
    assert_eq!(q.target_path(), Some("/w/demo/target".to_string()));
}
