use target_cleaner::text::{chars_of, contains_seq, join_path, starts_with_seq};

#[test]
fn chars_of_keeps_unicode() {
    assert_eq!(chars_of("añb"), vec!['a', 'ñ', 'b']);
    assert!(chars_of("").is_empty());
}

#[test]
fn substring_search() {
    let s = chars_of("/home/user/.git/x");
    assert!(contains_seq(&s, &chars_of(".git")));
    assert!(contains_seq(&s, &chars_of("")));
    assert!(!contains_seq(&s, &chars_of(".gitx")));
    assert!(!contains_seq(&chars_of("ab"), &chars_of("abc")));
}

#[test]
fn prefix_test() {
    let s = chars_of("/a/b");
    assert!(starts_with_seq(&s, &chars_of("/a")));
    assert!(!starts_with_seq(&s, &chars_of("a")));
}

#[test]
fn join_adds_one_separator() {
    assert_eq!(join_path("/a", "target"), "/a/target");
    assert_eq!(join_path("/a/", "target"), "/a/target");
    assert_eq!(join_path("", "target"), "target");
}
