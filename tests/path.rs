use ds_store_no_more::{file_name_of, is_ignored, contains_name, path_contains_ignored_dir};

fn names(items: &[&str]) -> Vec<String> {
    items.iter().map(|s| s.to_string()).collect()
}

#[test]
fn file_name_is_the_last_component() {
    assert_eq!(file_name_of("/test/.DS_Store"), Some(".DS_Store".to_string()));
    assert_eq!(file_name_of("a/b.txt"), Some("b.txt".to_string()));
    assert_eq!(file_name_of("plain"), Some("plain".to_string()));
}

#[test]
fn file_name_skips_trailing_separators_and_dots() {
    assert_eq!(file_name_of("foo.txt/"), Some("foo.txt".to_string()));
    assert_eq!(file_name_of("foo.txt/.//"), Some("foo.txt".to_string()));
    assert_eq!(file_name_of("a//b"), Some("b".to_string()));
}

#[test]
fn file_name_is_absent_for_root_dot_and_parent() {
    assert_eq!(file_name_of("/"), None);
    assert_eq!(file_name_of(""), None);
    assert_eq!(file_name_of("."), None);
    assert_eq!(file_name_of("foo/.."), None);
}

#[test]
fn ignored_component_needs_exact_name() {
    let ignore = names(&["node_modules"]);
    assert!(path_contains_ignored_dir("/test/node_modules/.DS_Store", &ignore));
    assert!(!path_contains_ignored_dir("node_modules", &ignore));
    assert!(!path_contains_ignored_dir("/test/node_modules", &ignore));
    assert!(path_contains_ignored_dir("node_modules/", &ignore));
    assert!(!path_contains_ignored_dir("/test/node_modules2/.DS_Store", &ignore));
    assert!(!path_contains_ignored_dir("/test/node/.DS_Store", &ignore));
    assert!(!path_contains_ignored_dir("/test/.DS_Store", &names(&[])));
}

#[test]
fn dot_entries_in_ignore_set_match_nothing() {
    let ignore = names(&[".", "..", ""]);
    assert!(!path_contains_ignored_dir("./a/../b//c", &ignore));
}

#[test]
fn is_ignored_only_for_directories_with_exact_names() {
    let ignore = names(&["target", ".git"]);
    assert!(is_ignored(true, Some("target"), &ignore));
    assert!(!is_ignored(false, Some("target"), &ignore));
    assert!(!is_ignored(true, Some("targets"), &ignore));
    assert!(!is_ignored(true, None, &ignore));
    assert!(contains_name(".git", &ignore));
    assert!(!contains_name(".gi", &ignore));
}
