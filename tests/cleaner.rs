use ds_store_no_more::{CleanConfig, CleanError, Cleaner, FileSystem, MockFileSystem};

fn paths(items: &[&str]) -> Vec<String> {
    items.iter().map(|s| s.to_string()).collect()
}

#[test]
fn test_cleaner_scan() {
    let fs = MockFileSystem::with_files(paths(&["/test/.DS_Store", "/test/file.txt"]));
    let cleaner = Cleaner::new(fs, &[".DS_Store".to_string()], vec![]).unwrap();

    let found = cleaner.scan("/test").unwrap();

    assert_eq!(found.len(), 1);
    assert_eq!(found[0], "/test/.DS_Store");
}

#[test]
fn test_cleaner_clean() {
    let fs = MockFileSystem::with_files(paths(&["/test/.DS_Store", "/test/file.txt"]));
    let mut cleaner = Cleaner::new(fs, &[".DS_Store".to_string()], vec![]).unwrap();

    let result = cleaner.clean("/test", false).unwrap();

    assert_eq!(result.files_found, 1);
    assert_eq!(result.files_deleted, 1);
    assert!(cleaner.fs().was_deleted("/test/.DS_Store"));
}

#[test]
fn test_cleaner_dry_run() {
    let fs = MockFileSystem::with_files(paths(&["/test/.DS_Store"]));
    let mut cleaner = Cleaner::new(fs, &[".DS_Store".to_string()], vec![]).unwrap();

    let result = cleaner.clean("/test", true).unwrap();

    assert_eq!(result.files_deleted, 1);
    assert!(result.dry_run);
    assert!(!cleaner.fs().was_deleted("/test/.DS_Store"));
}

#[test]
fn test_cleaner_handles_deletion_error() {
    let mut fs = MockFileSystem::with_files(paths(&["/test/.DS_Store"]));
    fs.set_fail_on("/test/.DS_Store".to_string());

    let mut cleaner = Cleaner::new(fs, &[".DS_Store".to_string()], vec![]).unwrap();

    let result = cleaner.clean("/test", false).unwrap();

    assert_eq!(result.files_found, 1);
    assert_eq!(result.files_deleted, 0);
    assert_eq!(result.files_failed.len(), 1);
    assert!(result.files_failed[0].1.contains("Permission denied"));
}

#[test]
fn scan_matches_final_name_only() {
    let fs = MockFileSystem::with_files(paths(&[
        "/test/.DS_Store/inner.txt",
        "/test/sub/.DS_Store",
        "/test/a.bak/keep.txt",
        "/test/b.bak",
    ]));
    let cleaner = Cleaner::new(fs, &[".DS_Store".to_string(), "*.bak".to_string()], vec![]).unwrap();
    assert_eq!(cleaner.scan("/test").unwrap(), paths(&["/test/sub/.DS_Store", "/test/b.bak"]));
}

#[test]
fn filter_matches_keeps_order_and_skips_nameless_paths() {
    let cleaner = Cleaner::new(MockFileSystem::new(), &["*.log".to_string()], vec![]).unwrap();
    let listing = paths(&["/x/b.log", "/x/..", "/x/a.txt", "/y/a.log", "/"]);
    assert_eq!(cleaner.filter_matches(listing), paths(&["/x/b.log", "/y/a.log"]));
}

#[test]
fn cleaner_new_reports_invalid_pattern() {
    match Cleaner::new(MockFileSystem::new(), &["*.bak".to_string(), "a**".to_string()], vec![]) {
        Err(CleanError::InvalidPattern(e)) => assert_eq!(e.pattern, "a**"),
        _ => panic!("a misplaced `**` must not compile"),
    }
}

struct BrokenRoot;

impl FileSystem for BrokenRoot {
    fn walk_dir(&self, _root: &str, _ignore_patterns: &[String]) -> Result<Vec<String>, String> {
        Err("no such directory".to_string())
    }

    fn remove_file(&mut self, _path: &str) -> Result<(), String> {
        Ok(())
    }
}

#[test]
fn clean_fails_when_walk_fails() {
    let mut cleaner = Cleaner::new(BrokenRoot, &[".DS_Store".to_string()], vec![]).unwrap();
    match cleaner.clean("/missing", false) {
        Err(CleanError::Walk(cause)) => assert_eq!(cause, "no such directory"),
        _ => panic!("a failed walk must fail the pass"),
    }
    assert!(cleaner.clean("/missing", false).unwrap_err().to_string().contains("no such directory"));
}

#[test]
fn clean_with_ignore_skips_ignored_directory() {
    let config = CleanConfig::new("/proj".to_string(), vec![], false)
        .with_ignore_patterns(vec!["node_modules".to_string()]);
    let fs = MockFileSystem::with_files(paths(&["/proj/.DS_Store", "/proj/node_modules/.DS_Store"]));
    let mut cleaner = Cleaner::new(fs, &config.patterns, config.ignore_patterns.clone()).unwrap();
    let result = cleaner.clean(&config.root_dir, config.dry_run).unwrap();
    assert_eq!(result.files_found, 1);
    assert!(cleaner.fs().was_deleted("/proj/.DS_Store"));
    assert!(!cleaner.fs().was_deleted("/proj/node_modules/.DS_Store"));
}

#[test]
fn directory_named_like_target_is_not_a_match() {
    let fs = MockFileSystem::with_files(paths(&["/test/.DS_Store/file.txt", "/test/x.DS_Store"]));
    let cleaner = Cleaner::new(fs, &[".DS_Store".to_string()], vec![]).unwrap();
    assert!(cleaner.scan("/test").unwrap().is_empty());
}

#[test]
fn failed_walk_removes_nothing_and_scan_fails_too() {
    let cleaner = Cleaner::new(BrokenRoot, &[".DS_Store".to_string()], vec![]).unwrap();
    assert!(matches!(cleaner.scan("/missing"), Err(CleanError::Walk(_))));
}
