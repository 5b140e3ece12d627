use std::cell::RefCell;
use std::rc::Rc;

use ds_store_no_more::{
    CleanConfig, Cleaner, Commands, FileSystem, LogFormat, MockFileSystem, Monitor, MonitorAction,
    MonitorEvent,
};

fn paths(items: &[&str]) -> Vec<String> {
    items.iter().map(|s| s.to_string()).collect()
}

#[test]
fn dry_run_twice_changes_nothing_and_agrees() {
    let fs = MockFileSystem::with_files(paths(&["/d/.DS_Store", "/d/a/.DS_Store", "/d/keep.txt"]));
    let mut cleaner = Cleaner::new(fs, &[".DS_Store".to_string()], vec![]).unwrap();
    let first = cleaner.clean("/d", true).unwrap();
    let second = cleaner.clean("/d", true).unwrap();
    assert_eq!((first.files_found, first.files_deleted, first.files_failed.len()), (2, 2, 0));
    assert_eq!(
        (first.files_found, first.files_deleted, first.files_failed.len()),
        (second.files_found, second.files_deleted, second.files_failed.len())
    );
    assert!(cleaner.fs().get_deleted().is_empty());
    assert_eq!(cleaner.fs().walk_dir("/d", &[]).unwrap().len(), 3);
}

#[test]
fn one_undeletable_file_among_many() {
    let mut fs = MockFileSystem::with_files(paths(&[
        "/d/.DS_Store",
        "/d/a/.DS_Store",
        "/d/b/.DS_Store",
        "/d/c/.DS_Store",
    ]));
    fs.set_fail_on("/d/b/.DS_Store".to_string());
    let mut cleaner = Cleaner::new(fs, &[".DS_Store".to_string()], vec![]).unwrap();
    let result = cleaner.clean("/d", false).unwrap();
    assert_eq!(result.files_found, 4);
    assert_eq!(result.files_deleted, 3);
    assert_eq!(result.files_failed.len(), 1);
    assert_eq!(result.files_failed[0].0, "/d/b/.DS_Store");
    assert_eq!(result.files_failed[0].1, "Permission denied: /d/b/.DS_Store");
    assert!(cleaner.fs().was_deleted("/d/c/.DS_Store"));
}

#[test]
fn run_with_default_patterns_removes_only_target() {
    let config = CleanConfig::new("/w".to_string(), vec![], false);
    let fs = MockFileSystem::with_files(paths(&["/w/.DS_Store", "/w/keep.txt"]));
    let mut cleaner = Cleaner::new(fs, &config.patterns, config.ignore_patterns.clone()).unwrap();
    let result = cleaner.clean(&config.root_dir, config.dry_run).unwrap();
    assert_eq!((result.files_found, result.files_deleted, result.files_failed.len()), (1, 1, 0));
    assert!(cleaner.fs().was_deleted("/w/.DS_Store"));
    assert!(!cleaner.fs().was_deleted("/w/keep.txt"));
}

#[test]
fn run_with_ignore_keeps_nested_target() {
    let config = CleanConfig::new("/w".to_string(), vec![], false)
        .with_ignore_patterns(vec!["node_modules".to_string()]);
    let fs = MockFileSystem::with_files(paths(&["/w/.DS_Store", "/w/node_modules/.DS_Store"]));
    let mut cleaner = Cleaner::new(fs, &config.patterns, config.ignore_patterns.clone()).unwrap();
    let result = cleaner.clean(&config.root_dir, config.dry_run).unwrap();
    assert_eq!(result.files_deleted, 1);
    assert_eq!(cleaner.fs().get_deleted(), paths(&["/w/.DS_Store"]));
}

#[test]
fn ignore_is_exact_not_prefix() {
    let fs = MockFileSystem::with_files(paths(&["/w/node/.DS_Store", "/w/node_modules/.DS_Store"]));
    let listed = fs.walk_dir("/w", &["node".to_string()]).unwrap();
    assert_eq!(listed, paths(&["/w/node_modules/.DS_Store"]));
    let listed = fs.walk_dir("/w", &["node_modules".to_string()]).unwrap();
    assert_eq!(listed, paths(&["/w/node/.DS_Store"]));
}

/// Files shared with the test, which may create a removed file again.
struct Workspace {
    present: Rc<RefCell<Vec<String>>>,
}

impl FileSystem for Workspace {
    fn walk_dir(&self, _root: &str, _ignore_patterns: &[String]) -> Result<Vec<String>, String> {
        Ok(self.present.borrow().clone())
    }

    fn remove_file(&mut self, path: &str) -> Result<(), String> {
        let mut present = self.present.borrow_mut();
        match present.iter().position(|p| p == path) {
            Some(i) => {
                present.remove(i);
                Ok(())
            }
            None => Err(format!("No such file: {}", path)),
        }
    }
}

#[test]
fn monitor_removes_recreated_file_every_cycle() {
    let present = Rc::new(RefCell::new(paths(&["/m/.DS_Store", "/m/keep.txt"])));
    let ws = Workspace { present: Rc::clone(&present) };
    let mut cleaner = Cleaner::new(ws, &[".DS_Store".to_string()], vec![]).unwrap();
    let mut monitor = Monitor::new(true);
    let events = [
        MonitorEvent::Start,
        MonitorEvent::Tick,
        MonitorEvent::Tick,
        MonitorEvent::TimeoutElapsed,
    ];
    let mut deleted_per_cycle = Vec::new();
    let mut stopped = false;
    for event in events {
        match monitor.handle(event) {
            MonitorAction::RunCycle => {
                let result = cleaner.clean("/m", false).unwrap();
                deleted_per_cycle.push(result.files_deleted);
                assert_eq!(*present.borrow(), paths(&["/m/keep.txt"]));
                present.borrow_mut().push("/m/.DS_Store".to_string());
            }
            MonitorAction::Stop => stopped = true,
            MonitorAction::Wait => {}
        }
    }
    assert!(stopped);
    assert_eq!(deleted_per_cycle, vec![1, 1, 1]);
    assert_eq!(monitor.cycles(), 3);
}

#[test]
fn command_into_config_keeps_every_setting() {
    let command = Commands::Monitor {
        root_dir: "/r".to_string(),
        interval: 10,
        timeout: Some(3),
        additional_patterns: vec!["Thumbs.db".to_string()],
        ignore_patterns: vec![".git".to_string()],
        dry_run: true,
        verbose: false,
        log_format: LogFormat::Json,
    };
    let config = command.into_config();
    assert_eq!(config.root_dir, "/r");
    assert_eq!(config.patterns, vec![".DS_Store".to_string(), "Thumbs.db".to_string()]);
    assert_eq!(config.ignore_patterns, vec![".git".to_string()]);
    assert!(config.dry_run);
}
