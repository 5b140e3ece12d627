use ds_store_no_more::CleanConfig;

#[test]
fn test_new_config_includes_ds_store() {
    let config = CleanConfig::new("/test".to_string(), vec![], false);
    assert!(config.patterns.contains(&".DS_Store".to_string()));
}

#[test]
fn test_new_config_with_additional_patterns() {
    let config = CleanConfig::new(
        "/test".to_string(),
        vec!["*.bak".to_string(), "Thumbs.db".to_string()],
        false,
    );
    assert_eq!(config.patterns.len(), 3);
    assert!(config.patterns.contains(&".DS_Store".to_string()));
    assert!(config.patterns.contains(&"*.bak".to_string()));
    assert!(config.patterns.contains(&"Thumbs.db".to_string()));
}

#[test]
fn test_config_dry_run_flag() {
    let config = CleanConfig::new("/test".to_string(), vec![], true);
    assert!(config.dry_run);
}

#[test]
fn config_keeps_pattern_order_and_root() {
    let config = CleanConfig::new(
        "/root/dir".to_string(),
        vec!["Thumbs.db".to_string(), "*.bak".to_string()],
        false,
    );
    assert_eq!(config.root_dir, "/root/dir");
    assert_eq!(
        config.patterns,
        vec![".DS_Store".to_string(), "Thumbs.db".to_string(), "*.bak".to_string()]
    );
    assert!(config.ignore_patterns.is_empty());
}

#[test]
fn config_with_ignore_patterns_sets_only_the_ignore_set() {
    let config = CleanConfig::new("/test".to_string(), vec![], true)
        .with_ignore_patterns(vec!["node_modules".to_string()]);
    assert_eq!(config.ignore_patterns, vec!["node_modules".to_string()]);
    assert_eq!(config.patterns, vec![".DS_Store".to_string()]);
    assert!(config.dry_run);
}
