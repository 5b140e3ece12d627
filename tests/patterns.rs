use ds_store_no_more::PatternMatcher;

#[test]
fn test_exact_match() {
    let matcher = PatternMatcher::new(&[".DS_Store".to_string()]).unwrap();
    assert!(matcher.matches(".DS_Store"));
    assert!(!matcher.matches("other.txt"));
}

#[test]
fn test_glob_pattern() {
    let matcher = PatternMatcher::new(&["*.bak".to_string()]).unwrap();
    assert!(matcher.matches("file.bak"));
    assert!(matcher.matches("another.bak"));
    assert!(!matcher.matches("file.txt"));
}

#[test]
fn test_multiple_patterns() {
    let matcher =
        PatternMatcher::new(&[".DS_Store".to_string(), "Thumbs.db".to_string()]).unwrap();
    assert!(matcher.matches(".DS_Store"));
    assert!(matcher.matches("Thumbs.db"));
    assert!(!matcher.matches("other.txt"));
}

#[test]
fn test_no_match() {
    let matcher = PatternMatcher::new(&[".DS_Store".to_string()]).unwrap();
    assert!(!matcher.matches("readme.md"));
    assert!(!matcher.matches("DS_Store"));
}

#[test]
fn empty_pattern_set_matches_nothing() {
    let matcher = PatternMatcher::new(&[]).unwrap();
    assert!(!matcher.matches(".DS_Store"));
    assert!(!matcher.matches(""));
}

#[test]
fn matching_is_anchored_and_case_sensitive() {
    let matcher = PatternMatcher::new(&["?.log".to_string(), "Thumbs.db".to_string()]).unwrap();
    assert!(matcher.matches("a.log"));
    assert!(!matcher.matches("ab.log"));
    assert!(!matcher.matches("a.logs"));
    assert!(!matcher.matches("thumbs.db"));
    assert!(!matcher.matches("xThumbs.db"));
}

#[test]
fn star_matches_empty_and_leading_dot() {
    let matcher = PatternMatcher::new(&["*Store".to_string()]).unwrap();
    assert!(matcher.matches(".DS_Store"));
    assert!(matcher.matches("Store"));
    assert!(!matcher.matches("Stores"));
}

#[test]
fn invalid_pattern_is_reported_with_its_text() {
    let err = match PatternMatcher::new(&["ok".to_string(), "[abc".to_string(), "***".to_string()]) {
        Ok(_) => panic!("an unclosed bracket must not compile"),
        Err(e) => e,
    };
    assert_eq!(err.pattern, "[abc");
    assert!(!err.cause.is_empty());
    assert!(err.to_string().contains("[abc"));
}

#[test]
fn tripled_star_is_invalid() {
    assert!(PatternMatcher::new(&["***".to_string()]).is_err());
}
