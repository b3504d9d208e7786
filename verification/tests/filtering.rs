use notify_core::filter::FilterChain;
use notify_core::taxonomy::{CreateKind, PlatformEventKind, RawEvent};

fn event_with_paths(paths: &[&str]) -> RawEvent {
    RawEvent {
        kind: PlatformEventKind::Create(CreateKind::File),
        paths: paths.iter().map(|p| p.to_string()).collect(),
        attrs: None,
    }
}

#[test]
fn empty_chain_accepts_everything() {
    let chain = FilterChain::new();
    assert!(chain.accepts(&event_with_paths(&[])));
    assert!(chain.accepts(&event_with_paths(&["anything.bin"])));
    assert!(chain.accepts(&event_with_paths(&["a", "b", "c"])));
}

#[test]
fn chain_is_a_conjunction() {
    let mut chain = FilterChain::new();
    chain.install("*.log".to_string()).unwrap();
    chain.install("app.*".to_string()).unwrap();
    // Matches both patterns.
    assert!(chain.accepts(&event_with_paths(&["app.log"])));
    // Matches only the first pattern.
    assert!(!chain.accepts(&event_with_paths(&["foo.log"])));
    // Matches only the second pattern.
    assert!(!chain.accepts(&event_with_paths(&["app.tmp"])));
    // Matches neither pattern.
    assert!(!chain.accepts(&event_with_paths(&["other.bin"])));
}

#[test]
fn chain_outcome_ignores_installation_order() {
    let cases: &[&[&str]] = &[&["app.log"], &["foo.log"], &["app.tmp"], &["other.bin"]];
    let mut forward = FilterChain::new();
    forward.install("*.log".to_string()).unwrap();
    forward.install("app.*".to_string()).unwrap();
    let mut backward = FilterChain::new();
    backward.install("app.*".to_string()).unwrap();
    backward.install("*.log".to_string()).unwrap();
    for paths in cases {
        let e = event_with_paths(paths);
        assert_eq!(forward.accepts(&e), backward.accepts(&e));
    }
}

#[test]
fn all_paths_must_match() {
    let mut chain = FilterChain::new();
    chain.install("a/*.txt".to_string()).unwrap();
    // One of the two paths fails to match, so the event is rejected even
    // though the other path matches.
    assert!(!chain.accepts(&event_with_paths(&["a/x.txt", "b/x.txt"])));
    assert!(chain.accepts(&event_with_paths(&["a/x.txt"])));
    assert!(chain.accepts(&event_with_paths(&["a/x.txt", "a/y.txt"])));
}

#[test]
fn invalid_pattern_is_reported_and_chain_unchanged() {
    let mut chain = FilterChain::new();
    chain.install("*.log".to_string()).unwrap();
    let err = chain.install("[".to_string()).unwrap_err();
    assert!(!err.message.is_empty());
    assert_eq!(chain.len(), 1);
    // The chain still behaves as before the failed installation.
    assert!(chain.accepts(&event_with_paths(&["app.log"])));
    assert!(!chain.accepts(&event_with_paths(&["app.tmp"])));
}

#[test]
fn unbalanced_recursive_wildcard_is_invalid() {
    let mut chain = FilterChain::new();
    assert!(chain.install("a**".to_string()).is_err());
    assert_eq!(chain.len(), 0);
}

#[test]
fn empty_paths_are_accepted_by_any_valid_pattern() {
    let mut chain = FilterChain::new();
    chain.install("*.log".to_string()).unwrap();
    // With no path to fail, the all-paths condition holds vacuously.
    assert!(chain.accepts(&event_with_paths(&[])));
}
