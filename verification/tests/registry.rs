use std::collections::HashMap;

use tmuxy_core::registry::{
    compute_min_client_size, DetachOutcome, SessionConnections, SessionRegistry,
};

#[test]
fn resize_follows_the_smallest_client() {
    let mut session = SessionConnections::new();
    let a = session.attach(1, Some((100, 40)));
    assert!(a.start_monitor);
    assert_eq!(a.resize, Some((100, 40)));
    let b = session.attach(2, Some((80, 30)));
    assert!(!b.start_monitor);
    assert_eq!(b.resize, Some((80, 30)));
    // the smallest client leaves: the session grows
    assert_eq!(session.detach(2), DetachOutcome::Resize { cols: 100, rows: 40 });
    assert_eq!(session.last_resize, Some((100, 40)));
    assert_eq!(session.detach(1), DetachOutcome::Shutdown);
    assert!(session.connections.is_empty());
}

#[test]
fn minimum_is_taken_by_column_and_by_row() {
    let mut sizes: HashMap<u64, (u32, u32)> = HashMap::new();
    assert_eq!(compute_min_client_size(&sizes), (80, 24));
    sizes.insert(1, (120, 20));
    assert_eq!(compute_min_client_size(&sizes), (120, 20));
    sizes.insert(2, (90, 50));
    sizes.insert(3, (100, 35));
    assert_eq!(compute_min_client_size(&sizes), (90, 20));
    // a connection that reports again replaces its viewport
    sizes.insert(2, (130, 50));
    assert_eq!(compute_min_client_size(&sizes), (100, 20));
    sizes.insert(4, (u32::MAX, u32::MAX));
    assert_eq!(compute_min_client_size(&sizes), (100, 20));
    sizes.clear();
    sizes.insert(4, (u32::MAX, u32::MAX));
    assert_eq!(compute_min_client_size(&sizes), (u32::MAX, u32::MAX));
}

#[test]
fn equal_resizes_are_suppressed() {
    let mut session = SessionConnections::new();
    assert_eq!(session.attach(1, Some((80, 24))).resize, Some((80, 24)));
    // a larger second client changes nothing
    assert_eq!(session.attach(2, Some((200, 60))).resize, None);
    // reporting the same size again changes nothing
    assert_eq!(session.set_client_size(1, 80, 24), None);
    assert_eq!(session.set_client_size(2, 70, 60), Some((70, 24)));
    assert_eq!(session.set_client_size(2, 75, 60), Some((75, 24)));
    // the larger client leaves: the minimum stays
    assert_eq!(session.detach(2), DetachOutcome::Resize { cols: 80, rows: 24 });
    assert_eq!(session.attach(3, Some((90, 30))).resize, None);
    assert_eq!(session.detach(3), DetachOutcome::Unchanged);
    // a client that never attached leaves nothing behind
    assert_eq!(session.detach(9), DetachOutcome::Unchanged);
}

#[test]
fn registry_routes_by_session_and_token() {
    let mut registry = SessionRegistry::new();
    assert!(!registry.is_tracked("demo"));
    let (a, outcome) = registry.attach("demo", Some((100, 40)), "aa".to_string());
    assert_eq!(a, 1);
    assert!(outcome.start_monitor);
    assert_eq!(outcome.resize, Some((100, 40)));
    let (b, outcome) = registry.attach("demo", Some((80, 30)), "bb".to_string());
    assert_eq!(b, 2);
    assert!(!outcome.start_monitor);
    assert_eq!(outcome.resize, Some((80, 30)));
    let (c, outcome) = registry.attach("other", None, "cc".to_string());
    assert_eq!(c, 3);
    assert!(outcome.start_monitor);
    assert!(registry.is_tracked("demo"));
    assert_eq!(registry.validate_token("bb"), Some((2, "demo".to_string())));
    assert_eq!(registry.validate_token("zz"), None);
    assert_eq!(registry.set_client_size("demo", 1, 60, 40), Some((60, 30)));
    assert_eq!(registry.set_client_size("nowhere", 1, 60, 40), None);
    assert_eq!(registry.detach("demo", 2, "bb"), DetachOutcome::Resize { cols: 60, rows: 40 });
    assert_eq!(registry.validate_token("bb"), None);
    assert_eq!(registry.detach("demo", 1, "aa"), DetachOutcome::Shutdown);
    assert!(!registry.is_tracked("demo"));
    assert!(registry.is_tracked("other"));
    assert_eq!(registry.detach("demo", 1, "aa"), DetachOutcome::Unchanged);
}

#[test]
fn client_without_viewport_does_not_count() {
    let mut session = SessionConnections::new();
    let a = session.attach(1, None);
    assert!(a.start_monitor);
    assert_eq!(a.resize, None);
    assert_eq!(session.attach(2, Some((120, 50))).resize, Some((120, 50)));
    assert_eq!(session.set_client_size(1, 100, 60), Some((100, 50)));
    assert_eq!(session.detach(2), DetachOutcome::Resize { cols: 100, rows: 60 });
}
