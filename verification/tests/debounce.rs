use larkstack::debounce::{merge_change_lists, DebounceMap};
use larkstack::event::{Event, Priority};

fn make_update_event(changes: Vec<String>) -> Event {
    Event::IssueUpdated {
        source: "linear".into(),
        identifier: "ENG-1".into(),
        title: "test".into(),
        description: None,
        status: "In Progress".into(),
        priority: Priority::High,
        assignee: None,
        assignee_email: None,
        url: "https://example.com".into(),
        changes,
    }
}

fn make_create_event(changes: Vec<String>) -> Event {
    Event::IssueCreated {
        source: "linear".into(),
        identifier: "ENG-1".into(),
        title: "test".into(),
        description: None,
        status: "In Progress".into(),
        priority: Priority::High,
        assignee: None,
        assignee_email: None,
        url: "https://example.com".into(),
        changes,
    }
}

#[test]
fn first_insert_returns_full_delay() {
    let mut map = DebounceMap::new();
    let ev = make_update_event(vec!["status changed".into()]);
    let (_ticket, delay) = map.upsert("ENG-1".into(), ev, None, 5000, 120_000, 1_000);
    assert_eq!(delay, 5000);
}

#[test]
fn merge_deduplicates_changes() {
    let mut map = DebounceMap::new();
    let ev1 = make_update_event(vec!["status changed".into()]);
    let _ = map.upsert("ENG-1".into(), ev1, None, 5000, 120_000, 1_000);
    let ev2 = make_update_event(vec!["status changed".into(), "priority changed".into()]);
    let _ = map.upsert("ENG-1".into(), ev2, None, 5000, 120_000, 1_100);
    let pending = map.take("ENG-1").unwrap();
    let changes = pending.event.changes().to_vec();
    assert_eq!(changes, vec!["status changed", "priority changed"]);
}

#[test]
fn create_then_update_stays_created() {
    let mut map = DebounceMap::new();
    let ev1 = make_create_event(vec!["created".into()]);
    let _ = map.upsert("ENG-1".into(), ev1, None, 5000, 120_000, 1_000);
    let ev2 = make_update_event(vec!["status changed".into()]);
    let _ = map.upsert("ENG-1".into(), ev2, None, 5000, 120_000, 1_200);
    let pending = map.take("ENG-1").unwrap();
    assert!(pending.event.is_issue_created());
    assert_eq!(pending.event.changes(), &["created".to_string(), "status changed".to_string()]);
}

#[test]
fn max_wait_caps_delay() {
    let mut map = DebounceMap::new();
    let ev1 = make_update_event(vec![]);
    let _ = map.upsert("ENG-1".into(), ev1, None, 5000, 10_000, 1_000);
    let ev2 = make_update_event(vec![]);
    let (_ticket, delay) = map.upsert("ENG-1".into(), ev2, None, 5000, 10_000, 1_000);
    assert!(delay <= 5000);
}

#[test]
fn max_wait_caps_delay_after_time_passes() {
    let mut map = DebounceMap::new();
    let _ = map.upsert("ENG-1".into(), make_update_event(vec![]), None, 5000, 10_000, 1_000);
    // 8 s after the first event only 2 s of the window are left.
    let (_ticket, delay) = map.upsert("ENG-1".into(), make_update_event(vec![]), None, 5000, 10_000, 9_000);
    assert_eq!(delay, 2000);
    // Past the window the wait is the minimum of 1 ms.
    let (_ticket, delay) = map.upsert("ENG-1".into(), make_update_event(vec![]), None, 5000, 10_000, 20_000);
    assert_eq!(delay, 1);
}

#[test]
fn dm_email_preserves_first_non_none() {
    let mut map = DebounceMap::new();
    let ev1 = make_update_event(vec![]);
    let _ = map.upsert("ENG-1".into(), ev1, Some("alice@test.com".into()), 5000, 120_000, 1_000);
    let ev2 = make_update_event(vec![]);
    let _ = map.upsert("ENG-1".into(), ev2, None, 5000, 120_000, 1_000);
    let pending = map.take("ENG-1").unwrap();
    assert_eq!(pending.dm_email.as_deref(), Some("alice@test.com"));
}

#[test]
fn newer_dm_email_wins() {
    let mut map = DebounceMap::new();
    let _ = map.upsert("ENG-1".into(), make_update_event(vec![]), Some("alice@test.com".into()), 5000, 120_000, 1);
    let _ = map.upsert("ENG-1".into(), make_update_event(vec![]), Some("bob@test.com".into()), 5000, 120_000, 2);
    let pending = map.take("ENG-1").unwrap();
    assert_eq!(pending.dm_email.as_deref(), Some("bob@test.com"));
}

#[test]
fn take_removes_entry() {
    let mut map = DebounceMap::new();
    let ev = make_update_event(vec![]);
    let _ = map.upsert("ENG-1".into(), ev, None, 5000, 120_000, 1_000);
    assert!(map.take("ENG-1").is_some());
    assert!(map.take("ENG-1").is_none());
}

#[test]
fn only_the_last_ticket_claims_the_entry() {
    let mut map = DebounceMap::new();
    let (first, _) = map.upsert("ENG-1".into(), make_update_event(vec!["a".into()]), None, 5000, 120_000, 1);
    let (second, _) = map.upsert("ENG-1".into(), make_update_event(vec!["b".into()]), None, 5000, 120_000, 2);
    assert_ne!(first, second);
    assert!(map.take_if_current("ENG-1", first).is_none());
    let pending = map.take_if_current("ENG-1", second).unwrap();
    assert_eq!(pending.event.changes(), &["a".to_string(), "b".to_string()]);
    assert!(map.take_if_current("ENG-1", second).is_none());
}

#[test]
fn keys_are_independent() {
    let mut map = DebounceMap::new();
    let _ = map.upsert("ENG-1".into(), make_update_event(vec!["a".into()]), None, 5000, 120_000, 1);
    let _ = map.upsert("ENG-2".into(), make_create_event(vec!["b".into()]), None, 5000, 120_000, 2);
    let p2 = map.take("ENG-2").unwrap();
    assert!(p2.event.is_issue_created());
    assert_eq!(p2.first_received_ms, 2);
    let p1 = map.take("ENG-1").unwrap();
    assert!(!p1.event.is_issue_created());
    assert_eq!(p1.event.changes(), &["a".to_string()]);
}

#[test]
fn window_start_is_kept_across_merges() {
    let mut map = DebounceMap::new();
    let _ = map.upsert("K".into(), make_update_event(vec![]), None, 5000, 120_000, 100);
    let _ = map.upsert("K".into(), make_update_event(vec![]), None, 5000, 120_000, 900);
    assert_eq!(map.take("K").unwrap().first_received_ms, 100);
}

#[test]
fn merge_change_lists_keeps_order_without_duplicates() {
    let all = vec!["x".to_string(), "y".to_string()];
    let new = vec!["y".to_string(), "z".to_string(), "z".to_string()];
    assert_eq!(merge_change_lists(&all, &new), vec!["x", "y", "z"]);
}
