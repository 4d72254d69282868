use systemd_manager_tui::worker::{
    CoalescingQueue, UPTIME_STALENESS_SECS, accept_tagged_result, uptime_needs_refresh,
};

#[test]
fn n_enqueued_requests_yield_one_fetch_for_the_last() {
    let mut q = CoalescingQueue::new();
    q.enqueue("a.service".to_string());
    q.enqueue("b.service".to_string());
    q.enqueue("c.service".to_string());
    // the worker wakes up: it serves exactly one identifier, the latest
    let mut fetches = Vec::new();
    if let Some(name) = q.take_latest() {
        fetches.push(name);
    }
    assert_eq!(fetches, vec!["c.service".to_string()]);
    // nothing else is left for this round
    assert_eq!(q.take_latest(), None);
}

#[test]
fn empty_queue_triggers_no_fetch() {
    let mut q = CoalescingQueue::new();
    assert_eq!(q.take_latest(), None);
}

#[test]
fn later_rounds_serve_later_requests() {
    let mut q = CoalescingQueue::new();
    q.enqueue("a.service".to_string());
    assert_eq!(q.take_latest(), Some("a.service".to_string()));
    q.enqueue("b.service".to_string());
    q.enqueue("c.service".to_string());
    assert_eq!(q.take_latest(), Some("c.service".to_string()));
}

#[test]
fn uptime_refetches_on_new_selection_or_stale_active_unit() {
    // no fetch recorded for this selection yet
    assert!(uptime_needs_refresh(false, None, 100));
    // fresh value for an active unit
    assert!(!uptime_needs_refresh(true, Some(100), 100 + UPTIME_STALENESS_SECS - 1));
    // stale value for an active unit
    assert!(uptime_needs_refresh(true, Some(100), 100 + UPTIME_STALENESS_SECS));
    // a unit that is not active is never refetched on age alone
    assert!(!uptime_needs_refresh(false, Some(100), 100 + 10 * UPTIME_STALENESS_SECS));
}

#[test]
fn tagged_results_for_other_units_are_discarded() {
    assert!(accept_tagged_result(Some("foo.service"), "foo.service"));
    assert!(!accept_tagged_result(Some("foo.service"), "bar.service"));
    assert!(!accept_tagged_result(None, "foo.service"));
}
