//! The coalescing-debounce pattern followed by both background sync workers:
//! a request queue accepts unit names; when the worker comes to serve it, it
//! drains everything queued and performs exactly one fetch, for the most
//! recently enqueued name. In-flight work per worker is O(1) however fast
//! requests arrive, at the cost of serving only the latest interest — which
//! is right here, because only the current selection's data is displayed.

use vstd::prelude::*;

verus! {

/// The staleness window after which the uptime of an active, still-selected
/// unit is fetched again, in seconds.
pub const UPTIME_STALENESS_SECS: u64 = 30;

/// The queue between the UI thread and one background worker.
pub struct CoalescingQueue {
    pub pending: Vec<String>,
}

impl CoalescingQueue {
    pub fn new() -> (q: CoalescingQueue)
        ensures
            q.pending@.len() == 0,
    {
        CoalescingQueue { pending: Vec::new() }
    }

    /// Records one request. Requests are never served out of order: only
    /// superseded, by a later one.
    pub fn enqueue(&mut self, name: String)
        ensures
            final(self).pending@ == old(self).pending@.push(name),
    {
        self.pending.push(name);
    }

    /// Drains the queue and hands out the identifier the single fetch of
    /// this round must use: the most recently enqueued one. However many
    /// requests were queued, exactly one identifier comes out, so the worker
    /// performs exactly one fetch for them all.
    pub fn take_latest(&mut self) -> (r: Option<String>)
        ensures
            final(self).pending@.len() == 0,
            old(self).pending@.len() == 0 ==> r is None,
            old(self).pending@.len() > 0 ==> match r {
                Option::Some(name) => name@ == old(self).pending@.last()@,
                Option::None => false,
            },
    {
        let r = self.pending.pop();
        self.pending.clear();
        r
    }
}

/// The uptime worker refetches when the selection changed (no fetch recorded
/// for it yet) or when the last successful fetch is older than the staleness
/// window while the unit is active; an inactive unit's uptime is never
/// refetched on age alone.
pub fn uptime_needs_refresh(selected_is_active: bool, last_fetch: Option<u64>, now: u64) -> (r:
    bool)
    ensures
        r == (match last_fetch {
            Option::None => true,
            Option::Some(t) => selected_is_active && now >= t && now - t >= UPTIME_STALENESS_SECS,
        }),
{
    match last_fetch {
        None => true,
        Some(t) => selected_is_active && now >= t && now - t >= UPTIME_STALENESS_SECS,
    }
}

/// A worker result is applied only when its tag still names the currently
/// selected unit; a stale result for a now-deselected unit is discarded.
pub fn accept_tagged_result(selected: Option<&str>, tag: &str) -> (r: bool)
    ensures
        r == (match selected {
            Option::Some(name) => name@ == tag@,
            Option::None => false,
        }),
{
    match selected {
        Some(name) => crate::text::str_eq(name, tag),
        None => false,
    }
}

} // verus!
