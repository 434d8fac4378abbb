//! The pagination engine against a synthetic backend, the fetch guard,
//! the catch-up count, and the bridge's completion ordering.

use dakko_core::backend::{count_newer, page_older};
use dakko_core::bridge::{Bridge, HttpRequest, HttpResponse};
use dakko_core::timeline::{StatusRecord, Timeline, TimelineCache, PAGE_LIMIT};

fn record(id: u64) -> StatusRecord {
    StatusRecord {
        id,
        author: format!("author-{}", id),
        content: format!("post {}", id),
    }
}

/// A synthetic backend of ids n..1, newest first.
fn synthetic(n: u64) -> Vec<StatusRecord> {
    let mut all = Vec::new();
    let mut id = n;
    while id >= 1 {
        all.push(record(id));
        id -= 1;
    }
    all
}

fn stored_ids(cache: &TimelineCache) -> Vec<u64> {
    cache
        .home
        .as_ref()
        .map(|st| st.statuses.iter().map(|s| s.id).collect())
        .unwrap_or_default()
}

#[test]
fn pagination_retrieves_every_id_exactly_once() {
    let all = synthetic(60);
    let mut cache = TimelineCache::new();
    let mut network_calls = 0;
    loop {
        let cmd = match cache.load(Timeline::Home) {
            Some(cmd) => cmd,
            None => {
                // Up to date: pretend the user scrolled to the end.
                cache.mark_stale(Timeline::Home);
                match cache.load(Timeline::Home) {
                    Some(cmd) => cmd,
                    None => break,
                }
            }
        };
        network_calls += 1;
        let page = page_older(&all, cmd.max_id, cmd.limit as usize);
        let got = page.len();
        assert!(cache.complete_fetch(Timeline::Home, page));
        if got == 0 {
            break;
        }
    }
    let ids = stored_ids(&cache);
    let expected: Vec<u64> = (1..=60).rev().collect();
    assert_eq!(ids, expected);
    // 60 items at 25 a page: three full or partial pages, one empty page.
    assert_eq!(network_calls, 4);
}

#[test]
fn empty_page_marks_up_to_date_without_appending() {
    let mut cache = TimelineCache::new();
    let cmd = cache.load(Timeline::Home).expect("first load fetches");
    assert_eq!(cmd.max_id, None);
    assert_eq!(cmd.limit, PAGE_LIMIT);
    assert!(cache.complete_fetch(Timeline::Home, Vec::new()));
    assert!(stored_ids(&cache).is_empty());
    // Up to date: no further fetch until marked stale.
    assert!(cache.load(Timeline::Home).is_none());
}

#[test]
fn fetch_guard_allows_exactly_one_fetch_in_flight() {
    let mut cache = TimelineCache::new();
    let first = cache.load(Timeline::Home);
    assert!(first.is_some());
    // Immediately repeated request: a no-op until the response arrives.
    assert!(cache.load(Timeline::Home).is_none());
    assert!(cache.load(Timeline::Home).is_none());
    assert!(cache.complete_fetch(Timeline::Home, vec![record(9), record(7)]));
    // Consumed; stale again allows the next fetch, with the cursor at 7.
    cache.mark_stale(Timeline::Home);
    let next = cache.load(Timeline::Home).expect("stale timeline fetches");
    assert_eq!(next.max_id, Some(7));
}

#[test]
fn out_of_order_page_is_rejected() {
    let mut cache = TimelineCache::new();
    cache.load(Timeline::Home);
    assert!(cache.complete_fetch(Timeline::Home, vec![record(10), record(8)]));
    cache.mark_stale(Timeline::Home);
    cache.load(Timeline::Home);
    // A page that is not strictly older than the stored tail.
    assert!(!cache.complete_fetch(Timeline::Home, vec![record(9)]));
    assert_eq!(stored_ids(&cache), vec![10, 8]);
    // An unsorted page is rejected too.
    cache.mark_stale(Timeline::Home);
    cache.load(Timeline::Home);
    assert!(!cache.complete_fetch(Timeline::Home, vec![record(3), record(5)]));
    assert_eq!(stored_ids(&cache), vec![10, 8]);
}

#[test]
fn catch_up_counts_exactly_the_newer_ids() {
    let all = synthetic(10);
    assert_eq!(count_newer(&all, 4), 6);
    assert_eq!(count_newer(&all, 0), 10);
    assert_eq!(count_newer(&all, 10), 0);
    assert_eq!(count_newer(&all, 25), 0);
    let none: Vec<StatusRecord> = Vec::new();
    assert_eq!(count_newer(&none, 3), 0);
}

#[test]
fn pages_are_slices_of_the_backend() {
    let all = synthetic(7);
    let first = page_older(&all, None, 3);
    let ids: Vec<u64> = first.iter().map(|s| s.id).collect();
    assert_eq!(ids, vec![7, 6, 5]);
    let second = page_older(&all, Some(5), 3);
    let ids: Vec<u64> = second.iter().map(|s| s.id).collect();
    assert_eq!(ids, vec![4, 3, 2]);
    let third = page_older(&all, Some(2), 3);
    let ids: Vec<u64> = third.iter().map(|s| s.id).collect();
    assert_eq!(ids, vec![1]);
    assert!(page_older(&all, Some(1), 3).is_empty());
}

#[test]
fn responses_arrive_in_completion_order() {
    let mut bridge = Bridge::new();
    // Submission order: the slow self-account request first, then the
    // quick catch-up request.
    bridge.send_request(HttpRequest::RequestSelfAccount);
    bridge.send_request(HttpRequest::CatchUpTimeline { key: Timeline::Home, since_id: 40 });
    assert!(matches!(
        bridge.next_request(),
        Some(HttpRequest::RequestSelfAccount)
    ));
    assert!(matches!(
        bridge.next_request(),
        Some(HttpRequest::CatchUpTimeline { .. })
    ));
    assert!(bridge.next_request().is_none());
    // The catch-up (10 ms) finishes before the account fetch (50 ms):
    // the worker enqueues its response first.
    bridge.push_response(HttpResponse::CatchUpCount { key: Timeline::Home, count: 3 });
    bridge.push_response(HttpResponse::OperationSucceeded {
        kind: dakko_core::bridge::OperationKind::SelfAccount,
    });
    // Observed in completion order, not submission order.
    assert!(matches!(
        bridge.poll_response(),
        Some(HttpResponse::CatchUpCount { count: 3, .. })
    ));
    assert!(matches!(
        bridge.poll_response(),
        Some(HttpResponse::OperationSucceeded { .. })
    ));
    assert!(bridge.poll_response().is_none());
}
