use winui_reactor::scroll_intent::{PreparedTemplatedScroll, TailIntent, TemplatedScrollRequest, TopEdge};

/// Offsets within this distance count as the same position.
const TAIL_POSITION_EPSILON: f64 = 0.5;

/// A list's scroll intent with the geometry the platform reports.
struct ScrollState {
    intent: TailIntent<f64>,
    last_vertical_offset: f64,
    tail_threshold: f64,
}

/// Feeds a completed view change into the intent, comparing offsets the
/// way the backend does.
fn observe_templated_view(state: &mut ScrollState, vertical: f64, scrollable: f64) {
    let distance = (scrollable - vertical).max(0.0);
    let moved_up = vertical + TAIL_POSITION_EPSILON < state.last_vertical_offset;
    state.intent.observe_view(moved_up, distance <= state.tail_threshold);
    state.last_vertical_offset = vertical;
}

fn following_state() -> ScrollState {
    ScrollState {
        intent: TailIntent {
            following_tail: true,
            pending: Some(PreparedTemplatedScroll::Tail),
        },
        last_vertical_offset: 600.0,
        tail_threshold: 120.0,
    }
}

#[test]
fn content_growth_does_not_detach_tail_intent() {
    let mut state = following_state();

    // The row grew after reconcile, but layout has not corrected the
    // viewport yet. Geometry alone must not look like user scrolling.
    observe_templated_view(&mut state, 600.0, 820.0);

    assert!(state.intent.following_tail);
    assert_eq!(state.intent.pending, Some(PreparedTemplatedScroll::Tail));
}

#[test]
fn upward_user_scroll_detaches_and_cancels_tail_retry() {
    let mut state = following_state();

    observe_templated_view(&mut state, 420.0, 820.0);

    assert!(!state.intent.following_tail);
    assert_eq!(state.intent.pending, None);
}

#[test]
fn returning_near_tail_reenables_following_and_acknowledges() {
    let mut state = following_state();
    state.intent.following_tail = false;
    state.last_vertical_offset = 420.0;

    observe_templated_view(&mut state, 710.0, 820.0);

    assert!(state.intent.following_tail);
    assert_eq!(state.intent.pending, None);
}

#[test]
fn follow_request_needs_following_user() {
    let mut s: TailIntent<f64> = TailIntent::new();
    s.prepare(TemplatedScrollRequest::FollowTail { generation: 2 }, 0.0);
    assert_eq!(s.pending, Some(PreparedTemplatedScroll::Tail));
    s.following_tail = false;
    s.prepare(TemplatedScrollRequest::FollowTail { generation: 3 }, 0.0);
    assert_eq!(s.pending, None);
    s.prepare(TemplatedScrollRequest::ForceTail { generation: 4 }, 0.0);
    assert_eq!(s.pending, Some(PreparedTemplatedScroll::Tail));
}

#[test]
fn anchor_request_keeps_its_geometry_and_current_offset() {
    let mut s: TailIntent<f64> = TailIntent::new();
    s.prepare(
        TemplatedScrollRequest::PreserveAnchor { generation: 9, index: 3, viewport_offset: 12.5 },
        300.0,
    );
    assert_eq!(
        s.pending,
        Some(PreparedTemplatedScroll::PreserveAnchor {
            index: 3,
            viewport_offset: 12.5,
            offset_before: 300.0
        })
    );
    // A changed view confirms an anchor at once and keeps the intent.
    assert!(s.after_change_view(false, true, true));
    assert_eq!(s.pending, None);
    assert!(s.following_tail);
}

#[test]
fn restore_request_sets_saved_following_state() {
    let mut s: TailIntent<f64> = TailIntent::new();
    s.prepare(
        TemplatedScrollRequest::RestoreOffset {
            generation: 1,
            vertical_offset: 40.0,
            following_tail: false,
        },
        0.0,
    );
    s.acknowledge();
    assert_eq!(s.pending, None);
    assert!(!s.following_tail);
}

#[test]
fn tail_request_waits_for_view_change_confirmation() {
    let mut s: TailIntent<f64> = TailIntent::new();
    s.following_tail = false;
    s.prepare(TemplatedScrollRequest::ForceTail { generation: 1 }, 0.0);
    // The platform accepted the change, but a tail request stays armed.
    assert!(!s.after_change_view(true, true, true));
    assert_eq!(s.pending, Some(PreparedTemplatedScroll::Tail));
    // A refused change keeps any request armed.
    assert!(!s.after_change_view(false, false, true));
    assert_eq!(s.pending, Some(PreparedTemplatedScroll::Tail));
    // Reaching the target acknowledges it and attaches the user.
    s.acknowledge();
    assert_eq!(s.pending, None);
    assert!(s.following_tail);
}

#[test]
fn top_reached_is_reported_once_per_arrival() {
    let mut e = TopEdge::new();
    assert!(e.observe(true));
    assert!(!e.observe(true));
    assert!(!e.observe(false));
    assert!(e.observe(true));
}

#[test]
fn replaced_request_is_not_acknowledged() {
    let mut s: TailIntent<f64> = TailIntent::new();
    s.prepare(
        TemplatedScrollRequest::RestoreOffset { generation: 1, vertical_offset: 40.0, following_tail: false },
        0.0,
    );
    // The change went through, but a newer request replaced the one applied.
    assert!(s.after_change_view(false, true, false));
    assert!(s.following_tail);
    assert_eq!(
        s.pending,
        Some(PreparedTemplatedScroll::RestoreOffset { vertical_offset: 40.0, following_tail: false })
    );
}

#[test]
fn applying_settles_or_keeps_the_request() {
    let mut s: TailIntent<f64> = TailIntent::new();
    assert!(s.apply_pending(false, false));
    s.following_tail = false;
    s.prepare(TemplatedScrollRequest::ForceTail { generation: 1 }, 0.0);
    // Scrolled, but the tail waits for the view change.
    assert!(!s.apply_pending(false, true));
    assert_eq!(s.pending, Some(PreparedTemplatedScroll::Tail));
    assert!(!s.following_tail);
    // Already at the end: settled and following.
    assert!(s.apply_pending(true, false));
    assert_eq!(s.pending, None);
    assert!(s.following_tail);
    s.prepare(
        TemplatedScrollRequest::RestoreOffset { generation: 2, vertical_offset: 5.0, following_tail: false },
        0.0,
    );
    assert!(!s.apply_pending(false, false));
    assert!(s.pending.is_some());
    assert!(s.apply_pending(false, true));
    assert_eq!(s.pending, None);
    assert!(!s.following_tail);
}
