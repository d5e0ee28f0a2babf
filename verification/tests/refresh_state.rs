use std::time::Duration;

use gcal_widget::refresh_state::{
    AttemptOutcome, RefreshEvent, RefreshState, RefreshTarget, REFRESH_INTERVAL, RETRY_DELAYS,
};
use gcal_widget::window::WindowSlot;

fn millis(delay: u64) -> Duration {
    Duration::from_millis(delay)
}

#[test]
fn successful_refreshes_alternate_active_and_buffer_windows() {
    let mut state = RefreshState::new();
    let first = state.begin();
    assert_eq!(first.window, WindowSlot::Buffer);
    assert_eq!(
        millis(state.finish(first, AttemptOutcome::Success)),
        millis(REFRESH_INTERVAL)
    );

    let second = state.begin();
    assert_eq!(second.window, WindowSlot::Primary);
    state.finish(second, AttemptOutcome::Success);
    assert_eq!(state.active, WindowSlot::Primary);
}

#[test]
fn only_the_pending_window_and_token_match() {
    let mut state = RefreshState::new();
    let target = state.begin();
    assert!(state.matches(RefreshEvent {
        window: target.window,
        token: target.token,
    }));
    assert!(!state.matches(RefreshEvent {
        window: target.window.other(),
        token: target.token,
    }));
    assert!(!state.matches(RefreshEvent {
        window: target.window,
        token: target.token + 1,
    }));
}

#[test]
fn stale_event_is_rejected_after_a_new_attempt_begins() {
    let mut state = RefreshState::new();
    let stale = state.begin();
    state.finish(stale, AttemptOutcome::TimedOut);
    let current = state.begin();

    assert!(!state.matches(RefreshEvent {
        window: stale.window,
        token: stale.token,
    }));
    assert!(state.matches(RefreshEvent {
        window: current.window,
        token: current.token,
    }));
}

#[test]
fn timeout_keeps_the_active_window_and_schedules_a_retry() {
    let mut state = RefreshState::new();
    let target = state.begin();
    let delay = millis(state.finish(target, AttemptOutcome::TimedOut));

    assert_eq!(state.active, WindowSlot::Primary);
    assert_eq!(state.pending, None);
    assert_eq!(delay, Duration::from_secs(30));
}

#[test]
fn retry_backoff_is_capped_and_success_resets_it() {
    let mut state = RefreshState::new();
    for expected in [30, 60, 120, 240, 300, 300] {
        let target = state.begin();
        assert_eq!(
            millis(state.finish(target, AttemptOutcome::NavigationFailed)),
            Duration::from_secs(expected)
        );
    }

    let target = state.begin();
    assert_eq!(
        millis(state.finish(target, AttemptOutcome::Success)),
        millis(REFRESH_INTERVAL)
    );
    assert_eq!(state.retry_count, 0);
    assert_eq!(state.begin().retry_count, 0);
}

#[test]
fn delays_are_the_configured_ones() {
    assert_eq!(millis(REFRESH_INTERVAL), Duration::from_secs(5 * 60));
    let seconds: Vec<u64> = RETRY_DELAYS.iter().map(|delay| millis(*delay).as_secs()).collect();
    assert_eq!(seconds, vec![30, 60, 120, 240, 300]);
}

#[test]
fn finishing_an_attempt_that_is_not_pending_changes_nothing() {
    let mut state = RefreshState::new();
    let target = state.begin();
    let stranger = RefreshTarget {
        token: target.token + 1,
        ..target
    };
    assert_eq!(state.finish(stranger, AttemptOutcome::Success), 30_000);
    assert_eq!(state.active, WindowSlot::Primary);
    assert_eq!(state.pending, Some(target));
    assert_eq!(state.next_token, 1);
    assert_eq!(state.retry_count, 0);
}

#[test]
fn failures_are_counted_up_to_the_machine_limit() {
    let mut state = RefreshState {
        active: WindowSlot::Buffer,
        pending: None,
        next_token: 7,
        retry_count: usize::MAX,
    };
    let target = state.begin();
    assert_eq!(target.window, WindowSlot::Primary);
    assert_eq!(target.token, 8);
    assert_eq!(state.finish(target, AttemptOutcome::HandoffFailed), 300_000);
    assert_eq!(state.retry_count, usize::MAX);
    assert_eq!(state.active, WindowSlot::Buffer);
}

#[test]
fn nothing_is_awaited_between_attempts() {
    let mut state = RefreshState::new();
    let event = RefreshEvent {
        window: WindowSlot::Buffer,
        token: 1,
    };
    assert!(!state.matches(event));
    let target = state.begin();
    assert!(state.matches(event));
    state.finish(target, AttemptOutcome::Success);
    assert!(!state.matches(event));
}

#[test]
fn labels_find_their_windows() {
    for slot in [WindowSlot::Primary, WindowSlot::Buffer] {
        assert_eq!(WindowSlot::from_label(slot.label()), Some(slot));
        assert_ne!(slot.other(), slot);
        assert_eq!(slot.other().other(), slot);
    }
    assert_eq!(WindowSlot::Primary.label(), "gcal");
    assert_eq!(WindowSlot::Buffer.label(), "gcal-buffer");
    assert_eq!(WindowSlot::from_label("gcal-"), None);
    assert_eq!(WindowSlot::from_label(""), None);
}
