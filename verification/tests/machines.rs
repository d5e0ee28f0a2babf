use gcal_widget::action::{Action, Reply};
use gcal_widget::attempt::{attempt_outcome, Attempt, AttemptError, AttemptStage, LOAD_TIMEOUT};
use gcal_widget::coordinator::{Coordinator, CoordinatorStage};
use gcal_widget::handoff::{HandoffCall, HandoffError, HandoffStage, COMPOSITOR_SETTLE_TIME};
use gcal_widget::refresh_state::{AttemptOutcome, RefreshEvent, RefreshState};
use gcal_widget::window::WindowSlot;

const FRESH: WindowSlot = WindowSlot::Buffer;
const VISIBLE: WindowSlot = WindowSlot::Primary;

/// The answer with which all goes well.
fn success(action: Action) -> Reply {
    match action {
        Action::ReadPosition { .. } => Reply::Position { x: -5, y: 12 },
        Action::ReadSize { .. } => Reply::Size {
            width: 640,
            height: 480,
        },
        Action::ReadGlance => Reply::Glance { on: true },
        Action::AwaitEvent => Reply::Event {
            event: RefreshEvent {
                window: FRESH,
                token: 1,
            },
        },
        _ => Reply::Done,
    }
}

fn failed(error: &str) -> Reply {
    Reply::Failed {
        error: error.to_owned(),
    }
}

/// Runs a handoff in which the answer with the given number is replaced.
fn run_handoff(replace: usize, reply: Reply) -> (Vec<Action>, Result<(), String>) {
    let mut stage = HandoffStage::FindVisible;
    let mut actions = Vec::new();
    let mut replacement = Some(reply);
    while let Some(action) = stage.action(FRESH) {
        let answer = if actions.len() == replace {
            replacement.take().expect("used once")
        } else {
            success(action)
        };
        assert!(answer.fits(action));
        actions.push(action);
        stage = stage.step(FRESH, answer);
    }
    match stage {
        HandoffStage::Ended { result } => (actions, result.map_err(|error| error.message())),
        _ => panic!("a stage without an action is the last one"),
    }
}

fn smooth_handoff() -> Vec<Action> {
    vec![
        Action::FindWindow { window: VISIBLE },
        Action::FindWindow { window: FRESH },
        Action::ReadPosition { window: VISIBLE },
        Action::SetPosition {
            window: FRESH,
            x: -5,
            y: 12,
        },
        Action::ReadSize { window: VISIBLE },
        Action::SetSize {
            window: FRESH,
            width: 640,
            height: 480,
        },
        Action::ReadGlance,
        Action::IgnoreCursor {
            window: FRESH,
            ignore: true,
        },
        Action::Sleep { millis: 100 },
        Action::Show { window: FRESH },
        Action::Sleep { millis: 100 },
        Action::Hide { window: VISIBLE },
    ]
}

#[test]
fn handoff_shows_the_fresh_window_before_it_hides_the_other() {
    assert_eq!(COMPOSITOR_SETTLE_TIME, 100);
    assert_eq!(run_handoff(99, Reply::Done), (smooth_handoff(), Ok(())));
}

#[test]
fn missing_window_ends_the_handoff_at_once() {
    assert_eq!(
        run_handoff(0, Reply::Missing),
        (
            smooth_handoff()[..1].to_vec(),
            Err("visible calendar window is missing".to_owned())
        )
    );
    assert_eq!(
        run_handoff(1, Reply::Missing),
        (
            smooth_handoff()[..2].to_vec(),
            Err("refresh buffer window is missing".to_owned())
        )
    );
}

#[test]
fn failed_call_is_undone_and_reported() {
    for (number, message) in [
        (2, "couldn't read visible window position: boom"),
        (3, "couldn't synchronize buffer position: boom"),
        (4, "couldn't read visible window size: boom"),
        (5, "couldn't synchronize buffer size: boom"),
        (7, "couldn't synchronize glance mode: boom"),
        (9, "couldn't show refreshed window: boom"),
        (11, "couldn't hide previous window: boom"),
    ] {
        let mut expected = smooth_handoff()[..number + 1].to_vec();
        expected.push(Action::Hide { window: FRESH });
        expected.push(Action::Show { window: VISIBLE });
        assert_eq!(
            run_handoff(number, failed("boom")),
            (expected, Err(message.to_owned()))
        );
    }
}

#[test]
fn failing_to_undo_makes_no_difference() {
    let error = HandoffError::CallFailed {
        call: HandoffCall::Show,
        error: "boom".to_owned(),
    };
    let stage = HandoffStage::UndoShow { error };
    let stage = stage.step(FRESH, failed("first"));
    assert_eq!(stage.action(FRESH), Some(Action::Show { window: VISIBLE }));
    let stage = stage.step(FRESH, failed("second"));
    assert_eq!(stage.action(FRESH), None);
    assert!(matches!(
        stage,
        HandoffStage::Ended { result: Err(HandoffError::CallFailed { call: HandoffCall::Show, error }) }
            if error == "boom"
    ));
}

/// Runs a first attempt up to its handoff or its end.
fn run_attempt(replies: Vec<Reply>) -> (Vec<Action>, Attempt) {
    let mut state = RefreshState::new();
    let mut attempt = Attempt::start(state.begin());
    let mut actions = Vec::new();
    for reply in replies {
        let action = attempt.action().expect("the attempt goes on");
        assert!(reply.fits(action));
        actions.push(action);
        attempt = attempt.step(&state, reply);
    }
    (actions, attempt)
}

fn ended(attempt: Attempt) -> (AttemptOutcome, Option<String>) {
    match attempt.stage {
        AttemptStage::Ended { result } => (
            attempt_outcome(&result),
            result.err().map(|error| error.message()),
        ),
        stage => panic!("still at {stage:?}"),
    }
}

fn event(window: WindowSlot, token: u64) -> Reply {
    Reply::Event {
        event: RefreshEvent { window, token },
    }
}

#[test]
fn attempt_without_its_window_fails_to_navigate() {
    let (actions, attempt) = run_attempt(vec![Reply::Missing]);
    assert_eq!(actions, vec![Action::FindWindow { window: FRESH }]);
    assert_eq!(
        ended(attempt),
        (
            AttemptOutcome::NavigationFailed,
            Some("refresh buffer window is missing".to_owned())
        )
    );
}

#[test]
fn failed_navigation_is_reported() {
    let (actions, attempt) = run_attempt(vec![Reply::Done, failed("offline")]);
    assert_eq!(
        actions[1],
        Action::Navigate {
            window: FRESH,
            token: 1
        }
    );
    assert_eq!(
        ended(attempt),
        (
            AttemptOutcome::NavigationFailed,
            Some("couldn't navigate refresh buffer: offline".to_owned())
        )
    );
}

#[test]
fn closed_events_and_timeouts_end_the_attempt() {
    assert_eq!(LOAD_TIMEOUT, 30_000);
    let (actions, attempt) = run_attempt(vec![
        Reply::Done,
        Reply::Done,
        Reply::Done,
        event(VISIBLE, 1),
        event(FRESH, 2),
        Reply::Closed,
    ]);
    assert_eq!(actions[2], Action::StartTimer { millis: 30_000 });
    assert_eq!(actions[3..], [Action::AwaitEvent; 3]);
    assert_eq!(
        ended(attempt),
        (
            AttemptOutcome::NavigationFailed,
            Some("refresh event channel closed".to_owned())
        )
    );
    let (_, attempt) = run_attempt(vec![Reply::Done, Reply::Done, Reply::Done, Reply::Expired]);
    assert_eq!(
        ended(attempt),
        (
            AttemptOutcome::TimedOut,
            Some("background refresh timed out (attempt 1)".to_owned())
        )
    );
}

#[test]
fn awaited_event_starts_the_handoff() {
    let (_, attempt) = run_attempt(vec![
        Reply::Done,
        Reply::Done,
        Reply::Done,
        event(FRESH, 0),
        event(FRESH, 1),
    ]);
    assert!(matches!(
        attempt.stage,
        AttemptStage::HandOver {
            stage: HandoffStage::FindVisible
        }
    ));
    assert_eq!(
        attempt.action(),
        Some(Action::FindWindow { window: VISIBLE })
    );
}

#[test]
fn failed_handoff_fails_the_attempt() {
    let (_, attempt) = run_attempt(vec![
        Reply::Done,
        Reply::Done,
        Reply::Done,
        event(FRESH, 1),
        Reply::Missing,
    ]);
    assert_eq!(
        ended(attempt),
        (
            AttemptOutcome::HandoffFailed,
            Some("refresh handoff failed: visible calendar window is missing".to_owned())
        )
    );
}

#[test]
fn outcomes_follow_the_errors() {
    assert_eq!(attempt_outcome(&Ok(())), AttemptOutcome::Success);
    assert_eq!(
        attempt_outcome(&Err(AttemptError::TimedOut { retry_count: 4 })),
        AttemptOutcome::TimedOut
    );
    assert_eq!(
        AttemptError::TimedOut { retry_count: 4 }.message(),
        "background refresh timed out (attempt 5)"
    );
}

#[test]
fn coordinator_refreshes_and_swaps_the_windows() {
    let mut coordinator = Coordinator::new();
    let mut visible = vec![WindowSlot::Primary];
    let mut sleeps = Vec::new();
    let mut navigations = Vec::new();
    while sleeps.len() < 4 {
        let action = coordinator.action().expect("the coordinator goes on");
        let reply = match action {
            Action::AwaitEvent => {
                let target = coordinator.state.pending.expect("an attempt is under way");
                event(target.window, target.token)
            }
            _ => success(action),
        };
        match action {
            Action::Show { window } => visible.push(window),
            Action::Hide { window } => visible.retain(|shown| *shown != window),
            Action::Sleep { millis } if millis != COMPOSITOR_SETTLE_TIME => {
                sleeps.push(millis);
                assert_eq!(visible, vec![coordinator.state.active]);
            }
            Action::Navigate { window, token } => {
                assert_ne!(window, coordinator.state.active);
                navigations.push((window, token));
            }
            _ => {}
        }
        assert!(!visible.is_empty());
        let (next, failure) = coordinator.step(reply);
        assert!(failure.is_none());
        coordinator = next;
    }
    assert_eq!(sleeps, vec![300_000; 4]);
    assert_eq!(
        navigations,
        vec![
            (WindowSlot::Buffer, 1),
            (WindowSlot::Primary, 2),
            (WindowSlot::Buffer, 3)
        ]
    );
    assert_eq!(coordinator.state.active, WindowSlot::Buffer);
}

#[test]
fn coordinator_backs_off_and_reports_failures() {
    let mut coordinator = Coordinator::new();
    let mut sleeps = Vec::new();
    let mut reports = Vec::new();
    while sleeps.len() < 4 {
        let action = coordinator.action().expect("the coordinator goes on");
        let reply = match action {
            Action::AwaitEvent => Reply::Expired,
            _ => success(action),
        };
        if let Action::Sleep { millis } = action {
            sleeps.push(millis);
        }
        let (next, failure) = coordinator.step(reply);
        reports.extend(failure.map(|error| error.message()));
        coordinator = next;
    }
    assert_eq!(sleeps, vec![300_000, 30_000, 60_000, 120_000]);
    assert_eq!(
        reports,
        vec![
            "background refresh timed out (attempt 1)",
            "background refresh timed out (attempt 2)",
            "background refresh timed out (attempt 3)"
        ]
    );
    assert_eq!(coordinator.state.active, WindowSlot::Primary);
}

#[test]
fn coordinator_stops_when_the_active_window_is_gone() {
    let (coordinator, _) = Coordinator::new().step(Reply::Done);
    assert_eq!(
        coordinator.action(),
        Some(Action::FindWindow {
            window: WindowSlot::Primary
        })
    );
    let (coordinator, failure) = coordinator.step(Reply::Missing);
    assert!(failure.is_none());
    assert!(matches!(coordinator.stage, CoordinatorStage::Stopped));
    assert_eq!(coordinator.action(), None);
}

#[test]
fn replies_fit_their_actions() {
    assert!(!Reply::Missing.fits(Action::Show { window: FRESH }));
    assert!(!Reply::Done.fits(Action::ReadGlance));
    assert!(!failed("x").fits(Action::Sleep { millis: 1 }));
    assert!(Reply::Expired.fits(Action::AwaitEvent));
    assert!(Reply::Missing.fits(Action::FindWindow { window: FRESH }));
}
