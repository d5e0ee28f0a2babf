//! What is known between refresh attempts: which window shows the calendar, which
//! attempt is under way, and how many attempts have failed in a row.

use crate::window::WindowSlot;
use vstd::prelude::*;

verus! {

/// The time between a successful refresh and the next one, in milliseconds.
pub const REFRESH_INTERVAL: u64 = 300_000;

/// The waiting times after failed attempts, in milliseconds. The last one holds for
/// every further failure.
pub const RETRY_DELAYS: [u64; 5] = [30_000, 60_000, 120_000, 240_000, 300_000];

/// One attempt: the window that loads the calendar, the token that tells this
/// attempt from all others, and how many attempts failed in a row before it.
#[derive(Clone, Copy, Debug, PartialEq, Eq, Structural)]
pub struct RefreshTarget {
    pub window: WindowSlot,
    pub token: u64,
    pub retry_count: usize,
}

/// A window reports that it has finished loading the page of an attempt.
#[derive(Clone, Copy, Debug, PartialEq, Eq, Structural)]
pub struct RefreshEvent {
    pub window: WindowSlot,
    pub token: u64,
}

/// How an attempt ended.
#[derive(Clone, Copy, Debug, PartialEq, Eq, Structural)]
pub enum AttemptOutcome {
    Success,
    NavigationFailed,
    TimedOut,
    HandoffFailed,
}

/// The state between and during attempts.
#[derive(Debug)]
pub struct RefreshState {
    pub active: WindowSlot,
    pub pending: Option<RefreshTarget>,
    pub next_token: u64,
    pub retry_count: usize,
}

/// The waiting time once `failures` attempts have failed in a row.
pub open spec fn backoff(failures: nat) -> u64 {
    if failures == 0 {
        RETRY_DELAYS@[0]
    } else if failures <= RETRY_DELAYS@.len() {
        RETRY_DELAYS@[failures - 1]
    } else {
        RETRY_DELAYS@.last()
    }
}

impl RefreshTarget {
    /// The event that reports this attempt's page as loaded.
    pub open spec fn loaded(self) -> RefreshEvent {
        RefreshEvent { window: self.window, token: self.token }
    }
}

impl RefreshState {
    /// The state at the start: the primary window shows the calendar.
    pub open spec fn initial() -> RefreshState {
        RefreshState { active: WindowSlot::Primary, pending: None, next_token: 0, retry_count: 0 }
    }

    /// An attempt under way was begun last, for the window out of sight.
    pub open spec fn wf(self) -> bool {
        self.pending matches Some(target) ==> {
            &&& target.window == self.active.opposite()
            &&& target.token == self.next_token
            &&& target.retry_count == self.retry_count
        }
    }

    /// The attempt that would be begun next.
    pub open spec fn next_target(self) -> RefreshTarget {
        RefreshTarget {
            window: self.active.opposite(),
            token: (self.next_token + 1) as u64,
            retry_count: self.retry_count,
        }
    }

    /// The state once the next attempt has begun.
    pub open spec fn begun(self) -> RefreshState {
        RefreshState {
            pending: Some(self.next_target()),
            next_token: self.next_target().token,
            ..self
        }
    }

    /// Whether an event reports the attempt under way as loaded.
    pub open spec fn awaits(self, event: RefreshEvent) -> bool {
        self.pending is Some && self.pending->0.loaded() == event
    }

    /// The state once an attempt has ended. An attempt that is not under way
    /// changes nothing; success makes its window the active one.
    pub open spec fn finished(
        self,
        target: RefreshTarget,
        outcome: AttemptOutcome,
    ) -> RefreshState {
        if self.pending != Some(target) {
            self
        } else if outcome == AttemptOutcome::Success {
            RefreshState { active: target.window, pending: None, retry_count: 0, ..self }
        } else {
            RefreshState {
                pending: None,
                retry_count: if self.retry_count < usize::MAX {
                    (self.retry_count + 1) as usize
                } else {
                    usize::MAX
                },
                ..self
            }
        }
    }

    /// The waiting time once an attempt has ended, in milliseconds.
    pub open spec fn delay_after(self, target: RefreshTarget, outcome: AttemptOutcome) -> u64 {
        if self.pending == Some(target) && outcome == AttemptOutcome::Success {
            REFRESH_INTERVAL
        } else {
            backoff(self.finished(target, outcome).retry_count as nat)
        }
    }

    /// Returns the state at the start.
    pub fn new() -> (state: RefreshState)
        ensures
            state == RefreshState::initial(),
            state.wf(),
    {
        RefreshState { active: WindowSlot::Primary, pending: None, next_token: 0, retry_count: 0 }
    }

    /// Begins an attempt in the window out of sight, under a token of its own.
    pub fn begin(&mut self) -> (target: RefreshTarget)
        requires
            old(self).next_token < u64::MAX,
        ensures
            target == old(self).next_target(),
            *final(self) == old(self).begun(),
            final(self).wf(),
    {
        self.next_token = self.next_token + 1;
        let target = RefreshTarget {
            window: self.active.other(),
            token: self.next_token,
            retry_count: self.retry_count,
        };
        self.pending = Some(target);
        target
    }

    /// Tells whether an event reports the attempt under way as loaded.
    pub fn matches(&self, event: RefreshEvent) -> (matches: bool)
        ensures
            matches == self.awaits(event),
    {
        match self.pending {
            Some(pending) => pending.window == event.window && pending.token == event.token,
            None => false,
        }
    }

    /// Ends an attempt and returns how long to wait before the next one, in
    /// milliseconds.
    pub fn finish(&mut self, target: RefreshTarget, outcome: AttemptOutcome) -> (delay: u64)
        ensures
            *final(self) == old(self).finished(target, outcome),
            delay == old(self).delay_after(target, outcome),
            old(self).wf() ==> final(self).wf(),
    {
        let current = match self.pending {
            Some(pending) => pending == target,
            None => false,
        };
        if !current {
            return self.retry_delay();
        }
        self.pending = None;
        if outcome == AttemptOutcome::Success {
            self.active = target.window;
            self.retry_count = 0;
            REFRESH_INTERVAL
        } else {
            self.retry_count = self.retry_count.saturating_add(1);
            self.retry_delay()
        }
    }

    /// Returns how long to wait before a retry, in milliseconds.
    pub fn retry_delay(&self) -> (delay: u64)
        ensures
            delay == backoff(self.retry_count as nat),
    {
        let last: usize = RETRY_DELAYS.len() - 1;
        let index: usize = self.retry_count.saturating_sub(1);
        if index < last {
            RETRY_DELAYS[index]
        } else {
            RETRY_DELAYS[last]
        }
    }
}

/// The state once attempts have been begun and ended one after the other, with the
/// given outcomes.
pub open spec fn after_attempts(state: RefreshState, outcomes: Seq<AttemptOutcome>) -> RefreshState
    decreases outcomes.len(),
{
    if outcomes.len() == 0 {
        state
    } else {
        let before = after_attempts(state, outcomes.drop_last());
        before.begun().finished(before.next_target(), outcomes.last())
    }
}

/// How many of the outcomes are a success.
pub open spec fn successes(outcomes: Seq<AttemptOutcome>) -> nat {
    outcomes.filter(|outcome: AttemptOutcome| outcome == AttemptOutcome::Success).len()
}

/// Only the window and the token of the attempt just begun are awaited.
pub proof fn law_only_the_pending_attempt_is_awaited(state: RefreshState, event: RefreshEvent)
    ensures
        state.begun().awaits(event) <==> event.window == state.active.opposite() && event.token
            == state.next_target().token,
{
}

/// Tokens grow: no event of an earlier attempt is awaited once a new one has begun.
pub proof fn law_stale_events_are_rejected(state: RefreshState, event: RefreshEvent)
    requires
        state.next_token < u64::MAX,
        event.token <= state.next_token,
    ensures
        state.next_target().token > state.next_token,
        !state.begun().awaits(event),
{
}

/// Once an attempt has ended, no event is awaited until the next one begins.
pub proof fn law_no_event_is_awaited_between_attempts(
    state: RefreshState,
    outcome: AttemptOutcome,
    event: RefreshEvent,
)
    ensures
        !state.begun().finished(state.next_target(), outcome).awaits(event),
{
}

/// A failed attempt leaves the active window as it was, is no longer pending, and
/// counts towards the next waiting time.
pub proof fn law_failure_keeps_the_active_window(state: RefreshState, outcome: AttemptOutcome)
    requires
        outcome != AttemptOutcome::Success,
        state.retry_count < usize::MAX,
    ensures
        ({
            let after = state.begun().finished(state.next_target(), outcome);
            &&& after.active == state.active
            &&& after.pending is None
            &&& after.retry_count == state.retry_count + 1
            &&& state.begun().delay_after(state.next_target(), outcome) == backoff(
                (state.retry_count + 1) as nat,
            )
        }),
{
}

/// A successful attempt swaps the windows, forgets earlier failures and is followed
/// by the regular interval.
pub proof fn law_success_swaps_the_windows(state: RefreshState)
    ensures
        ({
            let target = state.next_target();
            let after = state.begun().finished(target, AttemptOutcome::Success);
            &&& after.active == state.active.opposite()
            &&& after.pending is None
            &&& after.retry_count == 0
            &&& state.begun().delay_after(target, AttemptOutcome::Success) == REFRESH_INTERVAL
        }),
{
}

/// Waiting times lie between the first and the regular interval and never shrink
/// while failures go on.
pub proof fn law_backoff_grows_to_its_cap(fewer: nat, more: nat)
    requires
        fewer <= more,
    ensures
        30_000 <= backoff(fewer) <= backoff(more) <= REFRESH_INTERVAL,
        more >= 5 ==> backoff(more) == REFRESH_INTERVAL,
{
}

/// Windows alternate with every success: after an even number of them the window
/// that was active at first is active again, after an odd number the other one is.
pub proof fn law_successes_alternate_the_windows(state: RefreshState, outcomes: Seq<AttemptOutcome>)
    ensures
        after_attempts(state, outcomes).active == (if successes(outcomes) % 2 == 0 {
            state.active
        } else {
            state.active.opposite()
        }),
    decreases outcomes.len(),
{
    reveal(Seq::filter);
    if outcomes.len() > 0 {
        law_successes_alternate_the_windows(state, outcomes.drop_last());
    }
}

/// Failures in a row are counted one by one and never change the active window, so
/// the waiting time after the last of them is the one for their number.
pub proof fn law_failures_in_a_row_are_counted(state: RefreshState, outcomes: Seq<AttemptOutcome>)
    requires
        state.retry_count + outcomes.len() <= usize::MAX,
        forall|i: int| 0 <= i < outcomes.len() ==> outcomes[i] != AttemptOutcome::Success,
    ensures
        after_attempts(state, outcomes).retry_count == state.retry_count + outcomes.len(),
        after_attempts(state, outcomes).active == state.active,
        outcomes.len() > 0 ==> {
            let before = after_attempts(state, outcomes.drop_last());
            before.begun().delay_after(before.next_target(), outcomes.last()) == backoff(
                (state.retry_count + outcomes.len()) as nat,
            )
        },
    decreases outcomes.len(),
{
    if outcomes.len() > 0 {
        assert(outcomes.last() == outcomes[outcomes.len() - 1]);
        law_failures_in_a_row_are_counted(state, outcomes.drop_last());
    }
}

/// Each further failure doubles the waiting time until it reaches five minutes.
pub proof fn law_backoff_doubles(failures: nat)
    ensures
        backoff(0) == 30_000,
        backoff(1) == 30_000,
        failures >= 1 ==> backoff(failures + 1) == (if 2 * backoff(failures) <= 300_000 {
            2 * backoff(failures)
        } else {
            300_000
        }),
{
}

/// Beginning an attempt takes the window that is not active and the token after the
/// last one, carries the failures so far along, and changes nothing but the pending
/// attempt and the last token.
pub proof fn law_beginning_an_attempt(state: RefreshState)
    requires
        state.next_token < u64::MAX,
    ensures
        ({
            let target = state.next_target();
            let after = state.begun();
            &&& target.window != state.active
            &&& target.token == state.next_token + 1
            &&& target.retry_count == state.retry_count
            &&& after.pending == Some(target)
            &&& after.next_token == target.token
            &&& after.active == state.active
            &&& after.retry_count == state.retry_count
        }),
{
}

/// An event is awaited exactly when an attempt is pending that has its window and its
/// token.
pub proof fn law_awaited_events_are_those_of_the_pending_attempt(
    state: RefreshState,
    event: RefreshEvent,
)
    ensures
        state.awaits(event) <==> state.pending is Some && state.pending->0.window == event.window
            && state.pending->0.token == event.token,
{
}

/// Ending the pending attempt clears it and touches no token. Success makes its window
/// active, forgets failures and waits five minutes; failure leaves the active window,
/// counts one more and waits as long as their number asks for.
pub proof fn law_ending_the_pending_attempt(
    state: RefreshState,
    target: RefreshTarget,
    outcome: AttemptOutcome,
)
    requires
        state.pending == Some(target),
    ensures
        ({
            let after = state.finished(target, outcome);
            let delay = state.delay_after(target, outcome);
            &&& after.pending is None
            &&& after.next_token == state.next_token
            &&& outcome == AttemptOutcome::Success ==> after.active == target.window
                && after.retry_count == 0 && delay == 300_000
            &&& outcome != AttemptOutcome::Success ==> after.active == state.active && delay
                == backoff(after.retry_count as nat) && (after.retry_count == state.retry_count + 1
                || after.retry_count == state.retry_count == usize::MAX)
        }),
{
}

/// Ending an attempt that is not the pending one changes nothing, and asks for the wait
/// of the failures so far.
pub proof fn law_ending_another_attempt_changes_nothing(
    state: RefreshState,
    target: RefreshTarget,
    outcome: AttemptOutcome,
)
    requires
        state.pending != Some(target),
    ensures
        state.finished(target, outcome) == state,
        state.delay_after(target, outcome) == backoff(state.retry_count as nat),
{
}

} // verus!
