//! Decisions of the poll loop that tracks a submitted operation.
//!
//! The caller runs the loop: it polls the status location, hands each result
//! to `on_poll`, delivers the returned status and error to the observer, and
//! either polls again or resolves the completion value as told.

use crate::models::{is_terminal_spec, EmailSendStatusType, ErrorDetail};
use vstd::prelude::*;

verus! {

/// What one poll of the status location gave.
#[derive(Debug)]
pub enum PollEvent {
    /// The service reported a status, with its error payload if any.
    Observed { status: EmailSendStatusType, error: Option<ErrorDetail> },
    /// The poll itself failed at the transport or authentication layer.
    Failed(ErrorDetail),
}

/// What the loop does after delivering a poll's result to the observer.
#[derive(Debug, Clone, Copy, PartialEq, Eq, Structural)]
pub enum PollOutcome {
    /// Wait the poll interval and poll again.
    PollAgain,
    /// A terminal status was reached: resolve completion with it.
    Completed,
    /// The poll failed: resolve completion with the tracking error.
    TrackingFailed,
    /// The poll bound was reached without a terminal status: resolve
    /// completion with a poll timeout.
    TimedOut,
}

/// Result of one poll: the observer receives `status` and `error` once, then
/// the loop follows `outcome`.
#[derive(Debug)]
pub struct PollStep {
    pub status: EmailSendStatusType,
    pub error: Option<ErrorDetail>,
    pub outcome: PollOutcome,
}

/// The single completion value of a tracked operation.
#[derive(Debug)]
pub enum Completion {
    /// A terminal status, with the service's error payload if any.
    Finished { status: EmailSendStatusType, error: Option<ErrorDetail> },
    /// A poll failed; carries the failure's detail.
    TrackingFailed(Option<ErrorDetail>),
    /// The poll bound was reached without a terminal status.
    PollTimeout,
}

impl PollStep {
    /// The completion value that this step resolves, if it resolves one.
    pub fn completion(self) -> (r: Option<Completion>)
        ensures
            match self.outcome {
                PollOutcome::PollAgain => r is None,
                PollOutcome::Completed => r == Some(
                    Completion::Finished { status: self.status, error: self.error },
                ),
                PollOutcome::TrackingFailed => r == Some(Completion::TrackingFailed(self.error)),
                PollOutcome::TimedOut => r == Some(Completion::PollTimeout),
            },
    {
        match self.outcome {
            PollOutcome::PollAgain => None,
            PollOutcome::Completed => Some(
                Completion::Finished { status: self.status, error: self.error },
            ),
            PollOutcome::TrackingFailed => Some(Completion::TrackingFailed(self.error)),
            PollOutcome::TimedOut => Some(Completion::PollTimeout),
        }
    }
}

/// State of the loop that tracks one operation.
#[derive(Debug)]
pub struct OperationTracker {
    pub operation_id: String,
    /// Where the operation's status is polled, when the service named it.
    pub status_url: Option<String>,
    pub status: EmailSendStatusType,
    /// Polls made so far.
    pub polls: u64,
    /// Most polls made before the loop gives up.
    pub max_polls: u64,
    /// Whether completion has been resolved; no poll follows.
    pub completed: bool,
}

impl OperationTracker {
    /// Polls stay within the bound, and an open tracker has a poll left.
    pub open spec fn wf(&self) -> bool {
        &&& 1 <= self.max_polls
        &&& self.polls <= self.max_polls
        &&& !self.completed ==> self.polls < self.max_polls
    }
}

/// Status that a poll reports to the observer.
pub open spec fn event_status(e: PollEvent) -> EmailSendStatusType {
    match e {
        PollEvent::Observed { status, .. } => status,
        PollEvent::Failed(_) => EmailSendStatusType::Unknown,
    }
}

/// Error that a poll reports to the observer.
pub open spec fn event_error(e: PollEvent) -> Option<ErrorDetail> {
    match e {
        PollEvent::Observed { error, .. } => error,
        PollEvent::Failed(d) => Some(d),
    }
}

/// What the loop does after a poll of an open tracker.
pub open spec fn step_outcome(t: OperationTracker, e: PollEvent) -> PollOutcome {
    match e {
        PollEvent::Failed(_) => PollOutcome::TrackingFailed,
        PollEvent::Observed { status, .. } => if is_terminal_spec(status) {
            PollOutcome::Completed
        } else if t.polls + 1 >= t.max_polls {
            PollOutcome::TimedOut
        } else {
            PollOutcome::PollAgain
        },
    }
}

/// Tracker after a poll of an open tracker.
pub open spec fn step_state(t: OperationTracker, e: PollEvent) -> OperationTracker {
    OperationTracker {
        status: event_status(e),
        polls: (t.polls + 1) as u64,
        completed: step_outcome(t, e) != PollOutcome::PollAgain,
        ..t
    }
}

/// Statuses delivered to the observer and outcomes followed when the polls
/// give `events` in order; the loop stops at the first outcome that resolves
/// completion.
pub open spec fn trace(t: OperationTracker, events: Seq<PollEvent>) -> Seq<
    (EmailSendStatusType, PollOutcome),
>
    decreases events.len(),
{
    if events.len() == 0 || t.completed {
        seq![]
    } else {
        seq![(event_status(events[0]), step_outcome(t, events[0]))] + trace(
            step_state(t, events[0]),
            events.drop_first(),
        )
    }
}

impl OperationTracker {
    /// A tracker for a just-submitted operation, with no poll made yet.
    pub fn new(
        operation_id: String,
        status_url: Option<String>,
        status: EmailSendStatusType,
        max_polls: u64,
    ) -> (r: Self)
        requires
            1 <= max_polls,
        ensures
            r.wf(),
            r.operation_id == operation_id,
            r.status_url == status_url,
            r.status == status,
            r.polls == 0,
            r.max_polls == max_polls,
            !r.completed,
    {
        OperationTracker { operation_id, status_url, status, polls: 0, max_polls, completed: false }
    }

    /// Takes the result of one poll: what the observer receives, and whether
    /// the loop polls again or resolves completion.
    pub fn on_poll(&mut self, event: PollEvent) -> (r: PollStep)
        requires
            old(self).wf(),
            !old(self).completed,
        ensures
            final(self).wf(),
            *final(self) == step_state(*old(self), event),
            r.status == event_status(event),
            r.error == event_error(event),
            r.outcome == step_outcome(*old(self), event),
    {
        self.polls = self.polls + 1;
        match event {
            PollEvent::Failed(d) => {
                self.status = EmailSendStatusType::Unknown;
                self.completed = true;
                PollStep {
                    status: EmailSendStatusType::Unknown,
                    error: Some(d),
                    outcome: PollOutcome::TrackingFailed,
                }
            },
            PollEvent::Observed { status, error } => {
                self.status = status;
                let outcome = if status.is_terminal() {
                    PollOutcome::Completed
                } else if self.polls >= self.max_polls {
                    PollOutcome::TimedOut
                } else {
                    PollOutcome::PollAgain
                };
                self.completed = outcome != PollOutcome::PollAgain;
                PollStep { status, error, outcome }
            },
        }
    }
}

/// Exactly one resolution: every outcome before the last one polls again,
/// and once the polls on offer cover the bound, the trace ends in an outcome
/// that resolves completion.
pub proof fn lemma_single_resolution(t: OperationTracker, events: Seq<PollEvent>)
    requires
        t.wf(),
        !t.completed,
    ensures
        forall|i: int|
            0 <= i < trace(t, events).len() - 1 ==> (#[trigger] trace(t, events)[i]).1
                == PollOutcome::PollAgain,
        events.len() >= t.max_polls - t.polls ==> trace(t, events).len() >= 1 && trace(
            t,
            events,
        ).last().1 != PollOutcome::PollAgain,
    decreases events.len(),
{
    if events.len() > 0 {
        let t2 = step_state(t, events[0]);
        let rest = events.drop_first();
        if !t2.completed {
            lemma_single_resolution(t2, rest);
            assert forall|i: int| 0 <= i < trace(t, events).len() - 1 implies (#[trigger] trace(
                t,
                events,
            )[i]).1 == PollOutcome::PollAgain by {
                if i > 0 {
                    assert(trace(t, events)[i] == trace(t2, rest)[i - 1]);
                }
            }
        } else {
            assert(trace(t2, rest) =~= seq![]);
        }
    }
}

/// Observer order: the observer receives the status of each poll, in the
/// order the polls were made.
pub proof fn lemma_observer_order(t: OperationTracker, events: Seq<PollEvent>)
    requires
        t.wf(),
    ensures
        trace(t, events).len() <= events.len(),
        forall|i: int|
            0 <= i < trace(t, events).len() ==> (#[trigger] trace(t, events)[i]).0 == event_status(
                events[i],
            ),
    decreases events.len(),
{
    if events.len() > 0 && !t.completed {
        let t2 = step_state(t, events[0]);
        let rest = events.drop_first();
        lemma_observer_order(t2, rest);
        assert forall|i: int| 0 <= i < trace(t, events).len() implies (#[trigger] trace(
            t,
            events,
        )[i]).0 == event_status(events[i]) by {
            if i > 0 {
                assert(trace(t, events)[i] == trace(t2, rest)[i - 1]);
                assert(rest[i - 1] == events[i]);
            }
        }
    }
}

/// Poll timeout: when none of the polls within the bound reports a terminal
/// status or fails, the loop makes exactly the remaining polls and resolves
/// completion with a timeout.
pub proof fn lemma_poll_timeout(t: OperationTracker, events: Seq<PollEvent>)
    requires
        t.wf(),
        !t.completed,
        events.len() >= t.max_polls - t.polls,
        forall|i: int|
            0 <= i < t.max_polls - t.polls ==> #[trigger] events[i] is Observed
                && !is_terminal_spec(event_status(events[i])),
    ensures
        trace(t, events).len() == t.max_polls - t.polls,
        trace(t, events).last().1 == PollOutcome::TimedOut,
    decreases events.len(),
{
    let t2 = step_state(t, events[0]);
    let rest = events.drop_first();
    assert(events[0] is Observed && !is_terminal_spec(event_status(events[0])));
    if t.polls + 1 >= t.max_polls {
        assert(trace(t2, rest) =~= seq![]);
    } else {
        assert forall|i: int| 0 <= i < t2.max_polls - t2.polls implies #[trigger] rest[i] is Observed
            && !is_terminal_spec(event_status(rest[i])) by {
            assert(rest[i] == events[i + 1]);
            assert(events[i + 1] is Observed && !is_terminal_spec(event_status(events[i + 1])));
        }
        lemma_poll_timeout(t2, rest);
    }
}

/// Scripted completion: when the first `k` polls report non-terminal
/// statuses and the next reports a terminal one, within the bound, the
/// observer receives exactly those `k + 1` statuses and the loop resolves
/// completion with the terminal one.
pub proof fn lemma_terminal_completion(t: OperationTracker, events: Seq<PollEvent>, k: int)
    requires
        t.wf(),
        !t.completed,
        0 <= k < events.len(),
        k < t.max_polls - t.polls,
        forall|i: int|
            0 <= i < k ==> #[trigger] events[i] is Observed && !is_terminal_spec(
                event_status(events[i]),
            ),
        events[k] is Observed,
        is_terminal_spec(event_status(events[k])),
    ensures
        trace(t, events).len() == k + 1,
        trace(t, events).last() == (event_status(events[k]), PollOutcome::Completed),
    decreases k,
{
    let t2 = step_state(t, events[0]);
    let rest = events.drop_first();
    if k == 0 {
        assert(trace(t2, rest) =~= seq![]);
    } else {
        assert(events[0] is Observed && !is_terminal_spec(event_status(events[0])));
        assert forall|i: int| 0 <= i < k - 1 implies #[trigger] rest[i] is Observed
            && !is_terminal_spec(event_status(rest[i])) by {
            assert(rest[i] == events[i + 1]);
            assert(events[i + 1] is Observed && !is_terminal_spec(event_status(events[i + 1])));
        }
        assert(rest[k - 1] == events[k]);
        lemma_terminal_completion(t2, rest, k - 1);
    }
}

} // verus!
