//! The life of a worker: it polls, executes, reports, and polls again, one
//! invocation at a time, until an unrecoverable failure ends it.
//!
//! The state of a worker changes with each thing that happens to it. What
//! may happen in which state, and where it leads, is laid down here; a
//! worker that follows it never polls while an invocation is in flight.

use vstd::prelude::*;
use crate::error::ApiError;

verus! {

/// What a worker is reporting.
#[derive(Clone, Copy, Debug, PartialEq, Eq, Structural)]
pub enum Report {
    /// The response or the error of an invocation.
    Invocation,
    /// That the worker could not start.
    InitFailure,
}

/// Where a worker stands.
#[derive(Clone, Copy, Debug, PartialEq, Eq, Structural)]
pub enum WorkerState {
    /// Nothing is in flight.
    Idle,
    /// A poll was issued and is not answered yet.
    Polling,
    /// An event was handed out and is being handled.
    Executing,
    /// A report was issued and is not answered yet.
    Reporting(Report),
    /// The worker must stop.
    Terminated,
}

/// What happens to a worker.
#[derive(Clone, Copy, Debug, PartialEq, Eq, Structural)]
pub enum WorkerEvent {
    /// A poll is issued.
    PollStarted,
    /// The poll gave an event.
    EventReceived,
    /// The poll failed.
    PollFailed { unrecoverable: bool },
    /// The response or the error of the invocation is posted.
    ReportStarted,
    /// The post was answered or failed.
    ReportFinished,
    /// A failed start is reported.
    InitFailureStarted,
    /// The report of the failed start was sent, or could not be sent.
    InitFailureFinished { sent: bool },
}

/// The state that the event `event` leads to from the state `state`; `None`
/// where the event may not happen in that state.
pub open spec fn next_state(state: WorkerState, event: WorkerEvent) -> Option<WorkerState> {
    match (state, event) {
        (WorkerState::Idle, WorkerEvent::PollStarted) => Some(WorkerState::Polling),
        (WorkerState::Idle, WorkerEvent::InitFailureStarted) => Some(
            WorkerState::Reporting(Report::InitFailure),
        ),
        (WorkerState::Polling, WorkerEvent::EventReceived) => Some(WorkerState::Executing),
        (WorkerState::Polling, WorkerEvent::PollFailed { unrecoverable }) => if unrecoverable {
            Some(WorkerState::Terminated)
        } else {
            Some(WorkerState::Idle)
        },
        (WorkerState::Executing, WorkerEvent::ReportStarted) => Some(
            WorkerState::Reporting(Report::Invocation),
        ),
        (WorkerState::Reporting(Report::Invocation), WorkerEvent::ReportFinished) => Some(
            WorkerState::Idle,
        ),
        (
            WorkerState::Reporting(Report::InitFailure),
            WorkerEvent::InitFailureFinished { sent },
        ) => if sent {
            Some(WorkerState::Idle)
        } else {
            Some(WorkerState::Terminated)
        },
        _ => None,
    }
}

/// Whether an invocation is in flight: its event was handed out and its
/// report is not finished.
pub open spec fn in_flight(state: WorkerState) -> bool {
    state == WorkerState::Executing || state == WorkerState::Reporting(Report::Invocation)
}

/// The state that a run of events leads to from the state `state`; `None`
/// where one of them may not happen when its turn comes.
pub open spec fn state_after(state: WorkerState, events: Seq<WorkerEvent>) -> Option<WorkerState>
    decreases events.len(),
{
    if events.len() == 0 {
        Some(state)
    } else {
        match state_after(state, events.drop_last()) {
            Some(before) => next_state(before, events.last()),
            None => None,
        }
    }
}

impl WorkerState {
    /// The state in which a worker starts.
    pub fn new() -> (state: WorkerState)
        ensures
            state == WorkerState::Idle,
    {
        WorkerState::Idle
    }

    /// The state after `event`; `None` where `event` may not happen in this
    /// state.
    pub fn step(self, event: WorkerEvent) -> (next: Option<WorkerState>)
        ensures
            next == next_state(self, event),
    {
        match self {
            WorkerState::Idle => match event {
                WorkerEvent::PollStarted => Some(WorkerState::Polling),
                WorkerEvent::InitFailureStarted => Some(WorkerState::Reporting(Report::InitFailure)),
                _ => None,
            },
            WorkerState::Polling => match event {
                WorkerEvent::EventReceived => Some(WorkerState::Executing),
                WorkerEvent::PollFailed { unrecoverable } => {
                    if unrecoverable {
                        Some(WorkerState::Terminated)
                    } else {
                        Some(WorkerState::Idle)
                    }
                },
                _ => None,
            },
            WorkerState::Executing => match event {
                WorkerEvent::ReportStarted => Some(WorkerState::Reporting(Report::Invocation)),
                _ => None,
            },
            WorkerState::Reporting(Report::Invocation) => match event {
                WorkerEvent::ReportFinished => Some(WorkerState::Idle),
                _ => None,
            },
            WorkerState::Reporting(Report::InitFailure) => match event {
                WorkerEvent::InitFailureFinished { sent } => {
                    if sent {
                        Some(WorkerState::Idle)
                    } else {
                        Some(WorkerState::Terminated)
                    }
                },
                _ => None,
            },
            WorkerState::Terminated => None,
        }
    }

    /// Whether the worker must stop.
    pub fn is_terminated(self) -> (r: bool)
        ensures
            r == (self == WorkerState::Terminated),
    {
        match self {
            WorkerState::Terminated => true,
            _ => false,
        }
    }

    /// Whether a poll may be issued.
    pub fn may_poll(self) -> (r: bool)
        ensures
            r == (next_state(self, WorkerEvent::PollStarted) is Some),
            r == (self == WorkerState::Idle),
    {
        match self {
            WorkerState::Idle => true,
            _ => false,
        }
    }
}

impl WorkerEvent {
    /// The event that the outcome of a poll is.
    pub fn of_poll<T>(outcome: &Result<T, ApiError>) -> (event: WorkerEvent)
        ensures
            event == match *outcome {
                Ok(_) => WorkerEvent::EventReceived,
                Err(e) => WorkerEvent::PollFailed { unrecoverable: e@.unrecoverable },
            },
    {
        match outcome {
            Ok(_) => WorkerEvent::EventReceived,
            Err(e) => WorkerEvent::PollFailed { unrecoverable: !e.is_recoverable() },
        }
    }

    /// The event that the outcome of reporting a failed start is.
    pub fn of_init_failure(outcome: &Result<(), ApiError>) -> (event: WorkerEvent)
        ensures
            event == (WorkerEvent::InitFailureFinished { sent: *outcome is Ok }),
    {
        WorkerEvent::InitFailureFinished { sent: outcome.is_ok() }
    }
}

/// Nothing happens to a worker that must stop.
pub proof fn lemma_terminated_is_final(event: WorkerEvent)
    ensures
        next_state(WorkerState::Terminated, event) is None,
{
}

/// A poll is issued from the idle state and from no other: not while a
/// poll is unanswered, and not while an invocation is in flight.
pub proof fn lemma_poll_only_when_idle(state: WorkerState)
    ensures
        next_state(state, WorkerEvent::PollStarted) is Some <==> state == WorkerState::Idle,
        in_flight(state) ==> next_state(state, WorkerEvent::PollStarted) is None,
{
}

/// A worker must stop after a poll that failed unrecoverably, and after a
/// failed start that could not be reported; nothing else ends it.
pub proof fn lemma_terminated_only_by_fatal_failure(state: WorkerState, event: WorkerEvent)
    ensures
        next_state(state, event) == Some(WorkerState::Terminated) <==> (state
            == WorkerState::Polling && event == (WorkerEvent::PollFailed { unrecoverable: true }))
            || (state == WorkerState::Reporting(Report::InitFailure) && event == (
        WorkerEvent::InitFailureFinished { sent: false })),
{
}

/// Whatever comes of posting the response or the error of an invocation,
/// the worker is idle afterwards.
pub proof fn lemma_report_returns_to_idle(event: WorkerEvent)
    ensures
        next_state(WorkerState::Reporting(Report::Invocation), event) is Some ==> next_state(
            WorkerState::Reporting(Report::Invocation),
            event,
        ) == Some(WorkerState::Idle),
        next_state(WorkerState::Reporting(Report::Invocation), WorkerEvent::ReportFinished)
            is Some,
{
}

/// In a run of events that starts in the idle state, each event that is
/// received is reported before the next poll: whenever a poll is issued, as
/// many reports of invocations have finished as events were received.
pub proof fn lemma_one_invocation_at_a_time(events: Seq<WorkerEvent>)
    requires
        state_after(WorkerState::Idle, events) is Some,
    ensures
        in_flight(state_after(WorkerState::Idle, events)->Some_0) <==> count(
            events,
            WorkerEvent::EventReceived,
        ) == count(events, WorkerEvent::ReportFinished) + 1,
        !in_flight(state_after(WorkerState::Idle, events)->Some_0) <==> count(
            events,
            WorkerEvent::EventReceived,
        ) == count(events, WorkerEvent::ReportFinished),
    decreases events.len(),
{
    if events.len() > 0 {
        lemma_one_invocation_at_a_time(events.drop_last());
    }
}

/// How often `event` occurs in `events`.
pub open spec fn count(events: Seq<WorkerEvent>, event: WorkerEvent) -> nat
    decreases events.len(),
{
    if events.len() == 0 {
        0
    } else if events.last() == event {
        count(events.drop_last(), event) + 1
    } else {
        count(events.drop_last(), event)
    }
}

} // verus!
