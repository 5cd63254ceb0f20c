use lambda_runtime_client::{ApiError, ErrorKind, Report, WorkerEvent, WorkerState};

const EVENTS: [WorkerEvent; 9] = [
    WorkerEvent::PollStarted,
    WorkerEvent::EventReceived,
    WorkerEvent::PollFailed { unrecoverable: false },
    WorkerEvent::PollFailed { unrecoverable: true },
    WorkerEvent::ReportStarted,
    WorkerEvent::ReportFinished,
    WorkerEvent::InitFailureStarted,
    WorkerEvent::InitFailureFinished { sent: true },
    WorkerEvent::InitFailureFinished { sent: false },
];

const STATES: [WorkerState; 6] = [
    WorkerState::Idle,
    WorkerState::Polling,
    WorkerState::Executing,
    WorkerState::Reporting(Report::Invocation),
    WorkerState::Reporting(Report::InitFailure),
    WorkerState::Terminated,
];

#[test]
fn a_worker_starts_idle() {
    assert_eq!(WorkerState::new(), WorkerState::Idle);
    assert!(WorkerState::new().may_poll());
    assert!(!WorkerState::new().is_terminated());
}

#[test]
fn one_invocation_goes_round_to_idle() {
    let s = WorkerState::new();
    let s = s.step(WorkerEvent::PollStarted).unwrap();
    assert_eq!(s, WorkerState::Polling);
    let s = s.step(WorkerEvent::EventReceived).unwrap();
    assert_eq!(s, WorkerState::Executing);
    let s = s.step(WorkerEvent::ReportStarted).unwrap();
    assert_eq!(s, WorkerState::Reporting(Report::Invocation));
    let s = s.step(WorkerEvent::ReportFinished).unwrap();
    assert_eq!(s, WorkerState::Idle);
}

#[test]
fn a_recoverable_poll_failure_returns_to_idle() {
    let s = WorkerState::Polling.step(WorkerEvent::PollFailed { unrecoverable: false });
    assert_eq!(s, Some(WorkerState::Idle));
}

#[test]
fn an_unrecoverable_poll_failure_terminates() {
    let s = WorkerState::Polling.step(WorkerEvent::PollFailed { unrecoverable: true });
    assert_eq!(s, Some(WorkerState::Terminated));
    assert!(s.unwrap().is_terminated());
}

#[test]
fn an_unsent_init_failure_terminates() {
    let s = WorkerState::Idle.step(WorkerEvent::InitFailureStarted).unwrap();
    assert_eq!(s, WorkerState::Reporting(Report::InitFailure));
    assert_eq!(
        s.step(WorkerEvent::InitFailureFinished { sent: false }),
        Some(WorkerState::Terminated)
    );
    assert_eq!(s.step(WorkerEvent::InitFailureFinished { sent: true }), Some(WorkerState::Idle));
    assert_eq!(s.step(WorkerEvent::ReportFinished), None);
}

#[test]
fn nothing_follows_termination() {
    for event in EVENTS {
        assert_eq!(WorkerState::Terminated.step(event), None);
    }
}

#[test]
fn a_poll_starts_only_when_idle() {
    for state in STATES {
        assert_eq!(state.step(WorkerEvent::PollStarted).is_some(), state == WorkerState::Idle);
        assert_eq!(state.may_poll(), state == WorkerState::Idle);
    }
}

#[test]
fn only_two_failures_terminate() {
    for state in STATES {
        for event in EVENTS {
            let fatal = (state == WorkerState::Polling
                && event == WorkerEvent::PollFailed { unrecoverable: true })
                || (state == WorkerState::Reporting(Report::InitFailure)
                    && event == WorkerEvent::InitFailureFinished { sent: false });
            assert_eq!(state.step(event) == Some(WorkerState::Terminated), fatal);
        }
    }
}

#[test]
fn the_table_has_nine_steps() {
    let mut steps = 0;
    for state in STATES {
        for event in EVENTS {
            if state.step(event).is_some() {
                steps += 1;
            }
        }
    }
    assert_eq!(steps, 9);
}

#[test]
fn events_of_outcomes() {
    let ok: Result<u8, ApiError> = Ok(1);
    assert_eq!(WorkerEvent::of_poll(&ok), WorkerEvent::EventReceived);
    let failed: Result<u8, ApiError> = Err(ApiError::new(ErrorKind::Status(404), "x"));
    assert_eq!(WorkerEvent::of_poll(&failed), WorkerEvent::PollFailed { unrecoverable: false });
    let fatal: Result<u8, ApiError> = Err(ApiError::new(ErrorKind::Status(500), "x").unrecoverable());
    assert_eq!(WorkerEvent::of_poll(&fatal), WorkerEvent::PollFailed { unrecoverable: true });
    assert_eq!(
        WorkerEvent::of_init_failure(&Ok(())),
        WorkerEvent::InitFailureFinished { sent: true }
    );
    assert_eq!(
        WorkerEvent::of_init_failure(&Err(ApiError::transport("x").unrecoverable())),
        WorkerEvent::InitFailureFinished { sent: false }
    );
}
