use multi_thread_server::worker::{on_finished, on_receive, WorkerAction, WorkerState};

#[test]
fn received_job_is_run() {
    let (state, action) = on_receive(WorkerState::Running, Some(7u32));
    assert_eq!(state, WorkerState::Running);
    assert!(matches!(action, WorkerAction::Run(7)));
}

#[test]
fn closed_queue_terminates() {
    let (state, action) = on_receive::<u32>(WorkerState::Running, None);
    assert_eq!(state, WorkerState::Terminated);
    assert!(matches!(action, WorkerAction::Exit));
}

#[test]
fn terminated_worker_stays_terminated() {
    let (state, action) = on_receive(WorkerState::Terminated, Some(1u32));
    assert_eq!(state, WorkerState::Terminated);
    assert!(matches!(action, WorkerAction::Exit));
}

#[test]
fn failure_is_reported_and_worker_keeps_running() {
    let (state, failure) = on_finished(WorkerState::Running, Err::<(), &str>("boom"));
    assert_eq!(state, WorkerState::Running);
    assert_eq!(failure, Some("boom"));
    let (state, failure) = on_finished(state, Ok::<(), &str>(()));
    assert_eq!(state, WorkerState::Running);
    assert_eq!(failure, None);
    let (state, action) = on_receive(state, Some("next"));
    assert_eq!(state, WorkerState::Running);
    assert!(matches!(action, WorkerAction::Run("next")));
}
