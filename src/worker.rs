use vstd::prelude::*;

verus! {

/// The life of a worker: it runs jobs until the queue is closed and empty.
#[derive(Debug, Clone, Copy, PartialEq, Eq, Structural)]
pub enum WorkerState {
    Running,
    Terminated,
}

/// What a worker does next.
#[derive(Debug)]
pub enum WorkerAction<J> {
    /// Run this job, with the queue released.
    Run(J),
    /// Leave the loop; the thread ends.
    Exit,
}

/// The step taken on a receive: a job is run, a closed and empty queue ends
/// the worker, and a terminated worker stays terminated.
pub open spec fn receive_step<J>(state: WorkerState, received: Option<J>) -> (WorkerState, WorkerAction<J>) {
    match (state, received) {
        (WorkerState::Running, Some(job)) => (WorkerState::Running, WorkerAction::Run(job)),
        _ => (WorkerState::Terminated, WorkerAction::Exit),
    }
}

/// The step taken once a job has finished: the worker keeps running, and a
/// failure is handed back to be reported, never propagated.
pub open spec fn finish_step<E>(state: WorkerState, outcome: Result<(), E>) -> (WorkerState, Option<E>) {
    (state, match outcome {
        Ok(()) => None,
        Err(e) => Some(e),
    })
}

/// Decides what a worker does with the outcome of a receive on the queue:
/// `Some(job)` when a job was taken, `None` when the queue is closed and empty.
pub fn on_receive<J>(state: WorkerState, received: Option<J>) -> (r: (WorkerState, WorkerAction<J>))
    ensures
        r == receive_step(state, received),
{
    match state {
        WorkerState::Running => match received {
            Some(job) => (WorkerState::Running, WorkerAction::Run(job)),
            None => (WorkerState::Terminated, WorkerAction::Exit),
        },
        WorkerState::Terminated => (WorkerState::Terminated, WorkerAction::Exit),
    }
}

/// Decides what a worker does once a job has run: it goes back to the queue,
/// and returns the job's error, if any, for the caller to report.
pub fn on_finished<E>(state: WorkerState, outcome: Result<(), E>) -> (r: (WorkerState, Option<E>))
    ensures
        r == finish_step(state, outcome),
{
    match outcome {
        Ok(()) => (state, None),
        Err(e) => (state, Some(e)),
    }
}

/// A failing job does not end its worker: after the failure is reported the
/// worker is still running, and the next job it receives is run.
pub proof fn lemma_failure_keeps_worker<J, E>(err: E, next: J)
    ensures
        finish_step(WorkerState::Running, Err::<(), E>(err)) == (WorkerState::Running, Some(err)),
        receive_step(finish_step(WorkerState::Running, Err::<(), E>(err)).0, Some(next))
            == (WorkerState::Running, WorkerAction::Run(next)),
{
}

/// A worker terminates only on a closed and empty queue, and stays terminated.
pub proof fn lemma_terminates_only_on_close<J>(state: WorkerState, received: Option<J>)
    ensures
        receive_step(state, received).0 == WorkerState::Terminated <==> (state
            == WorkerState::Terminated || received is None),
        state == WorkerState::Terminated ==> receive_step(state, received).1 is Exit,
{
}

} // verus!
