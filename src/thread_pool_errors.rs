use vstd::prelude::*;
use vstd::string::*;

verus! {

/// A worker thread could not be started; `details` says why.
#[derive(Debug)]
pub struct WorkerCreationError {
    details: String,
}

/// The text that prefixes every worker creation message.
pub open spec fn worker_error_prefix() -> Seq<char> {
    seq!['E', 'r', 'r', 'o', 'r', ' ', 'c', 'r', 'e', 'a', 't', 'i', 'n', 'g', ' ',
        'w', 'o', 'r', 'k', 'e', 'r', ':', ' ']
}

impl WorkerCreationError {
    pub closed spec fn details_view(&self) -> Seq<char> {
        self.details@
    }

    pub fn new(details: String) -> (r: Self)
        ensures
            r.details_view() == details@,
    {
        Self { details }
    }

    pub fn details(&self) -> (r: &str)
        ensures
            r@ == self.details_view(),
    {
        self.details.as_str()
    }

    /// The human-readable message: the fixed prefix, then the details.
    pub fn message(&self) -> (r: String)
        ensures
            r@ == worker_error_prefix() + self.details_view(),
    {
        let prefix = "Error creating worker: ";
        proof {
            reveal_strlit("Error creating worker: ");
        }
        let r = String::from_str(prefix).concat(self.details.as_str());
        assert(prefix@ =~= worker_error_prefix());
        r
    }
}

/// Why a pool could not be built.
#[derive(Debug)]
pub enum PoolCreationError {
    /// A pool needs at least one worker.
    ZeroSize,
    /// The worker with this id failed to start.
    WorkerSpawn { id: usize, cause: WorkerCreationError },
}

/// The pool's sending side is closed: it is shutting down or shut down.
#[derive(Debug, Clone, Copy, PartialEq, Eq, Structural)]
pub struct SubmissionError;

} // verus!
