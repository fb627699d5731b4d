use vstd::prelude::*;

use crate::thread_pool_errors::{PoolCreationError, SubmissionError, WorkerCreationError};

verus! {

/// One worker: its ordinal id and, until shutdown takes it, its thread handle.
struct Worker<H> {
    id: usize,
    thread: Option<H>,
}

/// The handles still held by `slots`, each with its worker's id, in slot order.
pub open spec fn live_handles<H>(slots: Seq<(usize, Option<H>)>) -> Seq<(usize, H)>
    decreases slots.len(),
{
    if slots.len() == 0 {
        seq![]
    } else {
        let rest = live_handles(slots.drop_last());
        match slots.last().1 {
            Some(h) => rest.push((slots.last().0, h)),
            None => rest,
        }
    }
}

/// A fixed set of workers and the sending end of their shared job queue.
///
/// `S` is the sending end of the queue and `H` the handle of a worker thread;
/// the pool decides when each is handed out, the caller does the sending and
/// the joining.
pub struct ThreadPool<S, H> {
    workers: Vec<Worker<H>>,
    sender: Option<S>,
}

impl<S, H> ThreadPool<S, H> {
    /// Each worker as (id, thread handle if not yet taken), in construction order.
    pub closed spec fn slots(&self) -> Seq<(usize, Option<H>)> {
        self.workers@.map_values(|w: Worker<H>| (w.id, w.thread))
    }

    /// The sending end while the pool accepts jobs; `None` once it is closed.
    pub closed spec fn sender_spec(&self) -> Option<S> {
        self.sender
    }

    pub open spec fn is_open(&self) -> bool {
        self.sender_spec() is Some
    }

    pub open spec fn size_spec(&self) -> nat {
        self.slots().len()
    }

    /// Worker `i` has id `i`, for every slot.
    pub open spec fn ids_in_order(&self) -> bool {
        forall|i: int| 0 <= i < self.slots().len() ==> #[trigger] self.slots()[i].0 == i
    }

    /// Every worker still holds its thread handle.
    pub open spec fn all_running(&self) -> bool {
        forall|i: int| 0 <= i < self.slots().len() ==> (#[trigger] self.slots()[i]).1 is Some
    }

    /// No worker holds a thread handle any more.
    pub open spec fn all_taken(&self) -> bool {
        forall|i: int| 0 <= i < self.slots().len() ==> (#[trigger] self.slots()[i]).1 is None
    }

    /// Builds a pool of `size` workers around the queue's sending end.
    ///
    /// `spawn(id)` starts the thread of worker `id`; workers are started in
    /// id order and the first failure ends construction. On any error the
    /// sending end is dropped, which closes the queue for the threads that
    /// were already started.
    pub fn build<F>(size: usize, sender: S, spawn: F) -> (r: Result<Self, PoolCreationError>) where
        F: Fn(usize) -> Result<H, WorkerCreationError>,
        requires
            forall|id: usize| id < size ==> #[trigger] spawn.requires((id,)),
        ensures
            size == 0 <==> r matches Err(PoolCreationError::ZeroSize),
            r matches Ok(p) ==> {
                &&& p.size_spec() == size
                &&& p.sender_spec() == Some(sender)
                &&& p.ids_in_order()
                &&& p.all_running()
                &&& forall|i: int|
                    0 <= i < size ==> spawn.ensures(
                        (i as usize,),
                        Ok::<H, WorkerCreationError>((#[trigger] p.slots()[i]).1.unwrap()),
                    )
            },
            r matches Err(PoolCreationError::WorkerSpawn { id, cause }) ==> {
                &&& id < size
                &&& spawn.ensures((id,), Err::<H, WorkerCreationError>(cause))
            },
            (size > 0 && forall|id: usize, res: Result<H, WorkerCreationError>|
                id < size && #[trigger] spawn.ensures((id,), res) ==> res is Ok) ==> r is Ok,
    {
        if size == 0 {
            return Err(PoolCreationError::ZeroSize);
        }
        let mut workers: Vec<Worker<H>> = Vec::with_capacity(size);
        let mut id: usize = 0;
        while id < size
            invariant
                id <= size,
                workers@.len() == id,
                forall|i: int|
                    0 <= i < id ==> (#[trigger] workers@[i]).id == i && workers@[i].thread is Some
                        && spawn.ensures((i as usize,), Ok::<H, WorkerCreationError>(workers@[i].thread.unwrap())),
                forall|i: usize| i < size ==> #[trigger] spawn.requires((i,)),
            decreases size - id,
        {
            match spawn(id) {
                Ok(thread) => {
                    workers.push(Worker { id, thread: Some(thread) });
                },
                Err(cause) => {
                    return Err(PoolCreationError::WorkerSpawn { id, cause });
                },
            }
            id = id + 1;
        }
        let pool = ThreadPool { workers, sender: Some(sender) };
        assert forall|i: int| 0 <= i < size implies spawn.ensures(
            (i as usize,),
            Ok::<H, WorkerCreationError>((#[trigger] pool.slots()[i]).1.unwrap()),
        ) by {
            assert(pool.slots()[i] == (pool.workers@[i].id, pool.workers@[i].thread));
        }
        Ok(pool)
    }
    /// The number of workers the pool was built with.
    pub fn size(&self) -> (r: usize)
        ensures
            r == self.size_spec(),
    {
        self.workers.len()
    }

    /// Submits `job` by handing it, with the open sending end, to `send`.
    ///
    /// Once the pool is shut down nothing is sent and the submission fails.
    pub fn execute<J, F>(&self, job: J, send: F) -> (r: Result<(), SubmissionError>) where
        F: FnOnce(&S, J) -> Result<(), SubmissionError>,
        requires
            forall|s: &S| #[trigger] send.requires((s, job)),
        ensures
            !self.is_open() ==> r == Err::<(), SubmissionError>(SubmissionError),
            self.is_open() ==> send.ensures((&self.sender_spec().unwrap(), job), r),
    {
        match &self.sender {
            Some(s) => send(s, job),
            None => Err(SubmissionError),
        }
    }

    /// Closes the queue and takes every thread handle still held.
    ///
    /// Returns the sending end, whose drop closes the queue, and the handles
    /// with their worker ids in construction order, to be joined in that
    /// order. A second call finds nothing left and returns `(None, [])`.
    pub fn shutdown(&mut self) -> (r: (Option<S>, Vec<(usize, H)>))
        ensures
            r.0 == old(self).sender_spec(),
            r.1@ == live_handles(old(self).slots()),
            !final(self).is_open(),
            final(self).size_spec() == old(self).size_spec(),
            final(self).all_taken(),
            forall|i: int|
                0 <= i < final(self).slots().len() ==> (#[trigger] final(self).slots()[i]).0
                    == old(self).slots()[i].0,
    {
        let sender = self.sender.take();
        let mut rest: Vec<Worker<H>> = Vec::new();
        std::mem::swap(&mut rest, &mut self.workers);
        let ghost orig = rest@;
        let ghost slots0 = old(self).slots();
        let n = rest.len();
        let mut handles: Vec<(usize, H)> = Vec::new();
        let mut i: usize = 0;
        while i < n
            invariant
                i <= n,
                n == orig.len(),
                slots0 == orig.map_values(|w: Worker<H>| (w.id, w.thread)),
                rest@ == orig.subrange(i as int, n as int),
                self.workers@.len() == i,
                self.sender is None,
                forall|k: int|
                    0 <= k < i ==> (#[trigger] self.workers@[k]).id == orig[k].id
                        && self.workers@[k].thread is None,
                handles@ == live_handles(slots0.subrange(0, i as int)),
            decreases n - i,
        {
            let w = rest.remove(0);
            proof {
                let pre = slots0.subrange(0, i as int + 1);
                assert(pre.drop_last() =~= slots0.subrange(0, i as int));
                assert(pre.last() == (w.id, w.thread));
            }
            match w.thread {
                Some(h) => handles.push((w.id, h)),
                None => {},
            }
            self.workers.push(Worker { id: w.id, thread: None });
            i = i + 1;
        }
        proof {
            assert(slots0.subrange(0, n as int) =~= slots0);
        }
        (sender, handles)
    }
}

proof fn lemma_live_handles_of_full<H>(slots: Seq<(usize, Option<H>)>)
    requires
        forall|i: int| 0 <= i < slots.len() ==> (#[trigger] slots[i]).1 is Some,
    ensures
        live_handles(slots).len() == slots.len(),
        forall|i: int|
            0 <= i < slots.len() ==> (#[trigger] live_handles(slots)[i]).0 == slots[i].0 && Some(
                live_handles(slots)[i].1,
            ) == slots[i].1,
    decreases slots.len(),
{
    if slots.len() > 0 {
        let pre = slots.drop_last();
        assert forall|i: int| 0 <= i < pre.len() implies (#[trigger] pre[i]).1 is Some by {
            assert(pre[i] == slots[i]);
        }
        lemma_live_handles_of_full(pre);
        assert(slots[slots.len() - 1] == slots.last());
    }
}

proof fn lemma_live_handles_of_empty<H>(slots: Seq<(usize, Option<H>)>)
    requires
        forall|i: int| 0 <= i < slots.len() ==> (#[trigger] slots[i]).1 is None,
    ensures
        live_handles(slots) == Seq::<(usize, H)>::empty(),
    decreases slots.len(),
{
    if slots.len() > 0 {
        let pre = slots.drop_last();
        assert forall|i: int| 0 <= i < pre.len() implies (#[trigger] pre[i]).1 is None by {
            assert(pre[i] == slots[i]);
        }
        lemma_live_handles_of_empty(pre);
        assert(slots[slots.len() - 1] == slots.last());
    }
}

/// Shutting down a pool whose workers all run hands back one handle per
/// worker, in construction order, each with that worker's id: every thread
/// is joined and none is left behind.
pub proof fn lemma_shutdown_takes_every_thread<S, H>(pool: ThreadPool<S, H>)
    requires
        pool.all_running(),
    ensures
        live_handles(pool.slots()).len() == pool.size_spec(),
        forall|i: int|
            0 <= i < pool.size_spec() ==> (#[trigger] live_handles(pool.slots())[i]).0
                == pool.slots()[i].0 && Some(live_handles(pool.slots())[i].1) == pool.slots()[i].1,
{
    lemma_live_handles_of_full(pool.slots());
}

/// A pool that has been shut down holds no thread handle and no sending end,
/// so a second shutdown hands back nothing and a submission fails.
pub proof fn lemma_shutdown_twice_is_noop<S, H>(pool: ThreadPool<S, H>)
    requires
        pool.all_taken(),
        !pool.is_open(),
    ensures
        live_handles(pool.slots()) == Seq::<(usize, H)>::empty(),
        pool.sender_spec() is None,
{
    lemma_live_handles_of_empty(pool.slots());
}

} // verus!
