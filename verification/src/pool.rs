//! The worker-pool dispatch core.
//!
//! A pool owns a fixed set of workers and one FIFO queue of jobs. Jobs are
//! opaque to the pool: each is identified by the id it was assigned at
//! submission, counting up from zero. The surrounding program keeps the job
//! bodies, runs one OS thread per worker, and drives that thread's run loop
//! by calling [`ThreadPool::dispatch`] and [`ThreadPool::complete`]; the
//! pool decides which job a worker takes, when a worker must keep waiting,
//! and when it may exit. The contracts here pin down the queue discipline:
//! exactly-once delivery, first-in-first-out dispatch, fault-isolated
//! workers, and a shutdown that drains every pending job.

use vstd::prelude::*;

verus! {

/// The lifecycle of one worker's run loop.
#[derive(Clone, Copy, Debug, PartialEq, Eq, Structural)]
pub enum WorkerState {
    /// Blocked awaiting a job.
    Idle,
    /// Executing the job with the given id.
    Running(u64),
    /// The queue closed with nothing pending; the run loop has exited.
    /// There is no transition out of this state.
    Terminated,
}

/// One worker: a small integer id and the state of its run loop.
#[derive(Clone, Copy, Debug, PartialEq, Eq, Structural)]
pub struct Worker {
    pub id: usize,
    pub state: WorkerState,
}

/// The two failure conditions the pool reports.
#[derive(Clone, Copy, Debug, PartialEq, Eq, Structural)]
pub enum PoolError {
    /// Construction was asked for a pool of zero workers, which could
    /// never make progress.
    ZeroSize,
    /// A submission arrived after shutdown began.
    Closed,
}

/// What one step of a worker's run loop decides.
#[derive(Clone, Copy, Debug, PartialEq, Eq, Structural)]
pub enum Dispatch {
    /// Run the job with this id, then report back via `complete`.
    Job(u64),
    /// Nothing is pending but more may come: block until woken, then retry.
    Wait,
    /// The queue closed and nothing is pending: exit the run loop.
    Exit,
}

/// The pool: a fixed set of workers, the queue of pending job ids, and a
/// ghost log of every dispatch that has happened.
pub struct ThreadPool {
    /// The workers, indexed by their ids.
    pub workers: Vec<Worker>,
    /// Ids of submitted, not yet dispatched jobs, in submission order;
    /// the front (index 0) is dispatched next.
    pub queue: Vec<u64>,
    /// How many jobs have been submitted; ids count up from zero.
    pub next_job: u64,
    /// Whether the submitting side is still open; closing it is the first,
    /// irreversible step of shutdown.
    pub open: bool,
    /// Every dispatch so far, in order: which worker took which job.
    pub log: Ghost<Seq<(usize, u64)>>,
}

impl ThreadPool {
    /// How many workers the pool was built with.
    pub open spec fn size(self) -> nat {
        self.workers@.len()
    }

    /// The job the given worker is running, if any.
    pub open spec fn running_job(self, w: int) -> Option<u64> {
        match self.workers[w].state {
            WorkerState::Running(j) => Some(j),
            _ => None,
        }
    }

    /// How many jobs have been handed to workers.
    pub open spec fn dispatched(self) -> nat {
        self.log@.len()
    }

    /// How many of the first `n` workers have not terminated.
    pub open spec fn live_below(self, n: int) -> nat
        decreases n,
    {
        if n <= 0 {
            0
        } else {
            self.live_below(n - 1) + if self.workers[n - 1].state == WorkerState::Terminated {
                0nat
            } else {
                1nat
            }
        }
    }

    /// How many workers are live, i.e. their run loops have not exited.
    pub open spec fn live_workers(self) -> nat {
        self.live_below(self.size() as int)
    }

    /// Every worker's run loop has exited.
    pub open spec fn all_terminated(self) -> bool {
        forall|w: int|
            0 <= w < self.size() ==> self.workers[w].state == WorkerState::Terminated
    }

    /// The pool's invariant. Workers are indexed by their ids; the pending
    /// queue holds exactly the submitted-but-undispatched ids, in
    /// submission order; the log shows each dispatched job handed out
    /// exactly once, in submission order; no two workers run the same job;
    /// and a terminated worker exists only once the queue is closed and
    /// drained.
    pub open spec fn wf(self) -> bool {
        &&& self.size() > 0
        &&& forall|w: int| 0 <= w < self.size() ==> (#[trigger] self.workers[w]).id == w
        &&& self.dispatched() + self.queue.len() == self.next_job
        &&& forall|i: int|
            0 <= i < self.queue.len() ==> #[trigger] self.queue[i] == self.dispatched() + i
        &&& forall|i: int|
            0 <= i < self.log@.len() ==> (#[trigger] self.log@[i]).1 == i && self.log@[i].0
                < self.size()
        &&& forall|w: int|
            0 <= w < self.size() ==> match #[trigger] self.workers[w].state {
                WorkerState::Running(j) => j < self.dispatched() && self.log@[j as int] == (
                (w as usize, j)),
                _ => true,
            }
        &&& forall|w: int|
            0 <= w < self.size() && #[trigger] self.workers[w].state
                == WorkerState::Terminated ==> !self.open && self.queue.len() == 0
    }

    /// Create a pool of `size` workers, every one idle and ready to pull
    /// from the still-empty, still-open queue. A pool of zero workers can
    /// never make progress, so `size == 0` is refused at construction.
    pub fn new(size: usize) -> (r: Result<ThreadPool, PoolError>)
        ensures
            size == 0 <==> r is Err,
            r is Err ==> r == Result::<ThreadPool, PoolError>::Err(PoolError::ZeroSize),
            r matches Ok(p) ==> {
                &&& p.wf()
                &&& p.size() == size
                &&& forall|w: int|
                    0 <= w < size ==> #[trigger] p.workers[w] == (Worker {
                        id: w as usize,
                        state: WorkerState::Idle,
                    })
                &&& p.queue@ == Seq::<u64>::empty()
                &&& p.next_job == 0
                &&& p.open
                &&& p.log@ == Seq::<(usize, u64)>::empty()
            },
    {
        if size == 0 {
            return Err(PoolError::ZeroSize);
        }
        let mut workers: Vec<Worker> = Vec::new();
        let mut i: usize = 0;
        while i < size
            invariant
                i <= size,
                workers.len() == i,
                forall|w: int|
                    0 <= w < i ==> #[trigger] workers[w] == (Worker {
                        id: w as usize,
                        state: WorkerState::Idle,
                    }),
            decreases size - i,
        {
            workers.push(Worker { id: i, state: WorkerState::Idle });
            i += 1;
        }
        Ok(ThreadPool {
            workers,
            queue: Vec::new(),
            next_job: 0,
            open: true,
            log: Ghost(Seq::empty()),
        })
    }

    /// Submit one job. Submission is fire-and-forget: the job's id is
    /// assigned and appended to the back of the queue, and the call returns
    /// at once, without waiting for any worker. Once shutdown has begun the
    /// submission is refused, and reported, never silently dropped.
    pub fn execute(&mut self) -> (r: Result<u64, PoolError>)
        requires
            old(self).wf(),
            old(self).next_job < u64::MAX,
        ensures
            final(self).wf(),
            old(self).open ==> {
                &&& r == Result::<u64, PoolError>::Ok(old(self).next_job)
                &&& final(self).queue@ == old(self).queue@.push(old(self).next_job)
                &&& final(self).next_job == old(self).next_job + 1
            },
            !old(self).open ==> r == Result::<u64, PoolError>::Err(PoolError::Closed)
                && *final(self) == *old(self),
            final(self).workers == old(self).workers,
            final(self).open == old(self).open,
            final(self).log == old(self).log,
    {
        if !self.open {
            return Err(PoolError::Closed);
        }
        let id = self.next_job;
        self.queue.push(id);
        self.next_job = id + 1;
        Ok(id)
    }

    /// Begin shutdown: close the submitting side, so that no further job
    /// can be enqueued. Jobs already pending are untouched and will still
    /// be dispatched; closing is irreversible.
    pub fn close(&mut self)
        requires
            old(self).wf(),
        ensures
            final(self).wf(),
            !final(self).open,
            final(self).workers == old(self).workers,
            final(self).queue == old(self).queue,
            final(self).next_job == old(self).next_job,
            final(self).log == old(self).log,
    {
        self.open = false;
    }

    /// One step of worker `w`'s run loop: try to take the next job.
    ///
    /// If anything is pending, the front of the queue — the oldest
    /// undispatched job — is handed to `w` and to no one else, and the
    /// dispatch is appended to the log. If the queue is empty but still
    /// open, the worker stays idle and must wait. If the queue is empty
    /// and closed, the worker terminates; this is the only way into
    /// `Terminated`, so a worker only ever exits once no job is left for
    /// it.
    pub fn dispatch(&mut self, w: usize) -> (r: Dispatch)
        requires
            old(self).wf(),
            w < old(self).size(),
            old(self).workers[w as int].state == WorkerState::Idle,
        ensures
            final(self).wf(),
            final(self).next_job == old(self).next_job,
            final(self).open == old(self).open,
            old(self).queue.len() > 0 ==> {
                &&& r == Dispatch::Job(old(self).queue[0])
                &&& old(self).queue[0] == old(self).dispatched()
                &&& final(self).queue@ == old(self).queue@.subrange(
                    1,
                    old(self).queue.len() as int,
                )
                &&& final(self).workers@ == old(self).workers@.update(
                    w as int,
                    (Worker { id: w, state: WorkerState::Running(old(self).queue[0]) }),
                )
                &&& final(self).log@ == old(self).log@.push((w, old(self).queue[0]))
            },
            old(self).queue.len() == 0 && old(self).open ==> r == Dispatch::Wait && *final(self)
                == *old(self),
            old(self).queue.len() == 0 && !old(self).open ==> {
                &&& r == Dispatch::Exit
                &&& final(self).queue == old(self).queue
                &&& final(self).log == old(self).log
                &&& final(self).workers@ == old(self).workers@.update(
                    w as int,
                    (Worker { id: w, state: WorkerState::Terminated }),
                )
            },
    {
        if self.queue.len() > 0 {
            let j = self.queue.remove(0);
            self.workers[w].state = WorkerState::Running(j);
            proof {
                self.log@ = self.log@.push((w, j));
            }
            Dispatch::Job(j)
        } else if self.open {
            Dispatch::Wait
        } else {
            self.workers[w].state = WorkerState::Terminated;
            Dispatch::Exit
        }
    }

    /// Worker `w` reports that its job returned or faulted. Either way the
    /// worker goes back to waiting for the next job: a fault is caught at
    /// the run-loop boundary, so `faulted` has no bearing on the pool's
    /// state — one failing job never costs the pool a worker. Nothing else
    /// changes; in particular the job is gone for good, never re-queued.
    pub fn complete(&mut self, w: usize, faulted: bool)
        requires
            old(self).wf(),
            w < old(self).size(),
            old(self).workers[w as int].state is Running,
        ensures
            final(self).wf(),
            completion_post(*old(self), *final(self), w as int),
            final(self).workers[w as int].state == WorkerState::Idle,
    {
        self.workers[w].state = WorkerState::Idle;
    }
}

impl ThreadPool {
    /// How many workers the pool owns. Fixed at construction: workers are
    /// neither added nor replaced, and even a terminated worker keeps its
    /// slot until the pool itself is torn down.
    pub fn worker_count(&self) -> (n: usize)
        ensures
            n == self.size(),
    {
        self.workers.len()
    }

    /// How many jobs have ever been submitted; also the id the next
    /// submission will get.
    pub fn submitted_count(&self) -> (n: u64)
        ensures
            n == self.next_job,
    {
        self.next_job
    }

    /// How many submitted jobs no worker has picked up yet.
    pub fn pending_count(&self) -> (n: usize)
        ensures
            n == self.queue.len(),
    {
        self.queue.len()
    }

    /// Whether submissions are still accepted.
    pub fn is_open(&self) -> (b: bool)
        ensures
            b == self.open,
    {
        self.open
    }

    /// The state of worker `w`'s run loop.
    pub fn worker_state(&self, w: usize) -> (s: WorkerState)
        requires
            w < self.size(),
        ensures
            s == self.workers[w as int].state,
    {
        self.workers[w].state
    }

    /// Whether every worker's run loop has exited, i.e. the teardown's
    /// joins would all return at once.
    pub fn shutdown_complete(&self) -> (b: bool)
        ensures
            b == self.all_terminated(),
    {
        let n = self.workers.len();
        let mut i: usize = 0;
        while i < n
            invariant
                i <= n,
                n == self.size(),
                forall|w: int| 0 <= w < i ==> self.workers[w].state == WorkerState::Terminated,
            decreases n - i,
        {
            match self.workers[i].state {
                WorkerState::Terminated => {
                    i += 1;
                },
                _ => {
                    return false;
                },
            }
        }
        true
    }
}

/// Delivery is exactly-once and in submission order: the log of a
/// well-formed pool records the first `dispatched()` job ids each exactly
/// once, and the `i`-th dispatch hands out the `i`-th submitted job — no
/// job is delivered twice, none is skipped, and no later-submitted job
/// overtakes an earlier one.
pub proof fn lemma_dispatch_exactly_once(p: ThreadPool)
    requires
        p.wf(),
    ensures
        forall|i: int| 0 <= i < p.dispatched() ==> (#[trigger] p.log@[i]).1 == i,
        forall|i: int, k: int|
            0 <= i < p.dispatched() && 0 <= k < p.dispatched() && i != k ==> (
            #[trigger] p.log@[i]).1 != (#[trigger] p.log@[k]).1,
{
}

proof fn lemma_live_below_full(p: ThreadPool, n: int)
    requires
        p.wf(),
        p.open,
        0 <= n <= p.size(),
    ensures
        p.live_below(n) == n,
    decreases n,
{
    if n > 0 {
        lemma_live_below_full(p, n - 1);
        assert(p.workers[n - 1].state != WorkerState::Terminated);
    }
}

/// An open pool is at full capacity: none of its workers has terminated.
/// Construction yields exactly `size` live workers, and since completion
/// of a job — faulting or not — leaves the pool open if it was open, no
/// amount of submitted, dispatched, faulting or finished jobs shrinks the
/// pool below `size` live workers before shutdown begins.
pub proof fn lemma_open_pool_fully_live(p: ThreadPool)
    requires
        p.wf(),
        p.open,
    ensures
        p.live_workers() == p.size(),
{
    lemma_live_below_full(p, p.size() as int);
}

/// No job is ever run by two workers at once: in a well-formed pool two
/// distinct workers never hold the same running job.
pub proof fn lemma_running_jobs_distinct(p: ThreadPool, w1: int, w2: int)
    requires
        p.wf(),
        0 <= w1 < p.size(),
        0 <= w2 < p.size(),
        w1 != w2,
        p.running_job(w1) is Some,
    ensures
        p.running_job(w1) != p.running_job(w2),
{
}

/// Shutdown drains the pool: once every worker has terminated, nothing is
/// pending, the queue is closed, and every job ever submitted was
/// dispatched (and, workers being terminated rather than running,
/// finished). Teardown joins every worker, so it cannot return before
/// this state is reached.
pub proof fn lemma_shutdown_drained(p: ThreadPool)
    requires
        p.wf(),
        p.all_terminated(),
    ensures
        p.queue.len() == 0,
        !p.open,
        p.dispatched() == p.next_job,
{
    assert(p.workers[0].state == WorkerState::Terminated);
}

/// A fault inside a job is invisible to the pool: from the same
/// pre-completion state, the pool after a faulting job's completion and
/// the pool after a clean job's completion agree in every part.
pub proof fn lemma_fault_isolation(
    pre: ThreadPool,
    post_faulted: ThreadPool,
    post_clean: ThreadPool,
    w: int,
)
    requires
        completion_post(pre, post_faulted, w),
        completion_post(pre, post_clean, w),
    ensures
        post_faulted.workers@ == post_clean.workers@,
        post_faulted.queue@ == post_clean.queue@,
        post_faulted.next_job == post_clean.next_job,
        post_faulted.open == post_clean.open,
        post_faulted.log@ == post_clean.log@,
{
}

/// After any completion — faulting or not — the worker is idle in a
/// well-formed pool again, so it satisfies everything `dispatch` asks of
/// a worker and can pick up the very next job.
pub proof fn lemma_worker_survives_fault(pre: ThreadPool, post: ThreadPool, w: int)
    requires
        pre.wf(),
        0 <= w < pre.size(),
        pre.workers[w].state is Running,
        completion_post(pre, post, w),
    ensures
        post.wf(),
        post.size() == pre.size(),
        post.workers[w].state == WorkerState::Idle,
{
}

/// How a pool looks after worker `w` completes its job, relative to how it
/// looked before: the worker is idle again and everything else — queue,
/// submission count, openness, dispatch log — is untouched. Whether the
/// job faulted does not appear here: completion after a caught fault is
/// indistinguishable from completion after a clean return.
pub open spec fn completion_post(pre: ThreadPool, post: ThreadPool, w: int) -> bool {
    &&& post.workers@ == pre.workers@.update(
        w,
        (Worker { id: w as usize, state: WorkerState::Idle }),
    )
    &&& post.queue == pre.queue
    &&& post.next_job == pre.next_job
    &&& post.open == pre.open
    &&& post.log == pre.log
}

} // verus!
