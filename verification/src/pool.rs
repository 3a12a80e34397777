//! The bounded blocking-task pool: a fixed number of worker threads that run
//! submitted blocking tasks to completion, at most one task per worker at a
//! time, queueing excess tasks until a worker frees up.

use vstd::prelude::*;
use crate::errors::BridgeError;

verus! {

#[verifier::external_type_specification]
#[verifier::external_body]
pub struct ExThreadPool(threadpool::ThreadPool);

/// Relies on threadpool::ThreadPool::new: a pool with exactly `n` worker
/// threads. It panics when `n` is zero, so that input is excluded here.
#[verifier::external_body]
fn workers_new(n: usize) -> (r: threadpool::ThreadPool)
    requires
        n >= 1,
{
    threadpool::ThreadPool::new(n)
}

/// Relies on threadpool::ThreadPool::clone: the clone is another handle to the
/// same workers and the same job queue.
#[verifier::external_body]
fn workers_clone(p: &threadpool::ThreadPool) -> (r: threadpool::ThreadPool)
{
    p.clone()
}

/// Relies on threadpool::ThreadPool::execute: enqueues the job and returns at
/// once; an idle worker thread eventually runs the job to completion, and each
/// worker runs at most one job at a time.
#[verifier::external_body]
fn workers_execute<F: FnOnce() + Send + 'static>(p: &threadpool::ThreadPool, job: F)
    requires
        call_requires(job, ()),
{
    p.execute(job);
}

/// A shared handle to a fixed set of worker threads. Cloning the handle shares
/// the workers; the only caller-visible mutation is through `submit`.
pub struct Pool {
    workers: threadpool::ThreadPool,
    size: usize,
}

impl Pool {
    /// How many tasks may run concurrently: the number of worker slots.
    pub closed spec fn capacity(self) -> int {
        self.size as int
    }

    /// A pool is well formed when it has at least one worker slot.
    pub closed spec fn wf(self) -> bool {
        self.size >= 1
    }

    /// Builds a pool with exactly `n` worker slots. A size of zero is a
    /// configuration error and is rejected; every other size succeeds.
    pub fn new(n: usize) -> (r: Option<Pool>)
        ensures
            r is Some <==> n >= 1,
            r matches Some(p) ==> p.wf() && p.capacity() == n as int,
    {
        if n >= 1 {
            Some(Pool { workers: workers_new(n), size: n })
        } else {
            None
        }
    }

    /// The number of worker slots this pool was built with.
    pub fn size(&self) -> (n: usize)
        ensures
            n as int == self.capacity(),
    {
        self.size
    }

    /// Enqueues `task` for execution and returns at once; the task's result,
    /// if any, travels out-of-band through whatever handoff the task captured.
    /// This pool is never shut down while a handle to it exists, so submission
    /// always succeeds; `PoolClosed` is the kind a shut-down pool would answer
    /// with.
    pub fn submit<F: FnOnce() + Send + 'static>(&self, task: F) -> (r: Result<(), BridgeError>)
        requires
            self.wf(),
            call_requires(task, ()),
        ensures
            r is Ok,
    {
        workers_execute(&self.workers, task);
        Ok(())
    }
}

impl Clone for Pool {
    /// Another handle to the same workers, with the same capacity.
    fn clone(&self) -> (r: Self)
        ensures
            r.capacity() == self.capacity(),
            r.wf() == self.wf(),
    {
        Pool { workers: workers_clone(&self.workers), size: self.size }
    }
}

/// One scheduling event inside a pool.
pub enum PoolEvent {
    /// A task is submitted and joins the queue.
    Submit,
    /// An idle worker picks a queued task and begins running it.
    Start,
    /// A running task finishes and its worker becomes idle.
    Finish,
}

/// A snapshot of a pool's scheduling state: how many tasks wait in the queue,
/// how many run on workers, and how many have finished.
pub struct PoolSched {
    pub capacity: int,
    pub queued: int,
    pub running: int,
    pub finished: int,
}

/// A fresh pool of `capacity` worker slots: nothing queued, running or done.
pub open spec fn sched_init(capacity: int) -> PoolSched {
    PoolSched { capacity, queued: 0, running: 0, finished: 0 }
}

/// The pool's scheduling discipline: a submitted task joins the queue; a
/// queued task starts only when a worker slot is free, that is when fewer than
/// `capacity` tasks run; a finished task frees its slot. Events that nothing
/// enables leave the state unchanged.
pub open spec fn sched_step(s: PoolSched, e: PoolEvent) -> PoolSched {
    match e {
        PoolEvent::Submit => PoolSched {
            capacity: s.capacity,
            queued: s.queued + 1,
            running: s.running,
            finished: s.finished,
        },
        PoolEvent::Start => if s.queued > 0 && s.running < s.capacity {
            PoolSched {
                capacity: s.capacity,
                queued: s.queued - 1,
                running: s.running + 1,
                finished: s.finished,
            }
        } else {
            s
        },
        PoolEvent::Finish => if s.running > 0 {
            PoolSched {
                capacity: s.capacity,
                queued: s.queued,
                running: s.running - 1,
                finished: s.finished + 1,
            }
        } else {
            s
        },
    }
}

/// The state a fresh pool of `capacity` slots reaches after the events `es`.
pub open spec fn sched_run(capacity: int, es: Seq<PoolEvent>) -> PoolSched
    decreases es.len(),
{
    if es.len() == 0 {
        sched_init(capacity)
    } else {
        sched_step(sched_run(capacity, es.drop_last()), es.last())
    }
}

/// The counts a reachable scheduling state can show.
pub open spec fn sched_ok(s: PoolSched) -> bool {
    &&& 0 <= s.queued
    &&& 0 <= s.running <= s.capacity
    &&& 0 <= s.finished
}

/// How many of the events `es` submit a task.
pub open spec fn submit_count(es: Seq<PoolEvent>) -> int
    decreases es.len(),
{
    if es.len() == 0 {
        0
    } else {
        submit_count(es.drop_last()) + if es.last() is Submit {
            1int
        } else {
            0int
        }
    }
}

/// Law: whatever tasks are submitted to a pool of at least one slot and in
/// whatever order its workers pick them up, at most `capacity` tasks run
/// concurrently at any instant, and no task is lost: every submitted task is
/// still queued, running, or finished.
pub proof fn lemma_sched_bounded(capacity: int, es: Seq<PoolEvent>)
    requires
        capacity >= 1,
    ensures
        sched_ok(sched_run(capacity, es)),
        sched_run(capacity, es).capacity == capacity,
        sched_run(capacity, es).running <= capacity,
        sched_run(capacity, es).queued + sched_run(capacity, es).running + sched_run(
            capacity,
            es,
        ).finished == submit_count(es),
    decreases es.len(),
{
    if es.len() == 0 {
        assert(sched_run(capacity, es) == sched_init(capacity));
    } else {
        lemma_sched_bounded(capacity, es.drop_last());
        assert(sched_run(capacity, es) == sched_step(
            sched_run(capacity, es.drop_last()),
            es.last(),
        ));
    }
}

} // verus!
