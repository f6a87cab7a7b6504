//! The worker pool's discipline: a fixed number of workers, fixed at
//! construction and at least one, sharing one FIFO task queue. Every
//! scheduling decision — whether a task may start, which task starts, when
//! a worker may exit — is a verified step on a value of [`Pool`]; the
//! threaded runtime around the library drives one such value under a lock.

use vstd::prelude::*;
use crate::queue::TaskQueue;

verus! {

/// The state of a fixed-size worker pool: the tasks still queued, the
/// number of tasks currently executing, and whether the pool still accepts
/// new work.
pub struct Pool<T> {
    size: usize,
    queue: TaskQueue<T>,
    running: usize,
    closed: bool,
}

impl<T> Pool<T> {
    /// The number of workers, fixed at construction.
    pub closed spec fn pool_size(self) -> int {
        self.size as int
    }

    /// The tasks submitted and not yet started, in arrival order.
    pub closed spec fn pending(self) -> Seq<T> {
        self.queue@
    }

    /// The number of tasks currently executing.
    pub closed spec fn active(self) -> int {
        self.running as int
    }

    /// The pool no longer accepts new tasks (teardown has begun).
    pub closed spec fn is_closed(self) -> bool {
        self.closed
    }

    /// A pool is well formed when it has at least one worker and no more
    /// tasks executing than workers.
    pub open spec fn wf(self) -> bool {
        1 <= self.pool_size() && self.active() <= self.pool_size()
    }

    /// A queued task may start exactly when some worker is free.
    pub open spec fn can_start(self) -> bool {
        self.active() < self.pool_size() && self.pending().len() > 0
    }

    /// Constructs a pool of `size` workers, or nothing: a pool of zero
    /// workers could never make progress, so size zero is refused at
    /// construction, never accepted silently.
    pub fn try_new(size: usize) -> (r: Option<Self>)
        ensures
            r is Some <==> size >= 1,
            r matches Some(p) ==> p.wf() && p.pool_size() == size && p.pending()
                == Seq::<T>::empty() && p.active() == 0 && !p.is_closed(),
    {
        if size == 0 {
            None
        } else {
            Some(Pool { size, queue: TaskQueue::new(), running: 0, closed: false })
        }
    }

    /// Constructs a pool of `size` workers. A zero size is a programming
    /// error and is excluded here; a caller that cannot rule it out uses
    /// [`Pool::try_new`] and fails loudly on `None`.
    pub fn new(size: usize) -> (p: Self)
        requires
            size >= 1,
        ensures
            p.wf(),
            p.pool_size() == size,
            p.pending() == Seq::<T>::empty(),
            p.active() == 0,
            !p.is_closed(),
    {
        Pool { size, queue: TaskQueue::new(), running: 0, closed: false }
    }

    pub fn size(&self) -> (n: usize)
        ensures
            n == self.pool_size(),
    {
        self.size
    }

    pub fn pending_len(&self) -> (n: usize)
        ensures
            n == self.pending().len(),
    {
        self.queue.len()
    }

    pub fn active_count(&self) -> (n: usize)
        ensures
            n == self.active(),
    {
        self.running
    }

    pub fn is_open(&self) -> (b: bool)
        ensures
            b == !self.is_closed(),
    {
        !self.closed
    }

    /// Enqueues a task at the back of the shared line. Submission never
    /// blocks and never loses work: the queue grows by exactly the
    /// submitted task, and nothing else changes.
    pub fn submit(&mut self, task: T)
        requires
            old(self).wf(),
            !old(self).is_closed(),
        ensures
            final(self).wf(),
            final(self).pending() == old(self).pending().push(task),
            final(self).pool_size() == old(self).pool_size(),
            final(self).active() == old(self).active(),
            !final(self).is_closed(),
    {
        self.queue.push_back(task);
    }

    /// A free worker claims the task at the front of the queue. A task is
    /// handed out exactly when one is queued and a worker is free; it is
    /// the oldest one, it leaves the queue, and it occupies one worker
    /// until [`Pool::finish_one`].
    pub fn start_next(&mut self) -> (r: Option<T>)
        requires
            old(self).wf(),
        ensures
            final(self).wf(),
            final(self).pool_size() == old(self).pool_size(),
            final(self).is_closed() == old(self).is_closed(),
            r is Some <==> old(self).can_start(),
            r matches Some(t) ==> t == old(self).pending()[0] && final(self).pending() == old(
                self,
            ).pending().drop_first() && final(self).active() == old(self).active() + 1,
            r is None ==> final(self).pending() == old(self).pending() && final(self).active()
                == old(self).active(),
    {
        if self.running < self.size {
            match self.queue.pop_front() {
                Some(t) => {
                    self.running = self.running + 1;
                    Some(t)
                },
                None => None,
            }
        } else {
            None
        }
    }

    /// A worker reports the task it was executing as finished, freeing its
    /// slot. Nothing else changes.
    pub fn finish_one(&mut self)
        requires
            old(self).wf(),
            old(self).active() >= 1,
        ensures
            final(self).wf(),
            final(self).pool_size() == old(self).pool_size(),
            final(self).is_closed() == old(self).is_closed(),
            final(self).pending() == old(self).pending(),
            final(self).active() == old(self).active() - 1,
    {
        self.running = self.running - 1;
    }

    /// Begins teardown: the pool stops accepting new tasks. Queued and
    /// executing tasks are unaffected and still run to completion.
    pub fn close(&mut self)
        requires
            old(self).wf(),
        ensures
            final(self).wf(),
            final(self).is_closed(),
            final(self).pool_size() == old(self).pool_size(),
            final(self).pending() == old(self).pending(),
            final(self).active() == old(self).active(),
    {
        self.closed = true;
    }

    /// A worker may exit exactly when the pool is closed and the queue is
    /// drained, so no accepted task is ever abandoned.
    pub fn should_exit(&self) -> (b: bool)
        ensures
            b == (self.is_closed() && self.pending().len() == 0),
    {
        self.closed && self.queue.len() == 0
    }

    /// Law: whatever the pool size (always at least one worker), submitting
    /// a batch of tasks and running the pool until idle executes exactly
    /// the submitted tasks, each exactly once, in submission order.
    pub fn run_to_idle(&mut self, tasks: Vec<T>) -> (executed: Vec<T>)
        requires
            old(self).wf(),
            !old(self).is_closed(),
            old(self).active() == 0,
            old(self).pending().len() == 0,
        ensures
            final(self).wf(),
            final(self).pending().len() == 0,
            final(self).active() == 0,
            executed@ == tasks@,
    {
        let ghost all = tasks@;
        let mut rest = tasks;
        proof {
            assert(self.pending() + rest@ =~= all);
        }
        while rest.len() > 0
            invariant
                self.wf(),
                !self.is_closed(),
                self.active() == 0,
                self.pending() + rest@ == all,
            decreases rest.len(),
        {
            let t = rest.remove(0);
            self.submit(t);
            proof {
                assert(self.pending() + rest@ =~= all);
            }
        }
        proof {
            assert(self.pending() =~= all);
        }
        let mut done: Vec<T> = Vec::new();
        while self.pending_len() > 0
            invariant
                self.wf(),
                !self.is_closed(),
                self.active() == 0,
                done@ + self.pending() == all,
            decreases self.pending().len(),
        {
            let t = self.start_next();
            let task = t.unwrap();
            done.push(task);
            self.finish_one();
            proof {
                assert(done@ + self.pending() =~= all);
            }
        }
        proof {
            assert(done@ =~= all);
        }
        done
    }
}

/// Law (pool exhaustion): while every worker is busy, no queued task can
/// start, however many are waiting; one of the running tasks must finish
/// first.
pub proof fn lemma_exhausted_pool_blocks<T>(p: Pool<T>)
    requires
        p.wf(),
        p.active() == p.pool_size(),
    ensures
        !p.can_start(),
{
}

/// Law (spare capacity): a pool with a free worker and a queued task always
/// starts one; sizing the pool one larger than the number of simultaneously
/// busy workers lets an unrelated task proceed at once.
pub proof fn lemma_free_worker_starts<T>(p: Pool<T>)
    requires
        p.wf(),
        p.active() < p.pool_size(),
        p.pending().len() > 0,
    ensures
        p.can_start(),
{
}

} // verus!
