//! The task queue: a single shared FIFO line of deferred work. Tasks leave
//! in exactly the order they arrived, and only by being popped, so nothing
//! is duplicated and nothing is lost.

use vstd::prelude::*;

verus! {

/// A first-in, first-out queue of tasks, viewed as the sequence of tasks
/// still waiting, front first.
pub struct TaskQueue<T> {
    items: Vec<T>,
}

impl<T> View for TaskQueue<T> {
    type V = Seq<T>;

    closed spec fn view(&self) -> Seq<T> {
        self.items@
    }
}

impl<T> TaskQueue<T> {
    pub fn new() -> (q: Self)
        ensures
            q@ == Seq::<T>::empty(),
    {
        TaskQueue { items: Vec::new() }
    }

    pub fn len(&self) -> (n: usize)
        ensures
            n == self@.len(),
    {
        self.items.len()
    }

    /// Enqueues a task at the back of the line.
    pub fn push_back(&mut self, task: T)
        ensures
            final(self)@ == old(self)@.push(task),
    {
        self.items.push(task);
    }

    /// Dequeues the task at the front of the line, if any: exactly the
    /// oldest waiting task leaves, and the rest keep their order.
    pub fn pop_front(&mut self) -> (r: Option<T>)
        ensures
            old(self)@.len() == 0 ==> r is None && final(self)@ == old(self)@,
            old(self)@.len() > 0 ==> r == Some(old(self)@[0]) && final(self)@ == old(
                self,
            )@.drop_first(),
    {
        if self.items.len() == 0 {
            None
        } else {
            let t = self.items.remove(0);
            proof {
                assert(old(self)@.remove(0) =~= old(self)@.drop_first());
            }
            Some(t)
        }
    }
}

} // verus!
