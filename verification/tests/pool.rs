use web_server::pool::Pool;
use web_server::queue::TaskQueue;

#[test]
fn queue_is_first_in_first_out() {
    let mut q: TaskQueue<u32> = TaskQueue::new();
    q.push_back(1);
    q.push_back(2);
    q.push_back(3);
    assert_eq!(q.len(), 3);
    assert_eq!(q.pop_front(), Some(1));
    assert_eq!(q.pop_front(), Some(2));
    assert_eq!(q.pop_front(), Some(3));
    assert_eq!(q.pop_front(), None);
    assert_eq!(q.len(), 0);
}

#[test]
fn zero_workers_is_refused_at_construction() {
    let p: Option<Pool<u32>> = Pool::try_new(0);
    assert!(p.is_none());
}

#[test]
fn one_worker_is_accepted() {
    let p: Option<Pool<u32>> = Pool::try_new(1);
    let p = p.expect("a pool of one worker is valid");
    assert_eq!(p.size(), 1);
    assert_eq!(p.pending_len(), 0);
    assert_eq!(p.active_count(), 0);
}

#[test]
fn tasks_run_exactly_once_in_submission_order() {
    let mut p: Pool<u64> = Pool::new(3);
    let executed = p.run_to_idle(vec![10, 20, 30, 40, 50]);
    assert_eq!(executed, vec![10, 20, 30, 40, 50]);
    assert_eq!(p.pending_len(), 0);
    assert_eq!(p.active_count(), 0);
}

#[test]
fn single_worker_pool_also_runs_every_task_once() {
    let mut p: Pool<u64> = Pool::new(1);
    let executed = p.run_to_idle(vec![7, 7, 9]);
    assert_eq!(executed, vec![7, 7, 9]);
}

#[test]
fn submit_keeps_arrival_order() {
    let mut p: Pool<u32> = Pool::new(2);
    p.submit(11);
    p.submit(22);
    assert_eq!(p.pending_len(), 2);
    assert_eq!(p.start_next(), Some(11));
    assert_eq!(p.start_next(), Some(22));
    assert_eq!(p.active_count(), 2);
}

#[test]
fn full_pool_blocks_until_a_slot_frees() {
    let mut p: Pool<u32> = Pool::new(2);
    p.submit(1);
    p.submit(2);
    p.submit(3);
    assert_eq!(p.start_next(), Some(1));
    assert_eq!(p.start_next(), Some(2));
    // both workers are busy: the third task waits although it is queued
    assert_eq!(p.start_next(), None);
    assert_eq!(p.pending_len(), 1);
    p.finish_one();
    // a slot freed: the waiting task starts at once
    assert_eq!(p.start_next(), Some(3));
}

#[test]
fn one_spare_worker_serves_the_extra_task_at_once() {
    let mut p: Pool<u32> = Pool::new(3);
    p.submit(1);
    p.submit(2);
    p.submit(3);
    assert_eq!(p.start_next(), Some(1));
    assert_eq!(p.start_next(), Some(2));
    // two slow tasks occupy two of three workers: the third task is not blocked
    assert_eq!(p.start_next(), Some(3));
}

#[test]
fn empty_queue_hands_out_nothing() {
    let mut p: Pool<u32> = Pool::new(2);
    assert_eq!(p.start_next(), None);
}

#[test]
fn workers_exit_only_when_closed_and_drained() {
    let mut p: Pool<u32> = Pool::new(2);
    p.submit(5);
    assert!(!p.should_exit());
    p.close();
    assert!(!p.should_exit());
    assert_eq!(p.start_next(), Some(5));
    assert!(p.should_exit());
    assert!(!p.is_open());
}
