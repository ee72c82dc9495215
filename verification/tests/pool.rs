use lrnscraper::thread_pool::{PoolCounter, WorkerStep};

#[test]
fn new_pool_workers_wait() {
    let mut c = PoolCounter::new();
    assert_eq!(c.value_now(), 0);
    assert!(c.accepts_work());
    assert_eq!(c.worker_step(), WorkerStep::Wait);
    assert_eq!(c.value_now(), 0);
}

#[test]
fn each_queued_item_is_taken_once() {
    let mut c = PoolCounter::new();
    c.queue_work();
    c.queue_work();
    assert_eq!(c.value_now(), 2);
    assert_eq!(c.worker_step(), WorkerStep::Take);
    assert_eq!(c.worker_step(), WorkerStep::Take);
    assert_eq!(c.worker_step(), WorkerStep::Wait);
    assert_eq!(c.value_now(), 0);
}

#[test]
fn shutdown_stops_every_worker() {
    let mut c = PoolCounter::new();
    c.queue_work();
    c.shutdown();
    assert_eq!(c.value_now(), -1);
    assert!(!c.accepts_work());
    assert_eq!(c.worker_step(), WorkerStep::Stop);
    assert_eq!(c.worker_step(), WorkerStep::Stop);
    assert_eq!(c.value_now(), -1);
}

#[test]
fn count_stays_nonnegative_until_shutdown() {
    let mut c = PoolCounter::new();
    for round in 0..5 {
        for _ in 0..round {
            assert!(c.accepts_work());
            c.queue_work();
        }
        for _ in 0..(round + 2) {
            c.worker_step();
            assert!(c.value_now() >= 0);
        }
    }
    c.shutdown();
    assert!(!c.accepts_work());
}
