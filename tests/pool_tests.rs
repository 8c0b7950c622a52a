use media_compress::pool::{Dispatch, JobQueue, PoolError};

fn drain(jobs: usize, workers: usize) -> Vec<usize> {
    let mut q = JobQueue::new(workers).unwrap();
    for i in 0..jobs {
        assert_eq!(q.submit(), Some(i));
    }
    q.shutdown();
    let mut ran = Vec::new();
    let mut stops = 0;
    while !q.all_stopped() {
        match q.take() {
            Dispatch::Run(t) => {
                assert_eq!(stops, 0);
                ran.push(t);
            }
            Dispatch::Stop => stops += 1,
            Dispatch::Wait => panic!("a shut down queue never waits before all stop"),
        }
    }
    assert_eq!(stops, workers);
    ran
}

#[test]
fn zero_workers_is_refused() {
    assert!(matches!(JobQueue::new(0), Err(PoolError::NoWorkers)));
    assert_eq!(JobQueue::new(3).unwrap().workers(), 3);
}

#[test]
fn pool_drains_every_job_once() {
    for (jobs, workers) in [(0, 1), (0, 4), (3, 8), (8, 8), (20, 2), (1, 1)] {
        assert_eq!(drain(jobs, workers), (0..jobs).collect::<Vec<_>>());
    }
}

#[test]
fn empty_open_queue_waits() {
    let mut q = JobQueue::new(2).unwrap();
    assert_eq!(q.take(), Dispatch::Wait);
    assert_eq!(q.submit(), Some(0));
    assert_eq!(q.take(), Dispatch::Run(0));
    assert_eq!(q.take(), Dispatch::Wait);
}

#[test]
fn shut_down_queue_takes_no_jobs() {
    let mut q = JobQueue::new(1).unwrap();
    q.shutdown();
    assert_eq!(q.submit(), None);
    assert_eq!(q.take(), Dispatch::Stop);
    assert!(q.all_stopped());
    assert_eq!(q.take(), Dispatch::Wait);
}
