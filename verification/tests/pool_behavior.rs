use sockets::pool::{Dispatch, PoolError, ThreadPool, WorkerState};

/// A pool of `size` workers runs `size` jobs at once, and a `size + 1`-th
/// job does not start until one of them finishes.
#[test]
fn pool_runs_size_jobs_concurrently() {
    let mut p = ThreadPool::new(2).unwrap();
    assert_eq!(p.worker_count(), 2);
    assert_eq!(p.execute(), Ok(0));
    assert_eq!(p.execute(), Ok(1));
    assert_eq!(p.execute(), Ok(2));

    // Both workers pick up a job: the pool is saturated.
    assert_eq!(p.dispatch(0), Dispatch::Job(0));
    assert_eq!(p.dispatch(1), Dispatch::Job(1));
    assert_eq!(p.worker_state(0), WorkerState::Running(0));
    assert_eq!(p.worker_state(1), WorkerState::Running(1));

    // The third job stays pending while no worker is idle.
    assert_eq!(p.pending_count(), 1);

    // As soon as one worker finishes, the third job starts.
    p.complete(0, false);
    assert_eq!(p.dispatch(0), Dispatch::Job(2));
    assert_eq!(p.pending_count(), 0);
}

/// A zero-capacity pool is refused at construction, never silently built.
#[test]
fn zero_size_pool_refused() {
    assert_eq!(ThreadPool::new(0).err(), Some(PoolError::ZeroSize));
    assert!(ThreadPool::new(1).is_ok());
}

/// Submitting N distinct jobs yields N completions, no duplicates and no
/// omissions, whatever order the workers free up in.
#[test]
fn jobs_run_exactly_once() {
    let n: u64 = 5;
    let mut p = ThreadPool::new(2).unwrap();
    for k in 0..n {
        assert_eq!(p.execute(), Ok(k));
    }
    let mut ran: Vec<u64> = Vec::new();
    // Drive the two workers in an uneven pattern: worker 1 takes and
    // finishes two jobs while worker 0 holds its first.
    match p.dispatch(0) {
        Dispatch::Job(id) => ran.push(id),
        other => panic!("expected a job, got {:?}", other),
    }
    for _ in 0..2 {
        match p.dispatch(1) {
            Dispatch::Job(id) => ran.push(id),
            other => panic!("expected a job, got {:?}", other),
        }
        p.complete(1, false);
    }
    p.complete(0, false);
    loop {
        match p.dispatch(0) {
            Dispatch::Job(id) => {
                ran.push(id);
                p.complete(0, false);
            }
            Dispatch::Wait => break,
            Dispatch::Exit => panic!("pool is still open"),
        }
    }
    ran.sort();
    assert_eq!(ran, vec![0, 1, 2, 3, 4]);
}

/// With an idle worker available, job K starts before job K + 1:
/// dispatch hands out jobs in submission order.
#[test]
fn submission_order_preserved() {
    let mut p = ThreadPool::new(3).unwrap();
    for k in 0..3 {
        assert_eq!(p.execute(), Ok(k));
    }
    assert_eq!(p.dispatch(2), Dispatch::Job(0));
    assert_eq!(p.dispatch(0), Dispatch::Job(1));
    assert_eq!(p.dispatch(1), Dispatch::Job(2));
}

/// A faulting job is caught at the run-loop boundary: the same worker
/// picks up the next job and completes it.
#[test]
fn worker_survives_faulting_job() {
    let mut p = ThreadPool::new(1).unwrap();
    assert_eq!(p.execute(), Ok(0));
    assert_eq!(p.execute(), Ok(1));
    assert_eq!(p.dispatch(0), Dispatch::Job(0));
    p.complete(0, true); // the job faulted
    assert_eq!(p.worker_state(0), WorkerState::Idle);
    assert_eq!(p.dispatch(0), Dispatch::Job(1));
    p.complete(0, false);
    assert_eq!(p.worker_state(0), WorkerState::Idle);
}

/// Shutdown waits for in-flight work: with a job still running, closing
/// the queue refuses new submissions but terminates no worker; only after
/// the job completes does the worker observe closure and exit.
#[test]
fn shutdown_waits_for_inflight_job() {
    let mut p = ThreadPool::new(1).unwrap();
    assert_eq!(p.execute(), Ok(0));
    assert_eq!(p.dispatch(0), Dispatch::Job(0));

    p.close(); // teardown begins while the job is in flight
    assert!(!p.is_open());
    assert_eq!(p.execute(), Err(PoolError::Closed));
    assert!(!p.shutdown_complete());
    assert_eq!(p.worker_state(0), WorkerState::Running(0));

    p.complete(0, false);
    assert_eq!(p.dispatch(0), Dispatch::Exit);
    assert!(p.shutdown_complete());
}

/// Pool of two, three jobs: the first two start at once, the third starts
/// on whichever worker frees first, and nothing is left behind at
/// shutdown.
#[test]
fn two_workers_three_jobs() {
    let mut p = ThreadPool::new(2).unwrap();
    let a = p.execute().unwrap();
    let b = p.execute().unwrap();
    let c = p.execute().unwrap();

    // A and B start immediately, in submission order.
    assert_eq!(p.dispatch(0), Dispatch::Job(a));
    assert_eq!(p.dispatch(1), Dispatch::Job(b));

    // Worker 1 frees first and picks up C; worker 0 is still on A.
    p.complete(1, false);
    assert_eq!(p.dispatch(1), Dispatch::Job(c));
    assert_eq!(p.worker_state(0), WorkerState::Running(a));

    p.complete(0, false);
    p.complete(1, false);

    p.close();
    assert_eq!(p.dispatch(0), Dispatch::Exit);
    assert_eq!(p.dispatch(1), Dispatch::Exit);
    assert!(p.shutdown_complete());
    assert_eq!(p.pending_count(), 0);
}

/// An idle worker of an open pool with nothing pending neither exits nor
/// takes anything: it waits.
#[test]
fn idle_worker_waits_while_open() {
    let mut p = ThreadPool::new(1).unwrap();
    assert_eq!(p.dispatch(0), Dispatch::Wait);
    assert_eq!(p.worker_state(0), WorkerState::Idle);
    assert!(p.is_open());
}
