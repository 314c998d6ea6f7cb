use nse_gpu::pool::{DispatchError, GpuPool};
use std::sync::mpsc;

type Inbox = mpsc::Receiver<(u32, mpsc::Sender<u64>)>;

fn pool_of(n: usize) -> (GpuPool<u32, u64>, Vec<Inbox>) {
    let mut senders = Vec::new();
    let mut inboxes = Vec::new();
    for _ in 0..n {
        let (tx, rx) = mpsc::channel();
        senders.push(tx);
        inboxes.push(rx);
    }
    (GpuPool::with_workers(senders), inboxes)
}

#[test]
fn one_worker_per_inbox() {
    let (pool, _inboxes) = pool_of(3);
    assert_eq!(pool.len(), 3);
}

#[test]
fn jobs_stream_in_order_without_interleaving() {
    let (pool, inboxes) = pool_of(2);
    let monitor = pool.monitor();
    let (w1, _, first) = pool.run_on_gpu(10).unwrap();
    let (w2, _, second) = pool.run_on_gpu(20).unwrap();
    assert_eq!((w1, w2), (0, 1));

    let (job0, out0) = inboxes[0].try_recv().unwrap();
    let (job1, out1) = inboxes[1].try_recv().unwrap();
    assert_eq!((job0, job1), (10, 20));
    for i in 0..5u64 {
        out1.send(200 + i).unwrap();
        out0.send(100 + i).unwrap();
    }
    drop(out0);
    monitor.release(0);

    // the first worker is idle again: the third job goes there
    let (w3, _, third) = pool.run_on_gpu(30).unwrap();
    assert_eq!(w3, 0);
    let (job2, out2) = inboxes[0].try_recv().unwrap();
    assert_eq!(job2, 30);
    assert!(inboxes[1].try_recv().is_err());
    out2.send(300).unwrap();
    drop(out2);
    drop(out1);
    monitor.release(0);
    monitor.release(1);

    assert_eq!(first.iter().collect::<Vec<u64>>(), vec![100, 101, 102, 103, 104]);
    assert_eq!(second.iter().collect::<Vec<u64>>(), vec![200, 201, 202, 203, 204]);
    assert_eq!(third.iter().collect::<Vec<u64>>(), vec![300]);
}

#[test]
fn gone_worker_closes_the_stream() {
    let (pool, mut inboxes) = pool_of(1);
    drop(inboxes.pop());
    assert!(matches!(pool.run_on_gpu(1), Err(DispatchError::WorkerGone(0))));
}

#[test]
fn monitor_claims_first_idle_worker() {
    let (pool, _inboxes) = pool_of(3);
    let monitor = pool.monitor();
    assert_eq!(monitor.claim().unwrap().0, 0);
    assert_eq!(monitor.claim().unwrap().0, 1);
    monitor.release(0);
    assert_eq!(monitor.claim().unwrap().0, 0);
    assert_eq!(monitor.claim().unwrap().0, 2);
}

#[test]
fn pool_without_workers_refuses_jobs() {
    let (pool, _inboxes) = pool_of(0);
    assert_eq!(pool.len(), 0);
    assert!(matches!(pool.run_on_gpu(7), Err(DispatchError::NoWorkers)));
    assert!(pool.monitor().claim().is_none());
}
