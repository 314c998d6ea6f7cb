use nse_gpu::dispatch::Dispatcher;

#[test]
fn new_monitor_is_all_idle() {
    let d = Dispatcher::new(3);
    assert_eq!(d.len(), 3);
    assert!(!d.is_busy(0) && !d.is_busy(1) && !d.is_busy(2));
    assert!(!d.all_busy());
}

#[test]
fn empty_monitor_never_claims() {
    let mut d = Dispatcher::new(0);
    assert!(d.all_busy());
    assert_eq!(d.try_claim(), None);
}

#[test]
fn claims_go_in_enumeration_order() {
    let mut d = Dispatcher::new(3);
    assert_eq!(d.try_claim(), Some(0));
    assert_eq!(d.try_claim(), Some(1));
    assert_eq!(d.try_claim(), Some(2));
    assert!(d.all_busy());
    assert_eq!(d.try_claim(), None);
    assert_eq!(d.len(), 3);
}

#[test]
fn busy_worker_is_not_claimed_twice() {
    let mut d = Dispatcher::new(2);
    assert_eq!(d.try_claim(), Some(0));
    assert_eq!(d.try_claim(), Some(1));
    d.release(1);
    assert_eq!(d.try_claim(), Some(1));
    assert!(d.is_busy(0));
}

#[test]
fn at_most_n_claims_succeed() {
    let n = 4;
    let mut d = Dispatcher::new(n);
    let mut won = 0;
    for _ in 0..10 {
        if d.try_claim().is_some() {
            won += 1;
        }
    }
    assert_eq!(won, n);
}

#[test]
fn two_devices_three_jobs() {
    let mut d = Dispatcher::new(2);
    assert_eq!(d.try_claim(), Some(0));
    assert_eq!(d.try_claim(), Some(1));
    // the third caller has to wait
    assert_eq!(d.try_claim(), None);
    assert!(d.all_busy());
    // once the second job is done, the third takes its worker
    d.release(1);
    assert!(!d.all_busy());
    assert_eq!(d.try_claim(), Some(1));
}

#[test]
fn release_frees_earliest_first() {
    let mut d = Dispatcher::new(3);
    d.try_claim();
    d.try_claim();
    d.try_claim();
    d.release(2);
    d.release(0);
    assert_eq!(d.try_claim(), Some(0));
    assert_eq!(d.try_claim(), Some(2));
}
