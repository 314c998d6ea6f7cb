//! The dispatch pool: one persistent worker per device, a shared monitor that
//! tracks which workers are busy, and a blocking `run_on_gpu` that hands each
//! job to an idle worker together with a fresh output stream.

use crate::dispatch::{claim, first_idle, lemma_idle_below, Dispatcher};
use std::sync::mpsc::{Receiver, Sender};
use std::sync::{Arc, Condvar, Mutex, MutexGuard};
use vstd::prelude::*;

verus! {

/// `std::sync::Mutex`, carried through opaque: it guards the worker flags.
#[verifier::external_type_specification]
#[verifier::external_body]
#[verifier::reject_recursive_types(T)]
pub struct ExMutex<T: ?Sized>(Mutex<T>);

/// `std::sync::MutexGuard`, opaque: proof that the monitor is held.
#[verifier::external_type_specification]
#[verifier::external_body]
#[verifier::reject_recursive_types(T)]
pub struct ExMutexGuard<'a, T: ?Sized + 'a>(MutexGuard<'a, T>);

/// `std::sync::Condvar`, opaque: the condition callers wait on.
#[verifier::external_type_specification]
#[verifier::external_body]
pub struct ExCondvar(Condvar);

/// `std::sync::mpsc::Sender`, opaque: a worker inbox or an output stream.
#[verifier::external_type_specification]
#[verifier::external_body]
#[verifier::reject_recursive_types(T)]
pub struct ExSender<T>(Sender<T>);

/// `std::sync::mpsc::Receiver`, opaque: the caller's end of an output stream.
#[verifier::external_type_specification]
#[verifier::external_body]
#[verifier::reject_recursive_types(T)]
pub struct ExReceiver<T>(Receiver<T>);

/// Relies on `Mutex::new`: a new unlocked mutex around `t`.
pub assume_specification<T>[ Mutex::<T>::new ](t: T) -> Mutex<T>;

/// Relies on `Condvar::new`: a condition with no waiters.
pub assume_specification[ Condvar::new ]() -> Condvar;

/// Relies on `Condvar::notify_one`: wakes at most one waiter.
pub assume_specification[ Condvar::notify_one ](c: &Condvar);

/// Relies on `mpsc::channel`: a fresh unbounded FIFO channel.
pub assume_specification<T>[ std::sync::mpsc::channel::<T> ]() -> (Sender<T>, Receiver<T>);

/// Relies on `Mutex::lock`: blocks until `m`'s flags are held. A poisoned
/// lock still holds a set of flags, so its guard is taken as it is; nothing is
/// assumed of what the flags are.
#[verifier::external_body]
fn lock_monitor(m: &Monitor) -> MutexGuard<'_, Dispatcher> {
    m.flags.lock().unwrap_or_else(|e| e.into_inner())
}

/// Relies on `Condvar::wait_while` on `m`'s own condition: releases `g`, which
/// must be the guard of `m`'s own lock, and sleeps while every worker of `m`
/// is busy, then holds the lock again. Nothing is assumed of the flags on
/// return: the caller scans them again.
#[verifier::external_body]
fn wait_for_idle<'a>(m: &'a Monitor, g: MutexGuard<'a, Dispatcher>) -> MutexGuard<'a, Dispatcher> {
    m.cond.wait_while(g, |d| d.all_busy_below(m.size)).unwrap_or_else(|e| e.into_inner())
}

/// Relies on `std::mem::replace` through the guard: puts `d` into the monitor
/// and returns what it held.
#[verifier::external_body]
fn swap_flags(g: &mut MutexGuard<'_, Dispatcher>, d: Dispatcher) -> Dispatcher {
    std::mem::replace(&mut **g, d)
}

/// Relies on `Sender::send`: `false` when the receiving side is gone, in
/// which case the value is dropped.
#[verifier::external_body]
fn send_to<T>(tx: &Sender<T>, v: T) -> bool {
    tx.send(v).is_ok()
}

/// The flags of all workers behind one lock, and the condition on which
/// callers wait for a worker to become idle.
pub struct Monitor {
    flags: Mutex<Dispatcher>,
    cond: Condvar,
    size: usize,
}

impl Monitor {
    /// The number of workers the monitor tracks.
    pub closed spec fn num_workers(&self) -> nat {
        self.size as nat
    }

    /// A monitor for `n` workers, all idle.
    pub fn new(n: usize) -> (r: Monitor)
        ensures
            r.num_workers() == n,
    {
        Monitor { flags: Mutex::new(Dispatcher::new(n)), cond: Condvar::new(), size: n }
    }

    /// Blocks until some worker is idle, claims the first idle one in
    /// enumeration order, marks it busy and returns its index. The scan runs
    /// while the monitor is held, so a release cannot slip in between a
    /// failed scan and the wait.
    ///
    /// `seen` is the set of flags the claim was made on; the flags that the
    /// monitor holds afterwards are `claim(seen)`. With no workers there is
    /// nothing to wait for, and the result is `None`. After the wait the flags
    /// are scanned again, and the result is `None` without a claim if every
    /// worker is still busy, which happens only when the lock was poisoned.
    pub fn claim(&self) -> (r: Option<(usize, Ghost<Seq<bool>>)>)
        ensures
            self.num_workers() == 0 ==> r is None,
            r matches Some((i, seen)) ==> i < self.num_workers() && first_idle(seen@) == Some(
                i as int,
            ) && claim(seen@) == seen@.update(i as int, true),
    {
        if self.size == 0 {
            return None;
        }
        let guard = lock_monitor(self);
        let mut guard = wait_for_idle(self, guard);
        let mut flags = swap_flags(&mut guard, Dispatcher::new(0));
        if flags.all_busy_below(self.size) {
            swap_flags(&mut guard, flags);
            return None;
        }
        let ghost seen = flags@;
        proof {
            lemma_idle_below(seen, self.size as int);
        }
        let r = flags.try_claim();
        swap_flags(&mut guard, flags);
        match r {
            Some(i) => Some((i, Ghost(seen))),
            None => None,
        }
    }

    /// Marks worker `i` idle and wakes one waiting caller to re-scan.
    pub fn release(&self, i: usize)
        requires
            i < self.num_workers(),
    {
        self.clear_flag(i);
        self.cond.notify_one();
    }

    /// Marks worker `i` idle; the monitor is let go on return.
    fn clear_flag(&self, i: usize) {
        let mut guard = lock_monitor(self);
        let mut flags = swap_flags(&mut guard, Dispatcher::new(0));
        if i < flags.len() {
            flags.release(i);
        }
        swap_flags(&mut guard, flags);
    }
}

/// Why a job was not handed to a worker.
#[derive(Clone, Copy, Debug, PartialEq, Eq, Structural)]
pub enum DispatchError {
    /// The pool has no workers.
    NoWorkers,
    /// The monitor's lock was poisoned, and no idle worker was found.
    MonitorUnavailable,
    /// The claimed worker is gone; the job was dropped.
    WorkerGone(usize),
}

/// A pool of workers, one per device, each fed through its own inbox. Its
/// monitor tracks exactly as many workers as it has inboxes.
#[verifier::reject_recursive_types(J)]
#[verifier::reject_recursive_types(O)]
pub struct GpuPool<J, O> {
    monitor: Arc<Monitor>,
    workers: Vec<Sender<(J, Sender<O>)>>,
}

impl<J, O> GpuPool<J, O> {
    #[verifier::type_invariant]
    spec fn monitor_matches(&self) -> bool {
        self.monitor.num_workers() == self.workers@.len()
    }

    /// A pool over the given worker inboxes, in enumeration order, all idle.
    pub fn with_workers(workers: Vec<Sender<(J, Sender<O>)>>) -> (r: GpuPool<J, O>)
        ensures
            r.num_workers() == workers@.len(),
            r.monitor_size() == workers@.len(),
    {
        let monitor = Arc::new(Monitor::new(workers.len()));
        GpuPool { monitor, workers }
    }

    pub closed spec fn num_workers(&self) -> nat {
        self.workers@.len()
    }

    /// The number of workers that the pool's monitor tracks.
    pub closed spec fn monitor_size(&self) -> nat {
        self.monitor.num_workers()
    }

    /// The number of workers, fixed for the pool's lifetime.
    pub fn len(&self) -> (r: usize)
        ensures
            r == self.num_workers(),
    {
        self.workers.len()
    }

    /// The monitor that the workers release themselves on.
    pub fn monitor(&self) -> (r: Arc<Monitor>)
        ensures
            r.num_workers() == self.num_workers(),
    {
        proof {
            use_type_invariant(self);
        }
        self.monitor.clone()
    }

    /// Hands `inp` to the first idle worker in enumeration order, waiting
    /// while all are busy, and returns that worker's index together with the
    /// stream on which it sends the job's outputs, in the order it produces
    /// them. Each call gets a stream of its own, which ends when the worker
    /// has finished the job.
    ///
    /// The second component is the set of flags the claim was made on: the
    /// worker was the first idle one there, and it stays busy until it is
    /// released.
    ///
    /// A pool without workers refuses every job. If the claimed worker is
    /// gone, the job is lost, reported as `WorkerGone`, and that worker stays
    /// claimed, out of use.
    pub fn run_on_gpu(&self, inp: J) -> (r: Result<(usize, Ghost<Seq<bool>>, Receiver<O>), DispatchError>)
        ensures
            r == Err::<(usize, Ghost<Seq<bool>>, Receiver<O>), DispatchError>(DispatchError::NoWorkers)
                <==> self.num_workers() == 0,
            r matches Ok((i, seen, _)) ==> i < self.num_workers() && first_idle(seen@) == Some(
                i as int,
            ) && claim(seen@) == seen@.update(i as int, true),
            r matches Err(DispatchError::WorkerGone(i)) ==> i < self.num_workers(),
    {
        proof {
            use_type_invariant(self);
        }
        if self.workers.len() == 0 {
            return Err(DispatchError::NoWorkers);
        }
        let (i, seen) = match self.monitor.claim() {
            Some(c) => c,
            None => return Err(DispatchError::MonitorUnavailable),
        };
        let (tx, rx) = std::sync::mpsc::channel::<O>();
        if send_to(&self.workers[i], (inp, tx)) {
            Ok((i, seen, rx))
        } else {
            Err(DispatchError::WorkerGone(i))
        }
    }
}

} // verus!
