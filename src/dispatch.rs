//! The availability monitor of the pool: one `Idle | Busy` flag per worker,
//! claimed by scanning the workers in enumeration order.

use vstd::prelude::*;

verus! {

/// The first idle worker at index `i` or after it.
pub open spec fn first_idle_from(s: Seq<bool>, i: int) -> Option<int>
    decreases s.len() - i,
{
    if i < 0 || i >= s.len() {
        None
    } else if !s[i] {
        Some(i)
    } else {
        first_idle_from(s, i + 1)
    }
}

/// The worker that a scan in enumeration order claims, if any is idle.
pub open spec fn first_idle(s: Seq<bool>) -> Option<int> {
    first_idle_from(s, 0)
}

/// The flags after one claim attempt.
pub open spec fn claim(s: Seq<bool>) -> Seq<bool> {
    match first_idle(s) {
        Some(i) => s.update(i, true),
        None => s,
    }
}

/// The flags after `c` claim attempts in a row.
pub open spec fn claim_times(s: Seq<bool>, c: nat) -> Seq<bool>
    decreases c,
{
    if c == 0 {
        s
    } else {
        claim(claim_times(s, (c - 1) as nat))
    }
}

/// The number of busy workers.
pub open spec fn busy_count(s: Seq<bool>) -> nat
    decreases s.len(),
{
    if s.len() == 0 {
        0
    } else {
        busy_count(s.drop_last()) + if s.last() {
            1nat
        } else {
            0nat
        }
    }
}

/// One event on the flags: `None` is a claim attempt, `Some(i)` the release
/// of worker `i`.
pub open spec fn step(s: Seq<bool>, e: Option<int>) -> Seq<bool> {
    match e {
        None => claim(s),
        Some(i) => if 0 <= i < s.len() {
            s.update(i, false)
        } else {
            s
        },
    }
}

/// The flags after a run of events, in order.
pub open spec fn run(s: Seq<bool>, es: Seq<Option<int>>) -> Seq<bool>
    decreases es.len(),
{
    if es.len() == 0 {
        s
    } else {
        step(run(s, es.drop_last()), es.last())
    }
}

/// Every worker below index `n` is busy.
pub open spec fn busy_below(s: Seq<bool>, n: int) -> bool {
    forall|j: int| 0 <= j < n && j < s.len() ==> s[j]
}

/// Per-worker availability: `true` while the worker holds a job.
pub struct Dispatcher {
    busy: Vec<bool>,
}

impl View for Dispatcher {
    type V = Seq<bool>;

    closed spec fn view(&self) -> Seq<bool> {
        self.busy@
    }
}

impl Dispatcher {
    /// A monitor for `n` workers, all idle.
    pub fn new(n: usize) -> (r: Dispatcher)
        ensures
            r@ == Seq::new(n as nat, |i: int| false),
    {
        let mut busy: Vec<bool> = Vec::new();
        let mut i: usize = 0;
        while i < n
            invariant
                i <= n,
                busy@ == Seq::new(i as nat, |j: int| false),
            decreases n - i,
        {
            busy.push(false);
            i = i + 1;
            assert(busy@ =~= Seq::new(i as nat, |j: int| false));
        }
        Dispatcher { busy }
    }

    /// The number of workers.
    pub fn len(&self) -> (r: usize)
        ensures
            r == self@.len(),
    {
        self.busy.len()
    }

    /// Whether worker `i` holds a job.
    pub fn is_busy(&self, i: usize) -> (r: bool)
        requires
            i < self@.len(),
        ensures
            r == self@[i as int],
    {
        self.busy[i]
    }

    /// Whether every worker holds a job, so that a claim would fail.
    pub fn all_busy(&self) -> (r: bool)
        ensures
            r == (first_idle(self@) is None),
    {
        let mut i: usize = 0;
        while i < self.busy.len()
            invariant
                i <= self@.len(),
                first_idle(self@) == first_idle_from(self@, i as int),
            decreases self@.len() - i,
        {
            if !self.busy[i] {
                return false;
            }
            i = i + 1;
        }
        true
    }

    /// Whether every worker below index `n` holds a job.
    pub fn all_busy_below(&self, n: usize) -> (r: bool)
        ensures
            r == busy_below(self@, n as int),
    {
        let mut i: usize = 0;
        while i < self.busy.len() && i < n
            invariant
                i <= self@.len(),
                forall|j: int| 0 <= j < i ==> self@[j],
            decreases self@.len() - i,
        {
            if !self.busy[i] {
                return false;
            }
            i = i + 1;
        }
        true
    }

    /// Claims the first idle worker in enumeration order and marks it busy;
    /// `None`, with nothing changed, when every worker is busy.
    pub fn try_claim(&mut self) -> (r: Option<usize>)
        ensures
            match first_idle(old(self)@) {
                Some(i) => r == Some(i as usize),
                None => r is None,
            },
            final(self)@ == claim(old(self)@),
    {
        let mut i: usize = 0;
        while i < self.busy.len()
            invariant
                i <= self@.len(),
                self@ == old(self)@,
                first_idle(self@) == first_idle_from(self@, i as int),
            decreases self@.len() - i,
        {
            if !self.busy[i] {
                self.busy.set(i, true);
                return Some(i);
            }
            i = i + 1;
        }
        None
    }

    /// Marks worker `i` idle again once its job is done.
    pub fn release(&mut self, i: usize)
        requires
            i < old(self)@.len(),
        ensures
            final(self)@ == old(self)@.update(i as int, false),
    {
        self.busy.set(i, false);
    }
}

proof fn lemma_first_idle_from(s: Seq<bool>, i: int)
    requires
        0 <= i <= s.len(),
    ensures
        match first_idle_from(s, i) {
            Some(j) => i <= j < s.len() && !s[j] && forall|k: int| i <= k < j ==> s[k],
            None => forall|k: int| i <= k < s.len() ==> s[k],
        },
    decreases s.len() - i,
{
    if i < s.len() && s[i] {
        lemma_first_idle_from(s, i + 1);
    }
}

/// A claim takes the first idle worker: it is idle, and every worker before
/// it is busy.
pub proof fn lemma_first_idle(s: Seq<bool>)
    ensures
        match first_idle(s) {
            Some(j) => 0 <= j < s.len() && !s[j] && forall|k: int| 0 <= k < j ==> s[k],
            None => forall|k: int| 0 <= k < s.len() ==> s[k],
        },
{
    lemma_first_idle_from(s, 0);
}

proof fn lemma_busy_count_update(s: Seq<bool>, i: int, b: bool)
    requires
        0 <= i < s.len(),
    ensures
        busy_count(s.update(i, b)) + (if s[i] { 1int } else { 0int }) == busy_count(s) + (if b {
            1int
        } else {
            0int
        }),
    decreases s.len(),
{
    let t = s.update(i, b);
    if i == s.len() - 1 {
        assert(t.drop_last() =~= s.drop_last());
    } else {
        assert(t.drop_last() =~= s.drop_last().update(i, b));
        lemma_busy_count_update(s.drop_last(), i, b);
    }
}

/// When some worker below `n` is idle, a claim succeeds and takes a worker
/// below `n`.
pub proof fn lemma_idle_below(s: Seq<bool>, n: int)
    requires
        !busy_below(s, n),
    ensures
        first_idle(s) matches Some(j) && 0 <= j < n && j < s.len(),
{
    lemma_first_idle(s);
}

/// At most as many workers are busy as there are workers.
pub proof fn lemma_busy_count_bounded(s: Seq<bool>)
    ensures
        busy_count(s) <= s.len(),
        busy_count(s) == s.len() <==> forall|k: int| 0 <= k < s.len() ==> s[k],
    decreases s.len(),
{
    if s.len() > 0 {
        lemma_busy_count_bounded(s.drop_last());
        if busy_count(s) == s.len() {
            assert forall|k: int| 0 <= k < s.len() implies s[k] by {
                if k < s.len() - 1 {
                    assert(s[k] == s.drop_last()[k]);
                }
            }
        }
        if forall|k: int| 0 <= k < s.len() ==> s[k] {
            assert forall|k: int| 0 <= k < s.drop_last().len() implies s.drop_last()[k] by {
                assert(s[k] == s.drop_last()[k]);
            }
        }
    }
}

/// A claim fails only when all workers are busy, and a successful one makes
/// one more worker busy and keeps the number of workers.
pub proof fn lemma_claim_counts(s: Seq<bool>)
    ensures
        claim(s).len() == s.len(),
        first_idle(s) is None <==> busy_count(s) == s.len(),
        first_idle(s) is Some ==> busy_count(claim(s)) == busy_count(s) + 1,
        first_idle(s) is None ==> claim(s) == s,
{
    lemma_first_idle(s);
    lemma_busy_count_bounded(s);
    if let Some(j) = first_idle(s) {
        lemma_busy_count_update(s, j, true);
    }
}

/// Mutual exclusion: a worker that holds a job is never claimed again before
/// it is released, so the jobs of one worker never overlap.
pub proof fn lemma_busy_worker_not_claimed(s: Seq<bool>, i: int)
    requires
        0 <= i < s.len(),
        s[i],
    ensures
        first_idle(s) != Some(i),
        claim(s)[i],
{
    lemma_first_idle(s);
}

/// With `n` workers, `c <= n - busy` claims in a row from a state with
/// `busy` workers busy all succeed, none has to wait, and each takes a worker
/// that was idle; the workers in use never exceed `n`.
pub proof fn lemma_claims_do_not_block(s: Seq<bool>, c: nat)
    requires
        busy_count(s) + c <= s.len(),
    ensures
        forall|j: nat| j < c ==> (#[trigger] first_idle(claim_times(s, j))) is Some,
        claim_times(s, c).len() == s.len(),
        busy_count(claim_times(s, c)) == busy_count(s) + c,
    decreases c,
{
    if c > 0 {
        let c1 = (c - 1) as nat;
        lemma_claims_do_not_block(s, c1);
        let p = claim_times(s, c1);
        lemma_busy_count_bounded(p);
        lemma_claim_counts(p);
        assert forall|j: nat| j < c implies (#[trigger] first_idle(claim_times(s, j))) is Some by {
            if j == c1 {
                assert(first_idle(p) is Some);
            }
        }
    }
}

/// Liveness under contention: once a busy worker is released, the next
/// claim succeeds, so a waiting caller that re-scans gets a worker.
pub proof fn lemma_release_enables_claim(s: Seq<bool>, i: int)
    requires
        0 <= i < s.len(),
    ensures
        first_idle(s.update(i, false)) is Some,
{
    let t = s.update(i, false);
    lemma_first_idle(t);
    assert(!t[i]);
}

/// Whatever claims and releases happen, the pool keeps exactly as many
/// workers as it was built with, and at most that many hold a job at once.
pub proof fn lemma_workers_fixed(s: Seq<bool>, es: Seq<Option<int>>)
    ensures
        run(s, es).len() == s.len(),
        busy_count(run(s, es)) <= s.len(),
    decreases es.len(),
{
    if es.len() > 0 {
        lemma_workers_fixed(s, es.drop_last());
        lemma_claim_counts(run(s, es.drop_last()));
    }
    lemma_busy_count_bounded(run(s, es));
}

} // verus!
