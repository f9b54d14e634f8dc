//! Which keyboard devices have a listener, and when a device that could not
//! be opened may be tried again.

use vstd::prelude::*;

use crate::clock::{elapsed_nanos, instant_now, MAX_DURATION_NANOS};

verus! {

/// The rescan period (10 s): the base of the retry back-off.
pub const RESCAN_INTERVAL_NANOS: u128 = 10_000_000_000;

/// Longest wait before a device is tried again (600 s).
pub const MAX_RETRY_BACKOFF_NANOS: u128 = 600_000_000_000;

/// Exponents of the back-off stop growing here.
pub const MAX_BACKOFF_EXPONENT: u32 = 10;

pub open spec fn two_pow(n: nat) -> nat
    decreases n,
{
    if n == 0 {
        1
    } else {
        2 * two_pow((n - 1) as nat)
    }
}

/// Wait before retrying a device after `attempts` failed opens:
/// 10 s * 2^min(attempts, 10), at most 600 s.
pub open spec fn backoff_spec(attempts: u32) -> int {
    let e = if attempts < MAX_BACKOFF_EXPONENT {
        attempts
    } else {
        MAX_BACKOFF_EXPONENT
    };
    let grown = RESCAN_INTERVAL_NANOS * two_pow(e as nat);
    if grown < MAX_RETRY_BACKOFF_NANOS {
        grown
    } else {
        MAX_RETRY_BACKOFF_NANOS as int
    }
}

/// The retry back-off in nanoseconds; see `backoff_spec`.
pub fn retry_backoff(attempts: u32) -> (r: u128)
    ensures
        r as int == backoff_spec(attempts),
{
    let e: u32 = if attempts < MAX_BACKOFF_EXPONENT {
        attempts
    } else {
        MAX_BACKOFF_EXPONENT
    };
    let mut factor: u128 = 1;
    let mut i: u32 = 0;
    while i < e
        invariant
            i <= e <= MAX_BACKOFF_EXPONENT,
            factor == two_pow(i as nat),
            factor <= 1024,
        decreases e - i,
    {
        proof {
            reveal_with_fuel(two_pow, 11);
        }
        assert(two_pow((i + 1) as nat) == 2 * two_pow(i as nat));
        factor = factor * 2;
        i = i + 1;
        assert(i <= 10 ==> two_pow(i as nat) <= 1024) by {
            reveal_with_fuel(two_pow, 11);
        }
    }
    let grown = RESCAN_INTERVAL_NANOS * factor;
    if grown < MAX_RETRY_BACKOFF_NANOS {
        grown
    } else {
        MAX_RETRY_BACKOFF_NANOS
    }
}


/// When the periodic rescan for hotplugged keyboards is due: every 10 s.
pub struct RescanSchedule {
    /// Clock reading of the last rescan (or of the start).
    pub last_scan: u128,
}

impl RescanSchedule {
    /// A schedule whose first rescan is due 10 s after `now`.
    pub fn starting_at(now: u128) -> (r: Self)
        ensures
            r.last_scan == now,
    {
        RescanSchedule { last_scan: now }
    }

    /// Whether a rescan is due at clock reading `now`: 10 s or more after
    /// the last one (a reading before it counts as no time). A due rescan is
    /// recorded as the last one.
    pub fn due_at(&mut self, now: u128) -> (r: bool)
        ensures
            r == (now >= old(self).last_scan && now - old(self).last_scan >= RESCAN_INTERVAL_NANOS),
            final(self).last_scan == (if r {
                now
            } else {
                old(self).last_scan
            }),
    {
        if now >= self.last_scan && now - self.last_scan >= RESCAN_INTERVAL_NANOS {
            self.last_scan = now;
            true
        } else {
            false
        }
    }
}

/// A device that could not be opened: failed opens in a row, and the clock
/// reading before which it is not tried again.
#[derive(Debug)]
pub struct RetryEntry {
    pub path: String,
    pub attempts: u32,
    pub retry_at: u128,
}

/// How a listener ended.
#[derive(Debug, Clone, Copy, PartialEq, Eq, Structural)]
pub enum ListenOutcome {
    /// The device could not be opened.
    Unopenable,
    /// The listener ran and stopped.
    Ended,
}

/// Whether some element of `paths` is `p`.
pub open spec fn has_path(paths: Seq<String>, p: Seq<char>) -> bool {
    exists|i: int| 0 <= i < paths.len() && #[trigger] paths[i]@ == p
}

/// The first retry entry for `p`, as (attempts, retry_at).
pub open spec fn failure_in(entries: Seq<RetryEntry>, p: Seq<char>) -> Option<(u32, u128)>
    decreases entries.len(),
{
    if entries.len() == 0 {
        None
    } else if entries[0].path@ == p {
        Some((entries[0].attempts, entries[0].retry_at))
    } else {
        failure_in(entries.drop_first(), p)
    }
}

/// The listener registry: devices with a running listener, and devices
/// waiting for a retry.
pub struct Registry {
    pub active: Vec<String>,
    pub failed: Vec<RetryEntry>,
    /// Origin of the registry's clock readings.
    pub epoch: std::time::Instant,
}

/// Whether a rescan should start a listener for `p` at clock reading `now`:
/// not while one runs, and for a device that could not be opened only from
/// its retry time on.
pub open spec fn spawn_allowed(active: bool, failure: Option<(u32, u128)>, now: u128) -> bool {
    !active && match failure {
        Some((_, retry_at)) => now >= retry_at,
        None => true,
    }
}

/// Failed opens in a row after one more failure (saturating at `u32::MAX`).
pub open spec fn attempts_after(f: Option<(u32, u128)>) -> u32 {
    let n = match f {
        Some((n, _)) => n,
        None => 0,
    };
    if n == u32::MAX {
        n
    } else {
        (n + 1) as u32
    }
}

/// No two elements of `v` name the same path.
pub open spec fn unique_strings(v: Seq<String>) -> bool {
    forall|i: int, j: int| 0 <= i < j < v.len() ==> v[i]@ != v[j]@
}

/// No two retry entries name the same path.
pub open spec fn unique_paths(e: Seq<RetryEntry>) -> bool {
    forall|i: int, j: int| 0 <= i < j < e.len() ==> e[i].path@ != e[j].path@
}

/// With unique paths, the entry for a path is the one that names it.
pub proof fn lemma_failure_at(e: Seq<RetryEntry>, j: int)
    requires
        unique_paths(e),
        0 <= j < e.len(),
    ensures
        failure_in(e, e[j].path@) == Some((e[j].attempts, e[j].retry_at)),
{
    lemma_failure_in_first(e, e[j].path@);
}

/// Without an entry naming `q` there is no failure recorded for it.
pub proof fn lemma_failure_none(e: Seq<RetryEntry>, q: Seq<char>)
    requires
        forall|k: int| 0 <= k < e.len() ==> e[k].path@ != q,
    ensures
        failure_in(e, q).is_none(),
{
    lemma_failure_in_first(e, q);
}

impl Registry {
    /// Each path appears at most once in each list.
    pub open spec fn wf(&self) -> bool {
        unique_strings(self.active@) && unique_paths(self.failed@)
    }

    pub open spec fn is_active(&self, p: Seq<char>) -> bool {
        has_path(self.active@, p)
    }

    pub open spec fn failure(&self, p: Seq<char>) -> Option<(u32, u128)> {
        failure_in(self.failed@, p)
    }

    pub fn new() -> (r: Self)
        ensures
            r.active@.len() == 0,
            r.failed@.len() == 0,
            r.wf(),
            forall|p: Seq<char>| !r.is_active(p) && #[trigger] r.failure(p).is_none(),
    {
        proof {
            assert forall|p: Seq<char>| #[trigger] failure_in(Seq::<RetryEntry>::empty(), p).is_none() by {
            }
        }
        Registry { active: Vec::new(), failed: Vec::new(), epoch: instant_now() }
    }

    /// Nanoseconds since this registry was created.
    pub fn clock_nanos(&self) -> (r: u128)
        ensures
            r <= MAX_DURATION_NANOS,
    {
        elapsed_nanos(&self.epoch)
    }

    fn find_active(&self, path: &String) -> (r: bool)
        ensures
            r == self.is_active(path@),
    {
        let mut i: usize = 0;
        while i < self.active.len()
            invariant
                i <= self.active@.len(),
                forall|k: int| 0 <= k < i ==> self.active@[k]@ != path@,
            decreases self.active@.len() - i,
        {
            if self.active[i] == *path {
                return true;
            }
            i = i + 1;
        }
        false
    }

    /// Index of the first retry entry for `path`.
    fn find_failure(&self, path: &String) -> (r: Option<usize>)
        ensures
            match r {
                Some(i) => i < self.failed@.len() && self.failed@[i as int].path@ == path@
                    && forall|k: int| 0 <= k < i ==> self.failed@[k].path@ != path@,
                None => forall|k: int| 0 <= k < self.failed@.len() ==> self.failed@[k].path@ != path@,
            },
    {
        let mut i: usize = 0;
        while i < self.failed.len()
            invariant
                i <= self.failed@.len(),
                forall|k: int| 0 <= k < i ==> self.failed@[k].path@ != path@,
            decreases self.failed@.len() - i,
        {
            if self.failed[i].path == *path {
                return Some(i);
            }
            i = i + 1;
        }
        None
    }

    /// Marks `path` as having a running listener.
    pub fn register(&mut self, path: &String)
        requires
            old(self).wf(),
        ensures
            final(self).wf(),
            final(self).is_active(path@),
            forall|q: Seq<char>| q != path@ ==> final(self).is_active(q) == old(self).is_active(q),
            forall|q: Seq<char>| #[trigger] final(self).failure(q) == old(self).failure(q),
            final(self).epoch == old(self).epoch,
    {
        if !self.find_active(path) {
            let ghost before = self.active@;
            self.active.push(path.clone());
            assert(self.active@[before.len() as int]@ == path@);
            assert forall|q: Seq<char>| q != path@ implies has_path(self.active@, q) == has_path(before, q) by {
                if has_path(self.active@, q) {
                    let i = choose|i: int| 0 <= i < self.active@.len() && #[trigger] self.active@[i]@ == q;
                    assert(before[i]@ == q);
                }
                if has_path(before, q) {
                    let i = choose|i: int| 0 <= i < before.len() && #[trigger] before[i]@ == q;
                    assert(self.active@[i]@ == q);
                }
            }
        }
    }

    /// Forgets the running listener for `path`.
    fn clear_active(&mut self, path: &String)
        requires
            old(self).wf(),
        ensures
            final(self).wf(),
            !final(self).is_active(path@),
            forall|q: Seq<char>| q != path@ ==> final(self).is_active(q) == old(self).is_active(q),
            final(self).failed@ == old(self).failed@,
            final(self).epoch == old(self).epoch,
    {
        let mut i: usize = 0;
        while i < self.active.len()
            invariant
                i <= self.active@.len(),
                forall|k: int| 0 <= k < i ==> self.active@[k]@ != path@,
                self.active@ == old(self).active@,
                self.failed@ == old(self).failed@,
                self.epoch == old(self).epoch,
                old(self).wf(),
            decreases self.active@.len() - i,
        {
            if self.active[i] == *path {
                let ghost before = self.active@;
                self.active.remove(i);
                assert forall|k: int| 0 <= k < self.active@.len() implies self.active@[k]@ != path@ by {
                    if k >= i {
                        assert(self.active@[k] == before[k + 1]);
                    } else {
                        assert(self.active@[k] == before[k]);
                    }
                }
                assert forall|q: Seq<char>| q != path@ implies has_path(self.active@, q) == has_path(before, q) by {
                    if has_path(self.active@, q) {
                        let j = choose|j: int| 0 <= j < self.active@.len() && #[trigger] self.active@[j]@ == q;
                        if j >= i {
                            assert(before[j + 1]@ == q);
                        } else {
                            assert(before[j]@ == q);
                        }
                    }
                    if has_path(before, q) {
                        let j = choose|j: int| 0 <= j < before.len() && #[trigger] before[j]@ == q;
                        if j > i {
                            assert(self.active@[j - 1]@ == q);
                        } else {
                            assert(j != i);
                            assert(self.active@[j]@ == q);
                        }
                    }
                }
                return;
            }
            i = i + 1;
        }
    }

    /// Records (replacing any earlier record) that `path` failed
    /// `attempts` times and waits until `retry_at`.
    fn set_failure(&mut self, path: &String, attempts: u32, retry_at: u128)
        requires
            old(self).wf(),
        ensures
            final(self).wf(),
            final(self).failure(path@) == Some((attempts, retry_at)),
            forall|q: Seq<char>| q != path@ ==> #[trigger] final(self).failure(q) == old(self).failure(q),
            final(self).active@ == old(self).active@,
            final(self).epoch == old(self).epoch,
    {
        let ghost before = self.failed@;
        let entry = RetryEntry { path: path.clone(), attempts, retry_at };
        match self.find_failure(path) {
            Some(i) => {
                self.failed.set(i, entry);
                assert forall|a: int, b: int| 0 <= a < b < self.failed@.len() implies self.failed@[a].path@
                    != self.failed@[b].path@ by {
                    assert(self.failed@[a].path@ == before[a].path@);
                    assert(self.failed@[b].path@ == before[b].path@);
                }
                proof {
                    lemma_failure_at(self.failed@, i as int);
                }
                assert forall|q: Seq<char>| q != path@ implies #[trigger] failure_in(self.failed@, q) == failure_in(before, q) by {
                    if exists|j: int| 0 <= j < before.len() && before[j].path@ == q {
                        let j = choose|j: int| 0 <= j < before.len() && before[j].path@ == q;
                        assert(j != i);
                        lemma_failure_at(before, j);
                        assert(self.failed@[j] == before[j]);
                        lemma_failure_at(self.failed@, j);
                    } else {
                        lemma_failure_none(before, q);
                        assert forall|k: int| 0 <= k < self.failed@.len() implies self.failed@[k].path@ != q by {
                            if k != i {
                                assert(self.failed@[k] == before[k]);
                            }
                        }
                        lemma_failure_none(self.failed@, q);
                    }
                }
            },
            None => {
                self.failed.push(entry);
                let ghost n = before.len() as int;
                assert forall|a: int, b: int| 0 <= a < b < self.failed@.len() implies self.failed@[a].path@
                    != self.failed@[b].path@ by {
                    assert(self.failed@[a] == before[a]);
                    if b < n {
                        assert(self.failed@[b] == before[b]);
                    }
                }
                proof {
                    lemma_failure_at(self.failed@, n);
                }
                assert forall|q: Seq<char>| q != path@ implies #[trigger] failure_in(self.failed@, q) == failure_in(before, q) by {
                    if exists|j: int| 0 <= j < before.len() && before[j].path@ == q {
                        let j = choose|j: int| 0 <= j < before.len() && before[j].path@ == q;
                        lemma_failure_at(before, j);
                        assert(self.failed@[j] == before[j]);
                        lemma_failure_at(self.failed@, j);
                    } else {
                        lemma_failure_none(before, q);
                        assert forall|k: int| 0 <= k < self.failed@.len() implies self.failed@[k].path@ != q by {
                            if k < n {
                                assert(self.failed@[k] == before[k]);
                            }
                        }
                        lemma_failure_none(self.failed@, q);
                    }
                }
            },
        }
    }

    /// Forgets any failure recorded for `path`.
    fn clear_failure(&mut self, path: &String)
        requires
            old(self).wf(),
        ensures
            final(self).wf(),
            final(self).failure(path@).is_none(),
            forall|q: Seq<char>| q != path@ ==> #[trigger] final(self).failure(q) == old(self).failure(q),
            final(self).active@ == old(self).active@,
            final(self).epoch == old(self).epoch,
    {
        let ghost before = self.failed@;
        match self.find_failure(path) {
            Some(i) => {
                self.failed.remove(i);
                assert forall|a: int, b: int| 0 <= a < b < self.failed@.len() implies self.failed@[a].path@
                    != self.failed@[b].path@ by {
                    if a >= i {
                        assert(self.failed@[a] == before[a + 1]);
                    } else {
                        assert(self.failed@[a] == before[a]);
                    }
                    if b >= i {
                        assert(self.failed@[b] == before[b + 1]);
                    } else {
                        assert(self.failed@[b] == before[b]);
                    }
                }
                assert forall|k: int| 0 <= k < self.failed@.len() implies self.failed@[k].path@ != path@ by {
                    if k >= i {
                        assert(self.failed@[k] == before[k + 1]);
                    } else {
                        assert(self.failed@[k] == before[k]);
                    }
                }
                proof {
                    lemma_failure_none(self.failed@, path@);
                }
                assert forall|q: Seq<char>| q != path@ implies #[trigger] failure_in(self.failed@, q) == failure_in(before, q) by {
                    if exists|j: int| 0 <= j < before.len() && before[j].path@ == q {
                        let j = choose|j: int| 0 <= j < before.len() && before[j].path@ == q;
                        assert(j != i);
                        lemma_failure_at(before, j);
                        if j > i {
                            assert(self.failed@[j - 1] == before[j]);
                            lemma_failure_at(self.failed@, j - 1);
                        } else {
                            assert(self.failed@[j] == before[j]);
                            lemma_failure_at(self.failed@, j);
                        }
                    } else {
                        lemma_failure_none(before, q);
                        assert forall|k: int| 0 <= k < self.failed@.len() implies self.failed@[k].path@ != q by {
                            if k >= i {
                                assert(self.failed@[k] == before[k + 1]);
                            } else {
                                assert(self.failed@[k] == before[k]);
                            }
                        }
                        lemma_failure_none(self.failed@, q);
                    }
                }
            },
            None => {
                proof {
                    lemma_failure_none(before, path@);
                }
            },
        }
    }

    /// The listener for `path` ended with `outcome` at clock reading `now`.
    /// A device that could not be opened is retried only after the back-off
    /// for its count of failed opens in a row; a listener that ran clears
    /// that count. Either way the path is free for a rescan to pick up again.
    pub fn listener_finished_at(&mut self, path: &String, outcome: ListenOutcome, now: u128)
        requires
            old(self).wf(),
            now <= u128::MAX - MAX_RETRY_BACKOFF_NANOS,
        ensures
            final(self).wf(),
            !final(self).is_active(path@),
            outcome == ListenOutcome::Unopenable ==> {
                let a = attempts_after(old(self).failure(path@));
                final(self).failure(path@) == Some((a, (now + backoff_spec(a)) as u128))
            },
            outcome == ListenOutcome::Ended ==> final(self).failure(path@).is_none(),
            forall|q: Seq<char>|
                q != path@ ==> final(self).is_active(q) == old(self).is_active(q) && #[trigger] final(self).failure(q)
                    == old(self).failure(q),
            final(self).epoch == old(self).epoch,
    {
        match outcome {
            ListenOutcome::Unopenable => {
                proof {
                    lemma_failure_in_first(self.failed@, path@);
                }
                let previous: u32 = match self.find_failure(path) {
                    Some(i) => self.failed[i].attempts,
                    None => 0,
                };
                let attempts = previous.saturating_add(1);
                let backoff = retry_backoff(attempts);
                assert(backoff <= MAX_RETRY_BACKOFF_NANOS);
                self.set_failure(path, attempts, now + backoff);
            },
            ListenOutcome::Ended => {
                self.clear_failure(path);
            },
        }
        let ghost middle = *self;
        // Free the path so a rescan can pick the device up again.
        self.clear_active(path);
        assert forall|q: Seq<char>| q != path@ implies self.is_active(q) == old(self).is_active(q)
            && #[trigger] self.failure(q) == old(self).failure(q) by {
            assert(middle.is_active(q) == old(self).is_active(q));
            assert(middle.failure(q) == old(self).failure(q));
        }
    }

    /// The listener for `path` ended with `outcome` now; see
    /// `listener_finished_at`.
    pub fn listener_finished(&mut self, path: &String, outcome: ListenOutcome)
        requires
            old(self).wf(),
        ensures
            final(self).wf(),
            !final(self).is_active(path@),
            outcome == ListenOutcome::Unopenable ==> {
                let a = attempts_after(old(self).failure(path@));
                final(self).failure(path@) matches Some((n, retry_at)) && n == a && backoff_spec(a)
                    <= retry_at <= MAX_DURATION_NANOS + backoff_spec(a)
            },
            outcome == ListenOutcome::Ended ==> final(self).failure(path@).is_none(),
            forall|q: Seq<char>|
                q != path@ ==> final(self).is_active(q) == old(self).is_active(q) && #[trigger] final(self).failure(q)
                    == old(self).failure(q),
            final(self).epoch == old(self).epoch,
    {
        let now = self.clock_nanos();
        self.listener_finished_at(path, outcome, now);
    }

    /// Whether a rescan should start a listener for `path` at clock reading
    /// `now`; see `spawn_allowed`.
    pub fn should_spawn_at(&self, path: &String, now: u128) -> (r: bool)
        ensures
            r == spawn_allowed(self.is_active(path@), self.failure(path@), now),
    {
        if self.find_active(path) {
            return false;
        }
        proof {
            lemma_failure_in_first(self.failed@, path@);
        }
        match self.find_failure(path) {
            Some(i) => now >= self.failed[i].retry_at,
            None => true,
        }
    }

    /// Whether a rescan should start a listener for `path` now.
    pub fn should_spawn(&self, path: &String) -> (r: bool)
        ensures
            exists|now: u128|
                now <= MAX_DURATION_NANOS && r == #[trigger] spawn_allowed(
                    self.is_active(path@),
                    self.failure(path@),
                    now,
                ),
    {
        let now = self.clock_nanos();
        self.should_spawn_at(path, now)
    }
}

/// `failure_in` finds the first entry whose path is `p`.
pub proof fn lemma_failure_in_first(entries: Seq<RetryEntry>, p: Seq<char>)
    ensures
        (forall|k: int| 0 <= k < entries.len() ==> entries[k].path@ != p) ==> failure_in(entries, p).is_none(),
        forall|i: int|
            0 <= i < entries.len() && entries[i].path@ == p && (forall|k: int| 0 <= k < i ==> entries[k].path@ != p)
                ==> failure_in(entries, p) == Some((entries[i].attempts, entries[i].retry_at)),
    decreases entries.len(),
{
    if entries.len() > 0 {
        lemma_failure_in_first(entries.drop_first(), p);
        assert forall|i: int|
            0 <= i < entries.len() && entries[i].path@ == p && (forall|k: int| 0 <= k < i ==> entries[k].path@ != p)
                implies failure_in(entries, p) == Some((entries[i].attempts, entries[i].retry_at)) by {
            if i > 0 {
                assert(entries[0].path@ != p);
                assert(entries.drop_first()[i - 1] == entries[i]);
                assert forall|k: int| 0 <= k < i - 1 implies entries.drop_first()[k].path@ != p by {
                    assert(entries.drop_first()[k] == entries[k + 1]);
                }
            }
        }
        if forall|k: int| 0 <= k < entries.len() ==> entries[k].path@ != p {
            assert forall|k: int| 0 <= k < entries.drop_first().len() implies entries.drop_first()[k].path@ != p by {
                assert(entries.drop_first()[k] == entries[k + 1]);
            }
        }
    }
}


/// The back-off doubles from 20 s after the first failed open and stays at
/// 600 s from the sixth on; it never shrinks as failures add up.
pub proof fn lemma_backoff_bounds(a: u32, b: u32)
    requires
        a <= b,
    ensures
        backoff_spec(a) <= backoff_spec(b),
        a >= 1 ==> 2 * RESCAN_INTERVAL_NANOS <= backoff_spec(a),
        backoff_spec(a) <= MAX_RETRY_BACKOFF_NANOS,
        a >= 6 ==> backoff_spec(a) == MAX_RETRY_BACKOFF_NANOS,
        backoff_spec(1) == 20_000_000_000,
        backoff_spec(2) == 40_000_000_000,
        backoff_spec(5) == 320_000_000_000,
{
    reveal_with_fuel(two_pow, 11);
    let ea: u32 = if a < MAX_BACKOFF_EXPONENT { a } else { MAX_BACKOFF_EXPONENT };
    let eb: u32 = if b < MAX_BACKOFF_EXPONENT { b } else { MAX_BACKOFF_EXPONENT };
    assert(ea <= eb);
    lemma_two_pow_monotone(ea as nat, eb as nat);
}

proof fn lemma_two_pow_monotone(x: nat, y: nat)
    requires
        x <= y,
    ensures
        1 <= two_pow(x) <= two_pow(y),
    decreases y,
{
    if y > 0 {
        if x < y {
            lemma_two_pow_monotone(x, (y - 1) as nat);
        } else {
            lemma_two_pow_monotone((x - 1) as nat, (y - 1) as nat);
        }
    }
}

/// A device that could not be opened is not tried again before its retry
/// time and is tried from then on (when no listener runs for it); a device
/// whose listener ran is tried again at the next rescan.
pub proof fn lemma_retry_window(pre: Registry, post: Registry, path: Seq<char>, now: u128, t: u128)
    requires
        !post.is_active(path),
    ensures
        ({
            let a = attempts_after(pre.failure(path));
            post.failure(path) == Some((a, (now + backoff_spec(a)) as u128)) && now + backoff_spec(a)
                <= u128::MAX ==> (spawn_allowed(post.is_active(path), post.failure(path), t) <==> t
                >= now + backoff_spec(a))
        }),
        post.failure(path).is_none() ==> spawn_allowed(post.is_active(path), post.failure(path), t),
{
}

/// While a listener runs for a device, no rescan starts another.
pub proof fn lemma_no_second_listener(r: Registry, path: Seq<char>, now: u128)
    requires
        r.is_active(path),
    ensures
        !spawn_allowed(r.is_active(path), r.failure(path), now),
{
}


/// A device without a running listener whose open failed is retried exactly
/// from its retry time on: allowed at any reading at or after it, refused
/// before it.
pub proof fn lemma_failed_device_retried_after_backoff(r: Registry, path: Seq<char>, now: u128)
    requires
        !r.is_active(path),
        r.failure(path) is Some,
    ensures
        spawn_allowed(r.is_active(path), r.failure(path), now) <==> now >= r.failure(path).unwrap().1,
{
}

} // verus!
