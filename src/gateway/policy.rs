use vstd::prelude::*;

verus! {

/// The longest wait between two connection attempts, in milliseconds.
pub const MAX_BACKOFF: u64 = 60_000;

/// The wait before the next attempt after `attempts` consecutive failures: `base` times
/// `attempts`, capped at `MAX_BACKOFF`.
pub open spec fn backoff(base: u64, attempts: nat) -> u64 {
    if base * attempts < MAX_BACKOFF {
        (base * attempts) as u64
    } else {
        MAX_BACKOFF
    }
}

/// The wait before the next attempt after `attempts` consecutive failures.
pub fn backoff_delay(base: u64, attempts: usize) -> (r: u64)
    ensures
        r == backoff(base, attempts as nat),
{
    match base.checked_mul(attempts as u64) {
        Some(d) => {
            if d < MAX_BACKOFF {
                d
            } else {
                MAX_BACKOFF
            }
        },
        None => MAX_BACKOFF,
    }
}

/// Bookkeeping of consecutive failed connection attempts. Durations are in milliseconds.
#[derive(Clone, Copy, Debug, PartialEq, Eq, Structural)]
pub struct ReconnectPolicy {
    /// Consecutive failed attempts so far.
    pub attempts: usize,
    /// Consecutive failed attempts after which reconnection stops.
    pub max_attempts: usize,
    /// Unit of the backoff.
    pub base_delay: u64,
    /// Whether reconnection has stopped for good.
    pub exhausted: bool,
}

impl ReconnectPolicy {
    pub open spec fn wf(self) -> bool {
        self.attempts <= self.max_attempts
    }

    /// The policy after one more failed attempt, and the wait before the next attempt, or
    /// `None` when no further attempt is made.
    pub open spec fn after_failure(self) -> (ReconnectPolicy, Option<u64>) {
        if self.exhausted {
            (self, None)
        } else if self.attempts + 1 < self.max_attempts {
            let next = ReconnectPolicy {
                attempts: (self.attempts + 1) as usize,
                max_attempts: self.max_attempts,
                base_delay: self.base_delay,
                exhausted: false,
            };
            (next, Some(backoff(self.base_delay, next.attempts as nat)))
        } else {
            let spent = ReconnectPolicy {
                attempts: self.max_attempts,
                max_attempts: self.max_attempts,
                base_delay: self.base_delay,
                exhausted: true,
            };
            (spent, None)
        }
    }

    /// The policy after a successful connection: the count starts again from zero.
    pub open spec fn after_success(self) -> ReconnectPolicy {
        if self.exhausted {
            self
        } else {
            ReconnectPolicy {
                attempts: 0,
                max_attempts: self.max_attempts,
                base_delay: self.base_delay,
                exhausted: false,
            }
        }
    }

    /// A policy with no failure counted yet.
    pub fn new(max_attempts: usize, base_delay: u64) -> (r: ReconnectPolicy)
        ensures
            r.wf(),
            r.attempts == 0,
            r.max_attempts == max_attempts,
            r.base_delay == base_delay,
            !r.exhausted,
    {
        ReconnectPolicy { attempts: 0, max_attempts, base_delay, exhausted: false }
    }

    /// Counts one failed attempt and returns the wait before the next one, or `None` when
    /// the attempts are spent and reconnection stops.
    pub fn on_failure(&mut self) -> (r: Option<u64>)
        requires
            old(self).wf(),
        ensures
            (*final(self), r) == old(self).after_failure(),
            final(self).wf(),
    {
        if self.exhausted {
            return None;
        }
        if self.max_attempts - self.attempts > 1 {
            self.attempts = self.attempts + 1;
            Some(backoff_delay(self.base_delay, self.attempts))
        } else {
            self.attempts = self.max_attempts;
            self.exhausted = true;
            None
        }
    }

    /// Records a successful connection: the attempt count goes back to zero.
    pub fn on_success(&mut self)
        requires
            old(self).wf(),
        ensures
            *final(self) == old(self).after_success(),
            final(self).wf(),
    {
        if !self.exhausted {
            self.attempts = 0;
        }
    }
}

/// The policy after a series of attempts, each either a success (`true`) or a failure
/// (`false`), and the wait that the last of them asked for (`None` after a success, or
/// once reconnection has stopped).
pub open spec fn run_attempts(p: ReconnectPolicy, outcomes: Seq<bool>) -> (ReconnectPolicy, Option<u64>)
    decreases outcomes.len(),
{
    if outcomes.len() == 0 {
        (p, None)
    } else {
        let q = run_attempts(p, outcomes.drop_last()).0;
        if outcomes.last() {
            (q.after_success(), None)
        } else {
            q.after_failure()
        }
    }
}

/// `n` failed attempts in a row.
pub open spec fn failures(n: nat) -> Seq<bool> {
    Seq::new(n, |i: int| false)
}

/// The state of a fresh policy after `n` failures in a row, while `n` stays below the
/// maximum: `n` failures counted, the last wait is `base × n` capped, and nothing stopped.
pub proof fn lemma_failures_counted(p: ReconnectPolicy, n: nat)
    requires
        p.wf(),
        p.attempts == 0,
        !p.exhausted,
        1 <= n < p.max_attempts,
    ensures
        run_attempts(p, failures(n)).0.attempts == n,
        !run_attempts(p, failures(n)).0.exhausted,
        run_attempts(p, failures(n)).0.max_attempts == p.max_attempts,
        run_attempts(p, failures(n)).0.base_delay == p.base_delay,
        run_attempts(p, failures(n)).1 == Some(backoff(p.base_delay, n)),
    decreases n,
{
    assert(failures(n).drop_last() =~= failures((n - 1) as nat));
    assert(!failures(n).last());
    if n > 1 {
        lemma_failures_counted(p, (n - 1) as nat);
    } else {
        assert(failures(0) =~= Seq::<bool>::empty());
        assert(run_attempts(p, failures(0)).0 == p);
    }
    let q = run_attempts(p, failures((n - 1) as nat)).0;
    assert(run_attempts(p, failures(n)) == q.after_failure());
}

/// After `n` consecutive failed attempts with `n` below the maximum, the wait before
/// attempt `n + 1` is the base delay times `n`, capped at `MAX_BACKOFF`.
pub proof fn lemma_backoff_is_linear_with_cap(p: ReconnectPolicy, n: nat)
    requires
        p.wf(),
        p.attempts == 0,
        !p.exhausted,
        1 <= n < p.max_attempts,
    ensures
        run_attempts(p, failures(n)).1 == Some(if p.base_delay * n < MAX_BACKOFF {
            (p.base_delay * n) as u64
        } else {
            MAX_BACKOFF
        }),
{
    lemma_failures_counted(p, n);
}

/// After as many consecutive failures as the maximum allows, reconnection stops: the last
/// failure asks for no further attempt, every failure before it asked for one, and once
/// stopped the policy never asks for an attempt again.
pub proof fn lemma_attempts_exhausted(p: ReconnectPolicy, more: Seq<bool>)
    requires
        p.wf(),
        p.attempts == 0,
        !p.exhausted,
        p.max_attempts >= 1,
    ensures
        run_attempts(p, failures(p.max_attempts as nat)).0.exhausted,
        run_attempts(p, failures(p.max_attempts as nat)).1 is None,
        forall|k: nat| 1 <= k < p.max_attempts ==> (#[trigger] run_attempts(p, failures(k))).1 is Some,
        ({
            let stopped = run_attempts(p, failures(p.max_attempts as nat)).0;
            run_attempts(stopped, more) == (stopped, None::<u64>)
        }),
{
    let m = p.max_attempts as nat;
    assert(failures(m).drop_last() =~= failures((m - 1) as nat));
    assert(!failures(m).last());
    if m > 1 {
        lemma_failures_counted(p, (m - 1) as nat);
    } else {
        assert(failures(0) =~= Seq::<bool>::empty());
        assert(run_attempts(p, failures(0)).0 == p);
    }
    let q = run_attempts(p, failures((m - 1) as nat)).0;
    assert(run_attempts(p, failures(m)) == q.after_failure());
    assert forall|k: nat| 1 <= k < p.max_attempts implies (#[trigger] run_attempts(p, failures(k))).1 is Some by {
        lemma_failures_counted(p, k);
    }
    let stopped = run_attempts(p, failures(m)).0;
    lemma_stopped_stays(stopped, more);
}

/// A policy that has stopped stays stopped and asks for no attempt, whatever follows.
pub proof fn lemma_stopped_stays(p: ReconnectPolicy, more: Seq<bool>)
    requires
        p.exhausted,
    ensures
        run_attempts(p, more) == (p, None::<u64>),
    decreases more.len(),
{
    if more.len() > 0 {
        lemma_stopped_stays(p, more.drop_last());
    }
}

/// A successful connection resets the count: after two failures, a success and another
/// failure, the wait is the base delay times one, not times three.
pub proof fn lemma_success_resets_count(p: ReconnectPolicy)
    requires
        p.wf(),
        p.attempts == 0,
        !p.exhausted,
        p.max_attempts >= 3,
    ensures
        run_attempts(p, seq![false, false, true, false]).1 == Some(backoff(p.base_delay, 1)),
{
    let s = seq![false, false, true, false];
    let s3 = seq![false, false, true];
    assert(s.drop_last() =~= s3);
    assert(s3.drop_last() =~= failures(2));
    lemma_failures_counted(p, 2);
    let q2 = run_attempts(p, failures(2)).0;
    assert(run_attempts(p, s3).0 == q2.after_success());
    assert(run_attempts(p, s) == q2.after_success().after_failure());
}

} // verus!
