//! The backoff-retry schedule that drives every protocol exchange.
//!
//! A query sends its request, waits for the current timeout, and reads a
//! response. The first wait is 250 ms; after every unsatisfying attempt the
//! timeout doubles. An attempt whose timeout would exceed 64000 ms is never
//! made: the attempt waiting exactly 64000 ms is the last one allowed, so a
//! query makes at most nine attempts before it is abandoned.

use vstd::prelude::*;

verus! {

/// Timeout of the first attempt, in milliseconds.
pub const INITIAL_TIMEOUT_MS: u64 = 250;

/// Largest timeout an attempt may wait for, in milliseconds.
pub const MAX_TIMEOUT_MS: u64 = 64000;

/// Index of the last allowed attempt: `timeout_at(LAST_ATTEMPT)` is exactly
/// `MAX_TIMEOUT_MS`, and every later attempt would exceed the ceiling.
pub const LAST_ATTEMPT: u64 = 8;

/// Greatest number of attempts a single query can make before its backoff
/// schedule is exhausted: the attempts numbered 0 through `LAST_ATTEMPT`.
pub const MAX_ATTEMPTS: usize = 9;

/// The timeout, in milliseconds, of attempt number `k` (counting from 0):
/// 250 ms for the first attempt, doubling with each further one.
pub open spec fn timeout_at(k: nat) -> nat
    decreases k,
{
    if k == 0 {
        INITIAL_TIMEOUT_MS as nat
    } else {
        2 * timeout_at((k - 1) as nat)
    }
}

/// The timeout schedule starts at 250 ms and strictly doubles each attempt.
pub proof fn lemma_timeout_doubles(k: nat)
    ensures
        timeout_at(0) == INITIAL_TIMEOUT_MS,
        timeout_at(k + 1) == 2 * timeout_at(k),
        timeout_at(k + 1) > timeout_at(k),
{
    lemma_timeout_at_positive(k);
}

/// Every timeout in the schedule is positive.
pub proof fn lemma_timeout_at_positive(k: nat)
    ensures
        timeout_at(k) >= INITIAL_TIMEOUT_MS,
    decreases k,
{
    if k > 0 {
        lemma_timeout_at_positive((k - 1) as nat);
    }
}

/// The schedule never shrinks: a later attempt waits at least as long.
pub proof fn lemma_timeout_at_monotonic(j: nat, k: nat)
    requires
        j <= k,
    ensures
        timeout_at(j) <= timeout_at(k),
    decreases k,
{
    if j < k {
        lemma_timeout_at_monotonic(j, (k - 1) as nat);
    }
}

/// An attempt stays under the 64000 ms ceiling exactly when it is one of the
/// first nine: attempt number `LAST_ATTEMPT` waits exactly 64000 ms and is
/// the last one allowed.
pub proof fn lemma_timeout_ceiling(k: nat)
    ensures
        timeout_at(k) <= MAX_TIMEOUT_MS <==> k <= LAST_ATTEMPT,
        timeout_at(LAST_ATTEMPT as nat) == MAX_TIMEOUT_MS,
    decreases k,
{
    reveal_with_fuel(timeout_at, 9);
    if k > 8 {
        lemma_timeout_ceiling((k - 1) as nat);
    }
}

/// The retry state of one query: the timeout the next attempt will wait for,
/// together with the (ghost) number of attempts already made.
pub struct BackoffState {
    pub timeout_ms: u64,
    pub attempt: Ghost<nat>,
}

impl BackoffState {
    /// The state is one the schedule can actually reach: the timeout is the
    /// scheduled one for its attempt number, and the ceiling is respected.
    pub open spec fn wf(self) -> bool {
        self.attempt@ <= LAST_ATTEMPT && self.timeout_ms == timeout_at(self.attempt@)
    }

    /// State before the first attempt of a query: 250 ms.
    pub fn start() -> (r: BackoffState)
        ensures
            r.wf(),
            r.timeout_ms == INITIAL_TIMEOUT_MS,
            r.attempt@ == 0,
    {
        BackoffState { timeout_ms: INITIAL_TIMEOUT_MS, attempt: Ghost(0) }
    }

    /// Doubles the timeout for the next attempt, or reports exhaustion:
    /// `None` exactly when the doubled timeout would exceed the 64000 ms
    /// ceiling, which happens only after the ninth attempt.
    pub fn advance(&self) -> (r: Option<BackoffState>)
        requires
            self.wf(),
        ensures
            match r {
                Some(s) => {
                    &&& s.wf()
                    &&& s.timeout_ms == 2 * self.timeout_ms
                    &&& s.timeout_ms <= MAX_TIMEOUT_MS
                    &&& s.attempt@ == self.attempt@ + 1
                },
                None => {
                    &&& 2 * self.timeout_ms > MAX_TIMEOUT_MS
                    &&& self.attempt@ == LAST_ATTEMPT
                },
            },
    {
        proof {
            lemma_timeout_ceiling(self.attempt@);
        }
        let doubled = self.timeout_ms * 2;
        if doubled <= MAX_TIMEOUT_MS {
            proof {
                lemma_timeout_ceiling(self.attempt@ + 1);
            }
            Some(BackoffState { timeout_ms: doubled, attempt: Ghost(self.attempt@ + 1) })
        } else {
            proof {
                if self.attempt@ < LAST_ATTEMPT {
                    lemma_timeout_ceiling(self.attempt@ + 1);
                    lemma_timeout_ceiling(LAST_ATTEMPT as nat);
                    lemma_timeout_at_monotonic(self.attempt@ + 1, LAST_ATTEMPT as nat);
                }
            }
            None
        }
    }
}

} // verus!
