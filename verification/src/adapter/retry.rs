//! When to try again to open the database connection pool.
//!
//! Before the first attempt the caller waits one second. After a failed
//! attempt it waits and tries again, doubling the wait each time, for at
//! most three retries; a failure after the third retry gives up.

use vstd::prelude::*;
use vstd::arithmetic::power2::{lemma2_to64, pow2};

verus! {

/// How many times a failed attempt is retried.
pub const MAX_RETRIES: u32 = 3;

/// How the connection pool is built.
#[derive(Debug, Clone, Copy, PartialEq, Eq)]
pub struct PoolSettings {
    /// The most connections the pool holds.
    pub max_size: u32,
    /// Whether each connection is tested when it is taken from the pool.
    pub test_on_check_out: bool,
}

/// The pool's settings: at most 10 connections, each tested on checkout.
pub fn pool_settings() -> (s: PoolSettings)
    ensures
        s.max_size == 10,
        s.test_on_check_out,
{
    PoolSettings { max_size: 10, test_on_check_out: true }
}

/// How an attempt to open the pool went.
#[derive(Debug, Clone, Copy, PartialEq, Eq)]
pub enum Attempt {
    Succeeded,
    Failed,
}

/// What to do after an attempt.
#[derive(Debug, Clone, Copy, PartialEq, Eq)]
pub enum RetryAction {
    /// The pool is open: use it.
    Connected,
    /// Wait this many seconds, then try again.
    Wait(u64),
    /// Stop trying: opening the pool has failed for good.
    GiveUp,
}

/// The wait after the `failures`-th failed attempt (counting from 0), or
/// `None` where the retries are used up.
pub open spec fn wait_after_failure(failures: nat) -> Option<nat> {
    if failures < MAX_RETRIES {
        Some(pow2(failures))
    } else {
        None
    }
}

/// The state of the retry schedule: retries left and the current wait.
pub struct ConnectionRetry {
    retries_left: u32,
    delay_secs: u64,
}

impl ConnectionRetry {
    #[verifier::type_invariant]
    spec fn well_formed(self) -> bool {
        &&& self.retries_left <= MAX_RETRIES
        &&& self.delay_secs == pow2((MAX_RETRIES - self.retries_left) as nat)
    }

    /// How many failed attempts the schedule has answered with a wait.
    pub closed spec fn failures(&self) -> nat {
        (MAX_RETRIES - self.retries_left) as nat
    }

    /// A fresh schedule: no failure yet, a wait of one second.
    pub fn new() -> (r: Self)
        ensures
            r.failures() == 0,
    {
        proof {
            lemma2_to64();
        }
        ConnectionRetry { retries_left: MAX_RETRIES, delay_secs: 1 }
    }

    /// The current wait in seconds, `2^failures`: the wait before the first
    /// attempt on a fresh schedule.
    pub fn current_delay(&self) -> (r: u64)
        ensures
            r == pow2(self.failures()),
            self.failures() <= MAX_RETRIES,
    {
        proof {
            use_type_invariant(self);
        }
        self.delay_secs
    }

    /// Decides what follows an attempt. A success is used. A failure waits
    /// `2^k` seconds where it is the `k`-th failure and `k < 3`, and gives
    /// up after that.
    pub fn after_attempt(&mut self, outcome: Attempt) -> (r: RetryAction)
        ensures
            old(self).failures() <= MAX_RETRIES,
            final(self).failures() <= MAX_RETRIES,
            outcome == Attempt::Succeeded ==> r == RetryAction::Connected && final(self).failures()
                == old(self).failures(),
            outcome == Attempt::Failed ==> match wait_after_failure(old(self).failures()) {
                Some(w) => r == RetryAction::Wait(w as u64) && final(self).failures() == old(
                    self,
                ).failures() + 1,
                None => r == RetryAction::GiveUp && final(self).failures() == old(
                    self,
                ).failures(),
            },
    {
        proof {
            use_type_invariant(&*self);
            lemma2_to64();
        }
        match outcome {
            Attempt::Succeeded => RetryAction::Connected,
            Attempt::Failed => {
                if self.retries_left == 0 {
                    RetryAction::GiveUp
                } else {
                    let wait = self.delay_secs;
                    *self = ConnectionRetry {
                        retries_left: self.retries_left - 1,
                        delay_secs: self.delay_secs * 2,
                    };
                    RetryAction::Wait(wait)
                }
            },
        }
    }
}


/// Law: the first failure waits one second, each further wait is twice the
/// one before, and after three waits the schedule gives up for good.
pub proof fn lemma_waits_double_then_stop(k: nat)
    ensures
        wait_after_failure(0) == Some(1nat),
        k + 1 < MAX_RETRIES ==> (wait_after_failure(k) matches Some(w) && wait_after_failure(
            k + 1,
        ) == Some(2 * w)),
        k >= MAX_RETRIES ==> wait_after_failure(k) is None,
{
    lemma2_to64();
    if k + 1 < MAX_RETRIES {
        assert(k == 0 || k == 1);
    }
}

} // verus!
