//! The policy by which a failing clone is tried again.

use vstd::prelude::*;

verus! {

/// How often a failing clone is tried again, and how long to wait before
/// each attempt.
pub struct RetryPolicy {
    max_attempts: u32,
    base_backoff_secs: u32,
}

impl RetryPolicy {
    /// A policy allows at least one attempt.
    #[verifier::type_invariant]
    pub closed spec fn wf(self) -> bool {
        self.max_attempts >= 1
    }

    /// The number of attempts on one mirror.
    pub closed spec fn attempts(self) -> nat {
        self.max_attempts as nat
    }

    /// The seconds from which the waits are counted.
    pub closed spec fn backoff(self) -> nat {
        self.base_backoff_secs as nat
    }

    /// A policy has between one and `u32::MAX` attempts, and its base wait
    /// is at most `u32::MAX` seconds.
    pub proof fn lemma_bounds(self)
        requires
            self.wf(),
        ensures
            1 <= self.attempts() <= u32::MAX,
            self.backoff() <= u32::MAX,
    {
    }

    /// A policy of `max_attempts` attempts for each mirror and a wait that
    /// grows by `base_backoff_secs` with each attempt. `None` where
    /// `max_attempts` is zero.
    pub fn new(max_attempts: u32, base_backoff_secs: u32) -> (r: Option<RetryPolicy>)
        ensures
            r is Some <==> max_attempts >= 1,
            r matches Some(p) ==> p.wf() && p.attempts() == max_attempts && p.backoff()
                == base_backoff_secs,
    {
        if max_attempts == 0 {
            None
        } else {
            Some(RetryPolicy { max_attempts, base_backoff_secs })
        }
    }

    /// Three attempts for each mirror, counted from two seconds.
    pub fn standard() -> (r: RetryPolicy)
        ensures
            r.wf(),
            r.attempts() == 3,
            r.backoff() == 2,
    {
        RetryPolicy { max_attempts: 3, base_backoff_secs: 2 }
    }

    /// The number of attempts on one mirror.
    pub fn max_attempts(&self) -> (r: u32)
        ensures
            r == self.attempts(),
            r >= 1,
    {
        proof {
            use_type_invariant(self);
        }
        self.max_attempts
    }

    /// The seconds from which the waits are counted.
    pub fn base_backoff_secs(&self) -> (r: u32)
        ensures
            r == self.backoff(),
    {
        self.base_backoff_secs
    }

    /// The seconds to wait before attempt number `attempt`, counted from 1:
    /// the base wait times the number of the attempt.
    pub open spec fn delay(self, attempt: nat) -> nat {
        attempt * self.backoff()
    }

    /// The seconds to wait before attempt number `attempt`.
    pub fn delay_before(&self, attempt: u32) -> (r: u64)
        ensures
            r == self.delay(attempt as nat),
    {
        let a: u64 = attempt as u64;
        let b: u64 = self.base_backoff_secs as u64;
        assert(a * b <= 0xffff_ffff * 0xffff_ffff) by (nonlinear_arith)
            requires
                0 <= a <= 0xffff_ffff,
                0 <= b <= 0xffff_ffff,
        ;
        a * b
    }
}

} // verus!
