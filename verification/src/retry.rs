//! Bounded retry with exponential backoff for establishing a connection.
//!
//! The policy says how many attempts may be made and how long to wait before
//! each retry. `Connecting` keeps count of the failed attempts and decides,
//! after each failure, between one more attempt and giving up.

use crate::error::{ConnectionCause, Error};
use vstd::arithmetic::power::pow;
use vstd::prelude::*;

verus! {

/// How often, and after which delays, a connection is attempted.
#[derive(Clone, Copy, Debug, PartialEq, Eq, Structural)]
pub struct RetryPolicy {
    /// The delay before the first retry, in milliseconds.
    pub base_delay_ms: u64,
    /// The factor by which the delay grows from one retry to the next.
    pub multiplier: u32,
    /// The longest delay before any retry, in milliseconds.
    pub max_delay_ms: u64,
    /// The number of attempts after which the connection is given up.
    pub max_attempts: u32,
}

/// What to do next while a connection is being established.
#[derive(Debug, PartialEq, Eq)]
pub enum ConnectStep {
    /// Wait for `after_ms` milliseconds, then attempt to connect.
    Attempt { after_ms: u64 },
    /// Make no further attempt; the connection has failed with `error`.
    GiveUp { error: Error },
}

impl RetryPolicy {
    /// The delay before retry number `retry`, counted from 0: the base delay
    /// times the multiplier to the power of `retry`, and no more than the
    /// longest delay.
    pub open spec fn backoff(self, retry: nat) -> nat {
        let grown = self.base_delay_ms * pow(self.multiplier as int, retry);
        if grown <= self.max_delay_ms {
            grown as nat
        } else {
            self.max_delay_ms as nat
        }
    }

    /// The step that follows `failures` failed attempts in a row: the first
    /// attempt at once, each retry after its backoff, and no attempt once
    /// `max_attempts` have failed.
    pub open spec fn step_after(self, failures: nat) -> ConnectStep {
        if failures >= self.max_attempts {
            ConnectStep::GiveUp {
                error: Error::Connection {
                    cause: ConnectionCause::RetriesExhausted { attempts: self.max_attempts },
                },
            }
        } else if failures == 0 {
            ConnectStep::Attempt { after_ms: 0 }
        } else {
            ConnectStep::Attempt { after_ms: self.backoff((failures - 1) as nat) as u64 }
        }
    }

    /// Six attempts, the first retry after one second, each further retry
    /// after twice the delay of the one before.
    pub fn standard() -> (policy: RetryPolicy)
        ensures
            policy == (RetryPolicy {
                base_delay_ms: 1000,
                multiplier: 2,
                max_delay_ms: u64::MAX,
                max_attempts: 6,
            }),
    {
        RetryPolicy { base_delay_ms: 1000, multiplier: 2, max_delay_ms: u64::MAX, max_attempts: 6 }
    }

    /// The delay before retry number `retry`, in milliseconds.
    pub fn delay_ms(&self, retry: u32) -> (delay: u64)
        ensures
            delay == self.backoff(retry as nat),
    {
        let cap = self.max_delay_ms;
        let factor = self.multiplier as u64;
        let mut delay: u64 = if self.base_delay_ms <= cap {
            self.base_delay_ms
        } else {
            cap
        };
        let ghost mut grown: int = self.base_delay_ms as int;
        let mut done: u32 = 0;
        proof {
            vstd::arithmetic::power::lemma_pow0(self.multiplier as int);
        }
        while done < retry && 0 < delay && factor != 1 && (delay < cap || factor == 0)
            invariant
                done <= retry,
                cap == self.max_delay_ms,
                factor == self.multiplier,
                grown == self.base_delay_ms * pow(self.multiplier as int, done as nat),
                grown >= 0,
                delay == if grown <= cap {
                    grown
                } else {
                    cap as int
                },
            decreases retry - done,
        {
            let ghost next = grown * factor;
            proof {
                let m = self.multiplier as int;
                let p = pow(m, done as nat);
                assert(pow(m, (done + 1) as nat) == m * p) by {
                    reveal(pow);
                }
                assert(self.base_delay_ms * (m * p) == (self.base_delay_ms * p) * m)
                    by (nonlinear_arith);
                assert(next >= 0) by (nonlinear_arith)
                    requires
                        next == grown * factor,
                        grown >= 0,
                        factor >= 0,
                ;
                if factor == 0 {
                    assert(next == 0 && delay * factor == 0) by (nonlinear_arith)
                        requires
                            next == grown * factor,
                            factor == 0,
                    ;
                } else {
                    assert(grown == delay);
                }
            }
            delay = match delay.checked_mul(factor) {
                Some(product) => if product <= cap {
                    product
                } else {
                    cap
                },
                None => cap,
            };
            proof {
                grown = next;
            }
            done += 1;
        }
        proof {
            lemma_backoff_settles(*self, done as nat, retry as nat);
        }
        delay
    }
}

/// Under a multiplier of one, or once the delay has fallen to nothing, or
/// has reached the longest delay under a multiplier of at least one, the
/// delay stays where it is.
proof fn lemma_backoff_settles(policy: RetryPolicy, done: nat, retry: nat)
    requires
        done <= retry,
        done < retry ==> policy.backoff(done) == 0 || policy.multiplier == 1 || (policy.backoff(
            done,
        ) == policy.max_delay_ms && policy.multiplier >= 1),
    ensures
        policy.backoff(retry) == policy.backoff(done),
{
    if done < retry {
        let m = policy.multiplier as int;
        let base = policy.base_delay_ms as int;
        let cap = policy.max_delay_ms as int;
        let early = pow(m, done);
        let rest = pow(m, (retry - done) as nat);
        vstd::arithmetic::power::lemma_pow_adds(m, done, (retry - done) as nat);
        assert(done + (retry - done) as nat == retry);
        assert(base * (early * rest) == (base * early) * rest) by (nonlinear_arith);
        lemma_pow_is_not_negative(policy.multiplier, done);
        lemma_pow_is_not_negative(policy.multiplier, (retry - done) as nat);
        assert(base * early >= 0) by (nonlinear_arith)
            requires
                base >= 0,
                early >= 0,
        ;
        if base * early == 0 {
            assert((base * early) * rest == 0) by (nonlinear_arith)
                requires
                    base * early == 0,
            ;
        } else if m == 1 {
            vstd::arithmetic::power::lemma1_pow((retry - done) as nat);
            assert((base * early) * 1 == base * early);
        } else if cap == 0 {
            assert((base * early) * rest >= 0) by (nonlinear_arith)
                requires
                    base * early >= 0,
                    rest >= 0,
            ;
        } else {
            vstd::arithmetic::power::lemma_pow_positive(m, (retry - done) as nat);
            assert((base * early) * rest >= base * early) by (nonlinear_arith)
                requires
                    base * early >= 0,
                    rest >= 1,
            ;
        }
    }
}

/// No power of a multiplier is negative.
proof fn lemma_pow_is_not_negative(multiplier: u32, exponent: nat)
    ensures
        pow(multiplier as int, exponent) >= 0,
{
    let m = multiplier as int;
    if m > 0 {
        vstd::arithmetic::power::lemma_pow_positive(m, exponent);
    } else if exponent == 0 {
        vstd::arithmetic::power::lemma_pow0(m);
    } else {
        vstd::arithmetic::power::lemma0_pow(exponent);
    }
}

/// The progress of establishing one connection.
#[derive(Debug)]
pub struct Connecting {
    policy: RetryPolicy,
    failures: u32,
}

impl Connecting {
    #[verifier::type_invariant]
    spec fn well_formed(self) -> bool {
        self.failures <= self.policy.max_attempts
    }

    /// The policy under which the connection is attempted.
    pub closed spec fn policy(&self) -> RetryPolicy {
        self.policy
    }

    /// The number of attempts that have failed so far.
    pub closed spec fn failures(&self) -> nat {
        self.failures as nat
    }

    /// The step that is due now.
    pub open spec fn due(&self) -> ConnectStep {
        self.policy().step_after(self.failures())
    }

    /// The number of attempts that the policy allows.
    pub fn max_attempts(&self) -> (n: u32)
        ensures
            n == self.policy().max_attempts,
    {
        self.policy.max_attempts
    }

    /// Begins to connect under `policy`: no attempt has failed yet.
    pub fn new(policy: RetryPolicy) -> (out: Connecting)
        ensures
            out.policy() == policy,
            out.failures() == 0,
    {
        Connecting { policy, failures: 0 }
    }

    /// The step that is due now.
    pub fn step(&self) -> (step: ConnectStep)
        ensures
            step == self.due(),
    {
        proof {
            use_type_invariant(self);
        }
        if self.failures >= self.policy.max_attempts {
            ConnectStep::GiveUp {
                error: Error::Connection {
                    cause: ConnectionCause::RetriesExhausted { attempts: self.policy.max_attempts },
                },
            }
        } else if self.failures == 0 {
            ConnectStep::Attempt { after_ms: 0 }
        } else {
            ConnectStep::Attempt { after_ms: self.policy.delay_ms(self.failures - 1) }
        }
    }

    /// Records that the attempt just made has failed, and says what to do
    /// next: one more attempt after the backoff, or to give up once the
    /// policy's attempts are used up.
    pub fn attempt_failed(&mut self) -> (step: ConnectStep)
        ensures
            final(self).policy() == old(self).policy(),
            final(self).failures() == if old(self).failures() < old(self).policy().max_attempts {
                old(self).failures() + 1
            } else {
                old(self).failures()
            },
            step == final(self).due(),
    {
        proof {
            use_type_invariant(&*self);
        }
        if self.failures < self.policy.max_attempts {
            self.failures = self.failures + 1;
        }
        self.step()
    }
}

/// An endpoint that never accepts a connection is given up after
/// `max_attempts` attempts: after that many failures the step is to give up
/// with a connection error, and it stays so however many failures follow.
pub proof fn lemma_attempts_are_bounded(policy: RetryPolicy, failures: nat)
    requires
        failures >= policy.max_attempts,
    ensures
        policy.step_after(failures) == (ConnectStep::GiveUp {
            error: Error::Connection {
                cause: ConnectionCause::RetriesExhausted { attempts: policy.max_attempts },
            },
        }),
{
}

/// No backoff exceeds the policy's longest delay.
pub proof fn lemma_backoff_is_bounded(policy: RetryPolicy, retry: nat)
    ensures
        policy.backoff(retry) <= policy.max_delay_ms,
{
    let p = pow(policy.multiplier as int, retry);
    lemma_pow_is_not_negative(policy.multiplier, retry);
    assert(policy.base_delay_ms * p >= 0) by (nonlinear_arith)
        requires
            policy.base_delay_ms >= 0,
            p >= 0,
    ;
}

/// The time that the first `retries` retries wait in all, in milliseconds.
pub open spec fn total_wait(policy: RetryPolicy, retries: nat) -> nat
    decreases retries,
{
    if retries == 0 {
        0
    } else {
        total_wait(policy, (retries - 1) as nat) + policy.backoff((retries - 1) as nat)
    }
}

/// The retries of one connection wait no longer in all than their number
/// times the policy's longest delay.
pub proof fn lemma_total_wait_is_bounded(policy: RetryPolicy, retries: nat)
    ensures
        total_wait(policy, retries) <= retries * policy.max_delay_ms,
    decreases retries,
{
    if retries > 0 {
        lemma_total_wait_is_bounded(policy, (retries - 1) as nat);
        lemma_backoff_is_bounded(policy, (retries - 1) as nat);
        assert((retries - 1) * policy.max_delay_ms + policy.max_delay_ms == retries
            * policy.max_delay_ms) by (nonlinear_arith);
    }
}

/// Before the attempts are used up, each failure is followed by one more
/// attempt, after a delay that never exceeds the policy's longest delay.
pub proof fn lemma_retry_delay_is_bounded(policy: RetryPolicy, failures: nat)
    requires
        failures < policy.max_attempts,
    ensures
        policy.step_after(failures) matches ConnectStep::Attempt { after_ms }
            && after_ms <= policy.max_delay_ms,
{
    if failures > 0 {
        lemma_backoff_is_bounded(policy, (failures - 1) as nat);
    }
}

} // verus!
