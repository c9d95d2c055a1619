use crate::config::ClientSettings;
use vstd::arithmetic::power::lemma_pow0;
use vstd::arithmetic::power2::{lemma_pow2_pos, lemma_pow2_strictly_increases, lemma_pow2_unfold, pow2};
use vstd::prelude::*;

verus! {

/// The next thing a connecting client does.
#[derive(Clone, Copy, Debug, PartialEq, Eq)]
pub enum ConnectStep {
    /// Try to connect; this is attempt `number`, counting from one.
    Attempt { number: u32 },
    /// Stop: all `attempts` attempts failed.
    GiveUp { attempts: u32 },
}

/// The state of a client's connection attempts: how many failed so far and
/// how long to wait after the next failure, which doubles each time.
pub struct ConnectRetry {
    failures: u32,
    delay_secs: u64,
    initial_delay_secs: u64,
    max_retries: u32,
}

/// The state of a [`ConnectRetry`] as plain numbers.
pub struct ConnectRetryView {
    pub failures: u32,
    pub delay_secs: u64,
    pub initial_delay_secs: u64,
    pub max_retries: u32,
}

impl View for ConnectRetry {
    type V = ConnectRetryView;

    closed spec fn view(&self) -> ConnectRetryView {
        ConnectRetryView {
            failures: self.failures,
            delay_secs: self.delay_secs,
            initial_delay_secs: self.initial_delay_secs,
            max_retries: self.max_retries,
        }
    }
}

/// The step a client in state `r` takes next.
pub open spec fn next_step_spec(r: ConnectRetryView) -> ConnectStep {
    if r.failures < r.max_retries {
        ConnectStep::Attempt { number: (r.failures + 1) as u32 }
    } else {
        ConnectStep::GiveUp { attempts: r.max_retries }
    }
}

/// The seconds waited so far in state `r`: one wait per failed attempt,
/// the first wait doubling each time, `first * (2^failures - 1)` in all.
pub open spec fn total_wait(r: ConnectRetryView) -> int {
    r.initial_delay_secs * (pow2(r.failures as nat) - 1)
}

impl ConnectRetry {
    /// The schedule holds: no more failures than allowed attempts, and the
    /// wait doubled once per failure.
    pub closed spec fn wf(&self) -> bool {
        &&& self.failures <= self.max_retries
        &&& self.delay_secs == self.initial_delay_secs * pow2(self.failures as nat)
    }

    /// No attempt made yet, as `settings` say.
    pub fn new(settings: &ClientSettings) -> (r: ConnectRetry)
        ensures
            r.wf(),
            r@.failures == 0,
            r@.delay_secs == settings.initial_delay_secs,
            r@.initial_delay_secs == settings.initial_delay_secs,
            r@.max_retries == settings.max_retries,
            total_wait(r@) == 0,
    {
        proof {
            lemma_pow0(2);
            assert(pow2(0) == 1);
            assert(settings.initial_delay_secs * pow2(0) == settings.initial_delay_secs);
        }
        ConnectRetry {
            failures: 0,
            delay_secs: settings.initial_delay_secs,
            initial_delay_secs: settings.initial_delay_secs,
            max_retries: settings.max_retries,
        }
    }

    /// How many attempts failed so far.
    pub fn failures(&self) -> (n: u32)
        ensures
            n == self@.failures,
    {
        self.failures
    }

    /// How long to wait, in seconds, after the next failed attempt.
    pub fn delay_secs(&self) -> (secs: u64)
        ensures
            secs == self@.delay_secs,
    {
        self.delay_secs
    }

    /// Attempt again while fewer attempts than allowed have failed; else give
    /// up.
    pub fn next_step(&self) -> (step: ConnectStep)
        ensures
            step == next_step_spec(self@),
            match step {
                ConnectStep::Attempt { number } => {
                    &&& self@.failures < self@.max_retries
                    &&& number == self@.failures + 1
                    &&& 1 <= number <= self@.max_retries
                },
                ConnectStep::GiveUp { attempts } => {
                    &&& self@.failures >= self@.max_retries
                    &&& attempts == self@.max_retries
                },
            },
    {
        if self.failures < self.max_retries {
            ConnectStep::Attempt { number: self.failures + 1 }
        } else {
            ConnectStep::GiveUp { attempts: self.max_retries }
        }
    }

    /// Records a failed attempt. Returns how long to wait before the next one;
    /// the wait after that is twice as long.
    pub fn record_failure(&mut self) -> (wait_secs: u64)
        requires
            old(self).wf(),
            old(self)@.failures < old(self)@.max_retries,
            old(self)@.delay_secs * 2 <= u64::MAX,
        ensures
            final(self).wf(),
            wait_secs == old(self)@.delay_secs,
            final(self)@.failures == old(self)@.failures + 1,
            final(self)@.delay_secs == old(self)@.delay_secs * 2,
            final(self)@.initial_delay_secs == old(self)@.initial_delay_secs,
            final(self)@.max_retries == old(self)@.max_retries,
            total_wait(final(self)@) == total_wait(old(self)@) + wait_secs,
    {
        let wait = self.delay_secs;
        proof {
            let k = self.failures as nat;
            lemma_pow2_unfold(k + 1);
            let a = self.initial_delay_secs as int;
            let p = pow2(k) as int;
            assert(a * (2 * p - 1) == a * (p - 1) + a * p) by (nonlinear_arith);
            assert(self.initial_delay_secs * pow2(k + 1) == (self.initial_delay_secs * pow2(k)) * 2)
                by (nonlinear_arith)
                requires
                    pow2(k + 1) == 2 * pow2(k),
            ;
        }
        self.delay_secs = self.delay_secs * 2;
        self.failures = self.failures + 1;
        wait
    }
}

/// The retry schedule: after `k` failed attempts the next wait is the first
/// wait times `2^k`; no more than the allowed attempts are ever made; and
/// all waits together come to at most `first * (2^max_retries - 1)`
/// seconds.
pub proof fn lemma_backoff_schedule(r: &ConnectRetry)
    requires
        r.wf(),
    ensures
        r@.delay_secs == r@.initial_delay_secs * pow2(r@.failures as nat),
        r@.failures <= r@.max_retries,
        next_step_spec(r@) is GiveUp <==> r@.failures == r@.max_retries,
        0 <= total_wait(r@) <= r@.initial_delay_secs * (pow2(r@.max_retries as nat) - 1),
{
    let a = r@.initial_delay_secs as int;
    let p = pow2(r@.failures as nat) as int;
    let q = pow2(r@.max_retries as nat) as int;
    lemma_pow2_pos(r@.failures as nat);
    if r@.failures < r@.max_retries {
        lemma_pow2_strictly_increases(r@.failures as nat, r@.max_retries as nat);
    }
    assert(1 <= p <= q);
    assert(0 <= a * (p - 1) <= a * (q - 1)) by (nonlinear_arith)
        requires
            1 <= p <= q,
            0 <= a,
    ;
}

} // verus!
