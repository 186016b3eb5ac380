//! The retry policy around transport failures, and the supervisor that
//! restarts a stalled sync loop.

use vstd::prelude::*;

verus! {

/// Retries with a delay that doubles after each failure.
#[derive(Debug, Clone, Copy)]
pub struct RetryPolicy {
    pub max_retries: u32,
    pub retries: u32,
    pub delay: u64,
}

/// What to do after a transport failure.
#[derive(Debug, Clone, Copy, PartialEq, Eq, Structural)]
pub enum RetryDecision {
    /// Wait `delay` time units, then try again.
    Retry { delay: u64 },
    /// Hand the failure to the caller.
    GiveUp,
}

/// Twice `d`, held at `u64::MAX`.
pub open spec fn doubled(d: u64) -> u64 {
    if d > u64::MAX / 2 {
        u64::MAX
    } else {
        (d * 2) as u64
    }
}

impl RetryPolicy {
    /// Three retries, the first after one time unit.
    pub fn new() -> (r: RetryPolicy)
        ensures
            r.max_retries == 3,
            r.retries == 0,
            r.delay == 1,
    {
        RetryPolicy { max_retries: 3, retries: 0, delay: 1 }
    }

    /// A policy of `max_retries` retries, the first after `base_delay`.
    pub fn with_limits(max_retries: u32, base_delay: u64) -> (r: RetryPolicy)
        ensures
            r.max_retries == max_retries,
            r.retries == 0,
            r.delay == base_delay,
    {
        RetryPolicy { max_retries, retries: 0, delay: base_delay }
    }

    /// After a failure: give up once `max_retries` retries were made, else
    /// retry after the current delay and double it.
    pub fn on_failure(&mut self) -> (r: RetryDecision)
        ensures
            old(self).retries >= old(self).max_retries ==> r == RetryDecision::GiveUp
                && *final(self) == *old(self),
            old(self).retries < old(self).max_retries ==> {
                &&& r == (RetryDecision::Retry { delay: old(self).delay })
                &&& final(self).retries == old(self).retries + 1
                &&& final(self).delay == doubled(old(self).delay)
                &&& final(self).max_retries == old(self).max_retries
            },
    {
        if self.retries >= self.max_retries {
            return RetryDecision::GiveUp;
        }
        let delay = self.delay;
        self.retries = self.retries + 1;
        self.delay = if self.delay > u64::MAX / 2 {
            u64::MAX
        } else {
            self.delay * 2
        };
        RetryDecision::Retry { delay }
    }
}

/// Watches the sync loop's liveness signals.
#[derive(Debug, Clone, Copy)]
pub struct Supervisor {
    pub timeout: u64,
    pub last_signal: u64,
    pub generation: u64,
}

/// What the supervisor does at a tick.
#[derive(Debug, Clone, Copy, PartialEq, Eq, Structural)]
pub enum SupervisorAction {
    /// The loop is alive: keep waiting.
    Wait,
    /// No signal within the timeout: cancel the loop and start a new one on
    /// the same session.
    Restart,
}

impl Supervisor {
    /// A supervisor that started the first loop at `now`, with a 60-unit
    /// timeout.
    pub fn new(now: u64) -> (r: Supervisor)
        ensures
            r.timeout == 60,
            r.last_signal == now,
            r.generation == 0,
    {
        Supervisor { timeout: 60, last_signal: now, generation: 0 }
    }

    /// The loop completed a cycle at `now`.
    pub fn on_signal(&mut self, now: u64)
        ensures
            final(self).last_signal == now,
            final(self).timeout == old(self).timeout,
            final(self).generation == old(self).generation,
    {
        self.last_signal = now;
    }

    /// At time `now`: restart when `timeout` units or more passed since the
    /// last signal (or the start of the current loop), else wait. A restart
    /// counts a new generation and starts its wait at `now`.
    pub fn on_tick(&mut self, now: u64) -> (r: SupervisorAction)
        ensures
            now >= old(self).last_signal && now - old(self).last_signal >= old(self).timeout ==> {
                &&& r == SupervisorAction::Restart
                &&& final(self).last_signal == now
                &&& final(self).generation == (if old(self).generation == u64::MAX {
                    u64::MAX
                } else {
                    (old(self).generation + 1) as u64
                })
                &&& final(self).timeout == old(self).timeout
            },
            !(now >= old(self).last_signal && now - old(self).last_signal >= old(self).timeout)
                ==> r == SupervisorAction::Wait && *final(self) == *old(self),
    {
        if now >= self.last_signal && now - self.last_signal >= self.timeout {
            self.last_signal = now;
            if self.generation < u64::MAX {
                self.generation = self.generation + 1;
            }
            SupervisorAction::Restart
        } else {
            SupervisorAction::Wait
        }
    }
}

} // verus!
