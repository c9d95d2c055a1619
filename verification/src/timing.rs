use vstd::prelude::*;

verus! {

/// The shortest time between two connection checks, in nanoseconds: one
/// second.
pub const CHECK_INTERVAL_NANOS: u128 = 1_000_000_000;

/// Lets a periodic check run at most once per [`CHECK_INTERVAL_NANOS`],
/// measured on the game clock from its start.
pub struct CheckThrottle {
    last_check_nanos: u128,
}

/// Whether a check is due at `now`, the last one having run at `last`.
pub open spec fn check_due(last: u128, now: u128) -> bool {
    now >= last + CHECK_INTERVAL_NANOS
}

impl View for CheckThrottle {
    type V = u128;

    /// When the last check ran (the start of the game if none has).
    closed spec fn view(&self) -> u128 {
        self.last_check_nanos
    }
}

impl CheckThrottle {
    /// No check has run yet; the first is due one interval after the start.
    pub fn new() -> (t: CheckThrottle)
        ensures
            t@ == 0,
    {
        CheckThrottle { last_check_nanos: 0 }
    }

    /// When the last check ran.
    pub fn last_check_nanos(&self) -> (last: u128)
        ensures
            last == self@,
    {
        self.last_check_nanos
    }

    /// Whether a check runs at `now`: if one is due, it is recorded as run at
    /// `now`; otherwise nothing changes.
    pub fn begin_check(&mut self, now_nanos: u128) -> (run: bool)
        ensures
            run == check_due(old(self)@, now_nanos),
            run == (now_nanos >= old(self)@ + 1_000_000_000),
            final(self)@ == if run {
                now_nanos
            } else {
                old(self)@
            },
    {
        if now_nanos >= self.last_check_nanos && now_nanos - self.last_check_nanos
            >= CHECK_INTERVAL_NANOS {
            self.last_check_nanos = now_nanos;
            true
        } else {
            false
        }
    }

    /// The periodic connection check: a client reconnects when a check is due
    /// and it is not connected.
    pub fn should_reconnect(&mut self, now_nanos: u128, connected: bool) -> (reconnect: bool)
        ensures
            reconnect == (check_due(old(self)@, now_nanos) && !connected),
            final(self)@ == if check_due(old(self)@, now_nanos) {
                now_nanos
            } else {
                old(self)@
            },
    {
        let run = self.begin_check(now_nanos);
        run && !connected
    }
}

/// Reconnects after transport errors, at most one round per second: errors
/// that arrive while no check is due are kept until the next due check.
pub struct ErrorReconnect {
    throttle: CheckThrottle,
    pending_errors: u64,
}

/// The state of an [`ErrorReconnect`]: when the last check ran, and how
/// many errors wait for it.
pub struct ErrorReconnectView {
    pub last_check_nanos: u128,
    pub pending_errors: u64,
}

impl View for ErrorReconnect {
    type V = ErrorReconnectView;

    closed spec fn view(&self) -> ErrorReconnectView {
        ErrorReconnectView {
            last_check_nanos: self.throttle@,
            pending_errors: self.pending_errors,
        }
    }
}

impl ErrorReconnect {
    /// No check has run and no error is pending.
    pub fn new() -> (r: ErrorReconnect)
        ensures
            r@.last_check_nanos == 0,
            r@.pending_errors == 0,
    {
        ErrorReconnect { throttle: CheckThrottle::new(), pending_errors: 0 }
    }

    /// How many errors wait for the next due check.
    pub fn pending_errors(&self) -> (n: u64)
        ensures
            n == self@.pending_errors,
    {
        self.pending_errors
    }

    /// One update at `now_nanos` during which `new_errors` transport errors
    /// arrived. When a check is due, one reconnect is made for each error
    /// pending or new, and none stays pending; otherwise the new errors are
    /// kept. No error is lost: what is pending afterwards and the reconnects
    /// made add up to what was pending and what arrived.
    pub fn on_update(&mut self, now_nanos: u128, new_errors: u64) -> (reconnects: u64)
        requires
            old(self)@.pending_errors + new_errors <= u64::MAX,
        ensures
            check_due(old(self)@.last_check_nanos, now_nanos) ==> {
                &&& reconnects == old(self)@.pending_errors + new_errors
                &&& final(self)@.pending_errors == 0
                &&& final(self)@.last_check_nanos == now_nanos
            },
            !check_due(old(self)@.last_check_nanos, now_nanos) ==> {
                &&& reconnects == 0
                &&& final(self)@.pending_errors == old(self)@.pending_errors + new_errors
                &&& final(self)@.last_check_nanos == old(self)@.last_check_nanos
            },
            final(self)@.pending_errors + reconnects == old(self)@.pending_errors + new_errors,
    {
        let pending = self.pending_errors + new_errors;
        if self.throttle.begin_check(now_nanos) {
            self.pending_errors = 0;
            pending
        } else {
            self.pending_errors = pending;
            0
        }
    }
}

/// A check is due exactly when a full second has passed since the last one:
/// at any time at least a second later, and at no time earlier.
pub proof fn lemma_check_due_after_a_second(last: u128, now: u128)
    ensures
        now >= last + 1_000_000_000 ==> check_due(last, now),
        now < last + 1_000_000_000 ==> !check_due(last, now),
{
}

/// Two checks that both run are at least one interval apart: after a check
/// at `first`, no check runs before `first + CHECK_INTERVAL_NANOS`.
pub proof fn lemma_checks_spaced(last: u128, first: u128, second: u128)
    requires
        check_due(last, first),
        check_due(first, second),
    ensures
        second >= first + CHECK_INTERVAL_NANOS,
        second >= last + 2 * CHECK_INTERVAL_NANOS,
{
}

} // verus!
