//! The retry policy of the token exchange: how many attempts there are, and
//! how long to wait before each.
//!
//! Delays are whole milliseconds. The growth factor is held in thousandths,
//! so that 2000 doubles the delay and 1500 grows it by half; a product that
//! is not a whole number of milliseconds is rounded down.

use vstd::prelude::*;
use vstd::arithmetic::power::*;

verus! {

/// How the token exchange is retried.
#[derive(Clone, Copy, Debug, PartialEq, Eq, Structural)]
pub struct RetryConfig {
    /// Attempts that may follow the first one.
    pub max_retries: u32,
    /// The wait before the first retry, in milliseconds.
    pub initial_delay_ms: u64,
    /// The longest wait that the schedule reaches, in milliseconds.
    pub max_delay_ms: u64,
    /// The factor by which the wait grows from one retry to the next, in
    /// thousandths.
    pub multiplier_permille: u32,
}

impl Default for RetryConfig {
    /// Three retries, starting at 100 ms, doubling, up to 10 s.
    fn default() -> (r: Self)
        ensures
            r == (RetryConfig {
                max_retries: 3,
                initial_delay_ms: 100,
                max_delay_ms: 10_000,
                multiplier_permille: 2000,
            }),
    {
        RetryConfig {
            max_retries: 3,
            initial_delay_ms: 100,
            max_delay_ms: 10_000,
            multiplier_permille: 2000,
        }
    }
}

/// The smaller of two numbers.
pub open spec fn min_nat(a: nat, b: nat) -> nat {
    if a <= b {
        a
    } else {
        b
    }
}

/// The statuses after which the token exchange may be tried again: 429, 502,
/// 503 and 504.
pub open spec fn status_is_retryable(status: u16) -> bool {
    status == 429 || status == 502 || status == 503 || status == 504
}

/// The milliseconds that a `retry-after` of `seconds` asks for.
pub open spec fn retry_after_millis(seconds: u64) -> nat {
    (seconds * 1000) as nat
}

impl RetryConfig {
    /// The wait that follows a wait of `delay` milliseconds: `delay` times
    /// the factor, rounded down, and at most `max_delay_ms`.
    pub open spec fn advanced(self, delay: nat) -> nat {
        min_nat(self.max_delay_ms as nat, delay * (self.multiplier_permille as nat) / 1000)
    }

    /// The wait before attempt `attempt` (1 is the first retry) where the
    /// server never asked for a wait of its own.
    pub open spec fn scheduled(self, attempt: nat) -> nat
        decreases attempt,
    {
        if attempt <= 1 {
            min_nat(self.max_delay_ms as nat, self.initial_delay_ms as nat)
        } else {
            self.advanced(self.scheduled((attempt - 1) as nat))
        }
    }

    /// The wait before attempt `attempt`: what the server asked for, if it
    /// did, and else what the schedule gives.
    pub open spec fn wait(self, attempt: nat, retry_after: Option<u64>) -> nat {
        match retry_after {
            Some(seconds) => retry_after_millis(seconds),
            None => self.scheduled(attempt),
        }
    }

    /// The wait before the first retry.
    pub fn first_delay(&self) -> (r: u64)
        ensures
            r == self.scheduled(1),
    {
        if self.initial_delay_ms <= self.max_delay_ms {
            self.initial_delay_ms
        } else {
            self.max_delay_ms
        }
    }

    /// The wait that follows a wait of `delay_ms`.
    pub fn advance(&self, delay_ms: u128) -> (r: u64)
        ensures
            r == self.advanced(delay_ms as nat),
    {
        let factor: u128 = self.multiplier_permille as u128;
        let cap: u128 = self.max_delay_ms as u128;
        if delay_ms <= 0xffff_ffff_ffff_ffff_ffff_ffff {
            assert(delay_ms * factor <= 0xffff_ffff_ffff_ffff_ffff_ffff * 0xffff_ffff) by (nonlinear_arith)
                requires
                    delay_ms <= 0xffff_ffff_ffff_ffff_ffff_ffff,
                    factor <= 0xffff_ffff,
            ;
            let grown: u128 = delay_ms * factor / 1000;
            if grown < cap {
                grown as u64
            } else {
                self.max_delay_ms
            }
        } else if factor == 0 {
            assert(delay_ms * factor == 0) by (nonlinear_arith)
                requires
                    factor == 0,
            ;
            0
        } else {
            assert(delay_ms * factor >= 0x1_0000_0000_0000_0000_0000_0000) by (nonlinear_arith)
                requires
                    delay_ms >= 0x1_0000_0000_0000_0000_0000_0000,
                    factor >= 1,
            ;
            self.max_delay_ms
        }
    }

    /// The wait before attempt `attempt` on the schedule.
    pub fn scheduled_delay(&self, attempt: u32) -> (r: u64)
        ensures
            r == self.scheduled(attempt as nat),
    {
        let mut delay = self.first_delay();
        let mut k: u32 = 1;
        while k < attempt
            invariant
                1 <= k,
                k <= attempt || k == 1,
                delay == self.scheduled(k as nat),
            decreases attempt - k,
        {
            delay = self.advance(delay as u128);
            k += 1;
        }
        assert(self.scheduled(0) == self.scheduled(1));
        delay
    }

    /// The wait before attempt `attempt`: `retry_after` seconds where the
    /// server named them, and else the scheduled wait. What the server asks
    /// for is taken as it is, also where it is more than `max_delay_ms`.
    pub fn delay_before(&self, attempt: u32, retry_after: Option<u64>) -> (r: u128)
        ensures
            r == self.wait(attempt as nat, retry_after),
    {
        match retry_after {
            Some(seconds) => (seconds as u128) * 1000,
            None => self.scheduled_delay(attempt) as u128,
        }
    }

    /// Whether another attempt may follow attempt `attempt` (0 is the first).
    pub fn allows_retry(&self, attempt: u32) -> (r: bool)
        ensures
            r == (attempt < self.max_retries),
    {
        attempt < self.max_retries
    }

    /// No scheduled wait is longer than `max_delay_ms`.
    pub proof fn lemma_scheduled_is_capped(self, attempt: nat)
        ensures
            self.scheduled(attempt) <= self.max_delay_ms,
        decreases attempt,
    {
        if attempt > 1 {
            self.lemma_scheduled_is_capped((attempt - 1) as nat);
        }
    }

    /// With a factor of at least one, the scheduled waits never shrink from
    /// one attempt to a later one.
    pub proof fn lemma_scheduled_never_shrinks(self, earlier: nat, later: nat)
        requires
            self.multiplier_permille >= 1000,
            1 <= earlier <= later,
        ensures
            self.scheduled(earlier) <= self.scheduled(later),
        decreases later - earlier,
    {
        if earlier < later {
            self.lemma_scheduled_never_shrinks(earlier, (later - 1) as nat);
            self.lemma_scheduled_is_capped((later - 1) as nat);
            let d = self.scheduled((later - 1) as nat);
            let f = self.multiplier_permille as nat;
            assert(d * f / 1000 >= d) by (nonlinear_arith)
                requires
                    f >= 1000,
            ;
        }
    }

    /// With a whole factor `m`, the scheduled wait before attempt `attempt`
    /// is `initial_delay_ms * m^(attempt - 1)`, or `max_delay_ms` where that
    /// is less.
    pub proof fn lemma_scheduled_closed_form(self, m: nat, attempt: nat)
        requires
            self.multiplier_permille == 1000 * m,
            attempt >= 1,
        ensures
            self.scheduled(attempt) == min_nat(
                self.max_delay_ms as nat,
                (self.initial_delay_ms * pow(m as int, (attempt - 1) as nat)) as nat,
            ),
        decreases attempt,
    {
        let cap = self.max_delay_ms as nat;
        let first = self.initial_delay_ms as nat;
        if attempt == 1 {
            lemma_pow0(m as int);
        } else {
            let e = (attempt - 2) as nat;
            self.lemma_scheduled_closed_form(m, (attempt - 1) as nat);
            lemma_pow_not_negative(m, e);
            let x = (first * pow(m as int, e)) as nat;
            assert(first * pow(m as int, e) >= 0) by (nonlinear_arith)
                requires
                    first >= 0,
                    pow(m as int, e) >= 0,
            ;
            let previous = self.scheduled((attempt - 1) as nat);
            assert(previous == min_nat(cap, x));
            let f = self.multiplier_permille as nat;
            assert(previous * f / 1000 == previous * m) by (nonlinear_arith)
                requires
                    f == 1000 * m,
            ;
            assert(pow(m as int, (attempt - 1) as nat) == m * pow(m as int, e)) by {
                reveal(pow);
            }
            assert(first * pow(m as int, (attempt - 1) as nat) == x * m) by (nonlinear_arith)
                requires
                    pow(m as int, (attempt - 1) as nat) == m * pow(m as int, e),
                    x == first * pow(m as int, e),
            ;
            if x > cap {
                assert(x * m >= cap * m) by (nonlinear_arith)
                    requires
                        x > cap,
                ;
                if m >= 1 {
                    assert(cap * m >= cap) by (nonlinear_arith)
                        requires
                            m >= 1,
                    ;
                } else {
                    assert(cap * m == 0 && x * m == 0) by (nonlinear_arith)
                        requires
                            m == 0,
                    ;
                }
            }
        }
    }
}

/// A power of a natural number is not negative.
proof fn lemma_pow_not_negative(b: nat, e: nat)
    ensures
        pow(b as int, e) >= 0,
    decreases e,
{
    reveal(pow);
    if e > 0 {
        lemma_pow_not_negative(b, (e - 1) as nat);
        assert(b * pow(b as int, (e - 1) as nat) >= 0) by (nonlinear_arith)
            requires
                pow(b as int, (e - 1) as nat) >= 0,
        ;
    }
}

/// Tells whether the token exchange may be tried again after `status`.
pub fn is_retryable_status(status: u16) -> (r: bool)
    ensures
        r == status_is_retryable(status),
{
    status == 429 || status == 502 || status == 503 || status == 504
}

} // verus!
