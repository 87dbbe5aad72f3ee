use vstd::prelude::*;

verus! {

/// `base` raised to `exp`.
pub open spec fn pow(base: nat, exp: nat) -> nat
    decreases exp,
{
    if exp == 0 {
        1
    } else {
        base * pow(base, (exp - 1) as nat)
    }
}

/// How long to wait before retrying after consecutive failed fetches.
#[derive(Clone, Copy, Debug, PartialEq, Eq)]
pub struct BackoffConfig {
    /// Delay after the first failure, in milliseconds.
    pub initial_ms: u64,
    /// Cap on any delay, in milliseconds.
    pub max_ms: u64,
    /// Growth factor between consecutive delays.
    pub multiplier: u64,
}

pub open spec fn min_int(a: int, b: int) -> int {
    if a <= b {
        a
    } else {
        b
    }
}

proof fn lemma_capped_step(a: int, m: int, cap: int)
    requires
        a >= 0,
        m >= 1,
        cap >= 0,
    ensures
        min_int(min_int(a, cap) * m, cap) == min_int(a * m, cap),
{
    if a >= cap {
        assert(a * m >= cap * m) by (nonlinear_arith)
            requires
                a >= cap,
                m >= 1,
                cap >= 0,
        ;
        assert(cap * m >= cap) by (nonlinear_arith)
            requires
                m >= 1,
                cap >= 0,
        ;
    }
}

proof fn lemma_pow_positive(b: nat, e: nat)
    requires
        b >= 1,
    ensures
        pow(b, e) >= 1,
    decreases e,
{
    if e > 0 {
        lemma_pow_positive(b, (e - 1) as nat);
        assert(b * pow(b, (e - 1) as nat) >= 1) by (nonlinear_arith)
            requires
                b >= 1,
                pow(b, (e - 1) as nat) >= 1,
        ;
    }
}

impl BackoffConfig {
    pub open spec fn wf(&self) -> bool {
        self.initial_ms <= self.max_ms && self.multiplier > 1
    }

    /// `min(initial * multiplier^(failures - 1), max)`, and no delay before any failure.
    pub open spec fn delay_for(&self, failures: nat) -> nat {
        if failures == 0 {
            0
        } else {
            min_int(
                self.initial_ms * pow(self.multiplier as nat, (failures - 1) as nat),
                self.max_ms as int,
            ) as nat
        }
    }

    /// A configuration, or `None` when `initial > max` or `multiplier <= 1`.
    pub fn new(initial_ms: u64, max_ms: u64, multiplier: u64) -> (r: Option<BackoffConfig>)
        ensures
            r is Some <==> initial_ms <= max_ms && multiplier > 1,
            r matches Some(c) ==> c.wf() && c.initial_ms == initial_ms && c.max_ms == max_ms
                && c.multiplier == multiplier,
    {
        if initial_ms <= max_ms && multiplier > 1 {
            Some(BackoffConfig { initial_ms, max_ms, multiplier })
        } else {
            None
        }
    }

    /// A policy that never waits: every retry is immediate.
    pub fn no_delay() -> (r: BackoffConfig)
        ensures
            r.wf(),
            forall|n: nat| r.delay_for(n) == 0,
    {
        let r = BackoffConfig { initial_ms: 0, max_ms: 0, multiplier: 2 };
        assert forall|n: nat| r.delay_for(n) == 0 by {
            if n > 0 {
                lemma_pow_positive(2, (n - 1) as nat);
                assert(0 * pow(2, (n - 1) as nat) == 0);
            }
        }
        r
    }

    /// The delay before the retry that follows `failures` consecutive failures.
    pub fn next_delay(&self, failures: u64) -> (r: u64)
        requires
            self.wf(),
        ensures
            r == self.delay_for(failures as nat),
    {
        if failures == 0 {
            return 0;
        }
        let mut delay: u64 = self.initial_ms;
        let mut step: u64 = 1;
        assert(pow(self.multiplier as nat, 0) == 1) by {
            reveal_with_fuel(pow, 1);
        }
        assert(self.initial_ms * 1 == self.initial_ms);
        while step < failures
            invariant
                self.wf(),
                1 <= step <= failures,
                delay <= self.max_ms,
                delay == self.delay_for(step as nat),
            decreases failures - step,
        {
            let m = self.multiplier;
            let cap = self.max_ms;
            let next: u64 = if delay > cap / m {
                assert(delay * m > cap) by (nonlinear_arith)
                    requires
                        delay > cap / m,
                        m > 1,
                ;
                cap
            } else {
                assert(delay * m <= cap) by (nonlinear_arith)
                    requires
                        delay <= cap / m,
                        m > 1,
                ;
                delay * m
            };
            proof {
                let p = pow(m as nat, (step - 1) as nat);
                lemma_capped_step(self.initial_ms * p, m as int, cap as int);
                assert(pow(m as nat, step as nat) == m * p);
                assert((self.initial_ms * p) * m == self.initial_ms * (m * p)) by (nonlinear_arith);
            }
            delay = next;
            step = step + 1;
        }
        delay
    }
}

impl Default for BackoffConfig {
    /// 100 ms after the first failure, doubling up to 15 s.
    fn default() -> (r: BackoffConfig)
        ensures
            r.wf(),
            r.initial_ms == 100,
            r.max_ms == 15000,
            r.multiplier == 2,
    {
        BackoffConfig { initial_ms: 100, max_ms: 15000, multiplier: 2 }
    }
}

} // verus!
