use vstd::prelude::*;
use crate::token::{Token, TokenLifetimeConfig, PERMILLE};

verus! {

/// The instant, in Unix seconds, at which a token fetched at `fetch_time` is due
/// for refresh: the configured fraction of its remaining lifetime after the fetch,
/// at once when it has already expired, and after the configured fraction of the
/// nominal lifetime when it carries no expiry.
pub open spec fn refresh_target(config: TokenLifetimeConfig, token: Token, fetch_time: int) -> int {
    match token.expiry {
        Some(e) => if e > fetch_time {
            fetch_time + config.refresh_offset(e - fetch_time)
        } else {
            fetch_time
        },
        None => min_u64(fetch_time + config.refresh_offset(config.nominal_lifetime as int)),
    }
}

/// `x` held to the largest representable instant.
pub open spec fn min_u64(x: int) -> int {
    if x <= u64::MAX {
        x
    } else {
        u64::MAX as int
    }
}

pub(crate) proof fn lemma_offset_bounds(config: TokenLifetimeConfig, lifetime: int)
    requires
        config.wf(),
        0 <= lifetime <= u64::MAX,
    ensures
        0 <= config.refresh_offset(lifetime) <= lifetime,
        lifetime > 0 ==> 1 <= config.refresh_offset(lifetime),
        lifetime * config.refresh_permille <= u64::MAX * 1000,
{
    let p = config.refresh_permille as int;
    assert(lifetime * p <= lifetime * 1000) by (nonlinear_arith)
        requires
            lifetime >= 0,
            p <= 1000,
    ;
    assert(lifetime * 1000 <= u64::MAX * 1000) by (nonlinear_arith)
        requires
            lifetime <= u64::MAX,
    ;
    assert(0 <= lifetime * p) by (nonlinear_arith)
        requires
            lifetime >= 0,
            p >= 0,
    ;
    assert((lifetime * p + 999) / 1000 <= lifetime) by (nonlinear_arith)
        requires
            lifetime * p <= lifetime * 1000,
            0 <= lifetime * p,
    ;
    if lifetime > 0 {
        assert(lifetime * p >= 1) by (nonlinear_arith)
            requires
                lifetime >= 1,
                p >= 1,
        ;
    }
}

/// When to fetch again after `token` was fetched at `fetch_time`.
pub fn refresh_at(config: &TokenLifetimeConfig, token: &Token, fetch_time: u64) -> (r: u64)
    requires
        config.wf(),
    ensures
        r == refresh_target(*config, *token, fetch_time as int),
        fetch_time <= r,
        token.expiry matches Some(e) ==> (fetch_time < e ==> fetch_time < r <= e),
{
    match token.expiry {
        Some(e) => if e > fetch_time {
            let lifetime: u128 = (e - fetch_time) as u128;
            proof {
                lemma_offset_bounds(*config, lifetime as int);
            }
            let offset: u128 = (lifetime * (config.refresh_permille as u128) + (PERMILLE - 1) as u128)
                / (PERMILLE as u128);
            fetch_time + offset as u64
        } else {
            fetch_time
        },
        None => {
            let lifetime: u128 = config.nominal_lifetime as u128;
            proof {
                lemma_offset_bounds(*config, lifetime as int);
            }
            let offset: u128 = (lifetime * (config.refresh_permille as u128) + (PERMILLE - 1) as u128)
                / (PERMILLE as u128);
            let target: u128 = fetch_time as u128 + offset;
            if target <= u64::MAX as u128 {
                target as u64
            } else {
                u64::MAX
            }
        },
    }
}

/// How a scheduled refresh instant is perturbed so that many clients do not
/// refresh in lockstep.
#[derive(Clone, Copy, Debug, PartialEq, Eq)]
pub enum Jitter {
    /// The instant is kept as it is.
    Null,
    /// The instant is moved earlier by less than the given number of seconds.
    EarlyUpTo(u64),
}

impl Jitter {
    /// The perturbed instant for `time`, given the current instant `now` and a
    /// random `draw`. An early jitter moves `time` back by `draw % max`, unless
    /// that would leave no time before the refresh while `time` itself is still
    /// ahead: then `time` is kept.
    pub open spec fn jittered(self, time: int, now: int, draw: int) -> int {
        match self {
            Jitter::Null => time,
            Jitter::EarlyUpTo(max) => if max == 0 {
                time
            } else if draw % (max as int) < time - now {
                time - draw % (max as int)
            } else {
                time
            },
        }
    }

    pub fn apply(&self, time: u64, now: u64, draw: u64) -> (r: u64)
        ensures
            r == self.jittered(time as int, now as int, draw as int),
            r <= time,
            *self matches Jitter::EarlyUpTo(max) ==> time < r + max || max == 0,
            now < time ==> now < r,
    {
        match *self {
            Jitter::Null => time,
            Jitter::EarlyUpTo(max) => {
                if max == 0 {
                    time
                } else {
                    let offset = draw % max;
                    if now < time && offset < time - now {
                        time - offset
                    } else {
                        time
                    }
                }
            },
        }
    }
}

} // verus!
