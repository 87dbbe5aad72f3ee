use vstd::prelude::*;
use crate::backoff::BackoffConfig;
use crate::schedule::{refresh_at, refresh_target, Jitter};
use crate::token::{FetchError, Token, TokenLifetimeConfig};

verus! {

/// The mandatory first fetch failed, so no watcher was started.
#[derive(Clone, Debug)]
pub struct WatcherInitError {
    pub cause: FetchError,
}

/// The watcher has been stopped and serves no more tokens.
#[derive(Clone, Copy, Debug, PartialEq, Eq)]
pub struct WatcherStopped;

/// What the refresh loop is to do next.
#[derive(Clone, Copy, Debug, PartialEq, Eq)]
pub enum RefreshAction {
    /// Sleep until the given instant (Unix seconds), then fetch.
    RefreshAt(u64),
    /// Sleep for the given number of milliseconds, then fetch again.
    RetryAfterMs(u64),
    /// The watcher is stopped: leave the loop.
    Halt,
}

/// The state of a token watcher: the token it serves and how it schedules the
/// next fetch. The refresh loop feeds every fetch outcome to `on_fetch` and
/// performs the action it returns; readers call `current`.
#[derive(Clone, Debug)]
pub struct TokenWatcher {
    /// The token installed by the latest successful fetch.
    pub current: Token,
    /// When `current` was fetched (Unix seconds).
    pub fetched_at: u64,
    /// Consecutive failed fetches since the latest success.
    pub failures: u64,
    pub stopped: bool,
    pub lifetime: TokenLifetimeConfig,
    pub backoff: BackoffConfig,
    pub jitter: Jitter,
}

/// What a read of the watcher gives, with the token seen through its view.
pub open spec fn read_view(r: Result<Option<Token>, WatcherStopped>) -> Result<
    Option<(Seq<char>, Option<u64>)>,
    WatcherStopped,
> {
    match r {
        Ok(Some(t)) => Ok(Some(t@)),
        Ok(None) => Ok(None),
        Err(e) => Err(e),
    }
}

/// `n + 1`, held at the largest `u64`.
pub open spec fn saturating_inc(n: u64) -> u64 {
    if n < u64::MAX {
        (n + 1) as u64
    } else {
        n
    }
}

impl TokenWatcher {
    pub open spec fn wf(&self) -> bool {
        self.lifetime.wf() && self.backoff.wf()
    }

    /// The instant at which the current token is next refreshed.
    pub open spec fn scheduled_refresh(&self, now: int, draw: int) -> int {
        self.jitter.jittered(refresh_target(self.lifetime, self.current, self.fetched_at as int), now, draw)
    }

    /// The state after a fetch attempt at `now` had `result`.
    pub open spec fn after_fetch(self, result: Result<Token, FetchError>, now: u64) -> TokenWatcher {
        if self.stopped {
            self
        } else {
            match result {
                Ok(t) => TokenWatcher { current: t, fetched_at: now, failures: 0, ..self },
                Err(_) => TokenWatcher { failures: saturating_inc(self.failures), ..self },
            }
        }
    }

    /// What the loop does after a fetch attempt at `now` had `result`.
    pub open spec fn action_after(
        self,
        result: Result<Token, FetchError>,
        now: u64,
        draw: u64,
    ) -> RefreshAction {
        let next = self.after_fetch(result, now);
        if self.stopped {
            RefreshAction::Halt
        } else {
            match result {
                Ok(_) => RefreshAction::RefreshAt(next.scheduled_refresh(now as int, draw as int) as u64),
                Err(_) => RefreshAction::RetryAfterMs(self.backoff.delay_for(next.failures as nat) as u64),
            }
        }
    }

    /// The state after a series of fetch attempts, each with its instant.
    pub open spec fn after_fetches(self, attempts: Seq<(Result<Token, FetchError>, u64)>) -> TokenWatcher
        decreases attempts.len(),
    {
        if attempts.len() == 0 {
            self
        } else {
            let last = attempts.last();
            self.after_fetches(attempts.drop_last()).after_fetch(last.0, last.1)
        }
    }

    /// What a read at `now` gives: nothing once stopped, no token once the
    /// installed one has expired, else the installed token.
    pub open spec fn read(&self, now: int) -> Result<Option<(Seq<char>, Option<u64>)>, WatcherStopped> {
        if self.stopped {
            Err(WatcherStopped)
        } else if self.current.usable_at(now) {
            Ok(Some(self.current@))
        } else {
            Ok(None)
        }
    }

    /// Starts a watcher from the outcome of the mandatory first fetch, made at
    /// `now`, and says when to refresh. A failed first fetch starts nothing.
    pub fn spawn(
        first: Result<Token, FetchError>,
        now: u64,
        draw: u64,
        lifetime: TokenLifetimeConfig,
        backoff: BackoffConfig,
        jitter: Jitter,
    ) -> (r: Result<(TokenWatcher, RefreshAction), WatcherInitError>)
        requires
            lifetime.wf(),
            backoff.wf(),
        ensures
            r is Ok <==> first is Ok,
            first matches Err(e) ==> (r matches Err(ie) && ie.cause == e),
            first matches Ok(t) ==> (r matches Ok((w, a)) && w.wf() && w.current == t
                && w.fetched_at == now && w.failures == 0 && !w.stopped && w.lifetime == lifetime
                && w.backoff == backoff && w.jitter == jitter
                && a == RefreshAction::RefreshAt(w.scheduled_refresh(now as int, draw as int) as u64)),
    {
        match first {
            Err(cause) => Err(WatcherInitError { cause }),
            Ok(token) => {
                let w = TokenWatcher {
                    current: token,
                    fetched_at: now,
                    failures: 0,
                    stopped: false,
                    lifetime,
                    backoff,
                    jitter,
                };
                let a = w.next_refresh(now, draw);
                Ok((w, a))
            },
        }
    }

    fn next_refresh(&self, now: u64, draw: u64) -> (r: RefreshAction)
        requires
            self.wf(),
        ensures
            r == RefreshAction::RefreshAt(self.scheduled_refresh(now as int, draw as int) as u64),
    {
        let target = refresh_at(&self.lifetime, &self.current, self.fetched_at);
        RefreshAction::RefreshAt(self.jitter.apply(target, now, draw))
    }

    /// Records the outcome of a fetch attempt made at `now` and says what to do next.
    pub fn on_fetch(&mut self, result: Result<Token, FetchError>, now: u64, draw: u64) -> (r:
        RefreshAction)
        requires
            old(self).wf(),
        ensures
            *final(self) == old(self).after_fetch(result, now),
            r == old(self).action_after(result, now, draw),
            final(self).wf(),
    {
        if self.stopped {
            return RefreshAction::Halt;
        }
        match result {
            Ok(token) => {
                self.current = token;
                self.fetched_at = now;
                self.failures = 0;
                self.next_refresh(now, draw)
            },
            Err(_) => {
                if self.failures < u64::MAX {
                    self.failures = self.failures + 1;
                }
                proof {
                    assert(self.backoff.delay_for(self.failures as nat) <= self.backoff.max_ms);
                }
                RefreshAction::RetryAfterMs(self.backoff.next_delay(self.failures))
            },
        }
    }

    /// The token to present now, without waiting on any refresh.
    pub fn current(&self, now: u64) -> (r: Result<Option<Token>, WatcherStopped>)
        ensures
            read_view(r) == self.read(now as int),
    {
        if self.stopped {
            Err(WatcherStopped)
        } else if self.current.is_usable_at(now) {
            Ok(Some(self.current.duplicate()))
        } else {
            Ok(None)
        }
    }

    /// Stops the watcher: later reads fail and the loop halts.
    pub fn stop(&mut self)
        ensures
            *final(self) == (TokenWatcher { stopped: true, ..*old(self) }),
    {
        self.stopped = true;
    }
}

/// The token installed by the latest successful attempt of a series, if any.
pub open spec fn last_success(attempts: Seq<(Result<Token, FetchError>, u64)>) -> Option<Token>
    decreases attempts.len(),
{
    if attempts.len() == 0 {
        None
    } else {
        match attempts.last().0 {
            Ok(t) => Some(t),
            Err(_) => last_success(attempts.drop_last()),
        }
    }
}

/// After any series of fetch attempts on a running watcher, a read returns the
/// token of the latest successful attempt (failed attempts leave the previous
/// token in place) as long as that token has not expired.
pub proof fn lemma_latest_fetch_visible(
    w: TokenWatcher,
    attempts: Seq<(Result<Token, FetchError>, u64)>,
    now: int,
)
    requires
        !w.stopped,
    ensures
        !w.after_fetches(attempts).stopped,
        w.after_fetches(attempts).backoff == w.backoff,
        w.after_fetches(attempts).lifetime == w.lifetime,
        w.after_fetches(attempts).jitter == w.jitter,
        w.after_fetches(attempts).current == (match last_success(attempts) {
            Some(t) => t,
            None => w.current,
        }),
        last_success(attempts) matches Some(t) ==> (t.usable_at(now) ==> w.after_fetches(
            attempts,
        ).read(now) == Ok::<Option<(Seq<char>, Option<u64>)>, WatcherStopped>(Some(t@))),
    decreases attempts.len(),
{
    if attempts.len() > 0 {
        lemma_latest_fetch_visible(w, attempts.drop_last(), now);
    }
}

/// Reads between two refreshes agree: at any two instants at which the
/// installed token is still usable, a read gives the same value and expiry.
pub proof fn lemma_reads_stable_between_refreshes(w: TokenWatcher, now1: int, now2: int)
    requires
        w.current.usable_at(now1),
        w.current.usable_at(now2),
    ensures
        w.read(now1) == w.read(now2),
{
}

/// The refresh scheduled for a token that expires at `E`, fetched at `F < E`,
/// targets `F + r * (E - F)`; the jittered instant lies at or before `E`, and
/// within the jitter window of the target.
pub proof fn lemma_refresh_before_expiry(w: TokenWatcher, now: int, draw: int)
    requires
        w.wf(),
        w.current.expiry matches Some(e) && w.fetched_at < e,
    ensures
        ({
            let e = w.current.expiry.unwrap() as int;
            let target = refresh_target(w.lifetime, w.current, w.fetched_at as int);
            &&& target == w.fetched_at + w.lifetime.refresh_offset(e - w.fetched_at)
            &&& w.fetched_at < target <= e
            &&& w.scheduled_refresh(now, draw) <= target
            &&& (w.jitter matches Jitter::EarlyUpTo(m) ==> (m > 0 ==> target - m
                < w.scheduled_refresh(now, draw)))
            &&& (w.jitter == Jitter::Null ==> w.scheduled_refresh(now, draw) == target)
        }),
{
    let e = w.current.expiry.unwrap() as int;
    crate::schedule::lemma_offset_bounds(w.lifetime, e - w.fetched_at);
    let target = refresh_target(w.lifetime, w.current, w.fetched_at as int);
    if let Jitter::EarlyUpTo(m) = w.jitter {
        if m > 0 {
            assert(0 <= draw % (m as int) < m);
        }
    }
}

/// After `n` consecutive failed attempts following a success (or the start),
/// the `n`-th retry waits `next_delay(n)`; a single success in between resets
/// the count, so the failure after it waits `next_delay(1)` again.
pub proof fn lemma_backoff_follows_failures(
    w: TokenWatcher,
    failures: Seq<(Result<Token, FetchError>, u64)>,
    failed: FetchError,
    now: u64,
    draw: u64,
    token: Token,
    later: u64,
)
    requires
        w.wf(),
        !w.stopped,
        w.failures == 0,
        forall|i: int| 0 <= i < failures.len() ==> (#[trigger] failures[i]).0 is Err,
        failures.len() + 1 < u64::MAX,
    ensures
        w.after_fetches(failures).failures == failures.len(),
        w.after_fetches(failures).action_after(Err(failed), now, draw)
            == RefreshAction::RetryAfterMs(w.backoff.delay_for((failures.len() + 1) as nat) as u64),
        w.after_fetches(failures).after_fetch(Ok(token), now).action_after(Err(failed), later, draw)
            == RefreshAction::RetryAfterMs(w.backoff.delay_for(1) as u64),
    decreases failures.len(),
{
    if failures.len() > 0 {
        let prefix = failures.drop_last();
        assert forall|i: int| 0 <= i < prefix.len() implies (#[trigger] prefix[i]).0 is Err by {
            assert(prefix[i] == failures[i]);
        }
        lemma_backoff_follows_failures(w, prefix, failed, now, draw, token, later);
    }
    lemma_latest_fetch_visible(w, failures, now as int);
}

/// The position of the latest successful attempt of a series, or `-1` when none succeeded.
pub open spec fn last_success_index(attempts: Seq<(Result<Token, FetchError>, u64)>) -> int
    decreases attempts.len(),
{
    if attempts.len() == 0 {
        -1
    } else if attempts.last().0 is Ok {
        attempts.len() - 1
    } else {
        last_success_index(attempts.drop_last())
    }
}

proof fn lemma_last_success_index_bounds(
    w: TokenWatcher,
    attempts: Seq<(Result<Token, FetchError>, u64)>,
)
    requires
        !w.stopped,
    ensures
        -1 <= last_success_index(attempts) < attempts.len(),
        last_success_index(attempts) >= 0 ==> attempts[last_success_index(attempts)].0 is Ok
            && w.after_fetches(attempts).current == attempts[last_success_index(attempts)].0->Ok_0,
        last_success_index(attempts) == -1 ==> w.after_fetches(attempts).current == w.current,
    decreases attempts.len(),
{
    if attempts.len() > 0 {
        let prefix = attempts.drop_last();
        lemma_last_success_index_bounds(w, prefix);
        lemma_latest_fetch_visible(w, prefix, 0);
        if !(attempts.last().0 is Ok) {
            let k = last_success_index(prefix);
            if k >= 0 {
                assert(prefix[k] == attempts[k]);
            }
        }
    }
}

proof fn lemma_last_success_index_monotone(
    attempts: Seq<(Result<Token, FetchError>, u64)>,
    k1: int,
    k2: int,
)
    requires
        0 <= k1 <= k2 <= attempts.len(),
    ensures
        last_success_index(attempts.take(k1)) <= last_success_index(attempts.take(k2)),
    decreases k2 - k1,
{
    if k1 < k2 {
        lemma_last_success_index_monotone(attempts, k1, k2 - 1);
        let t = attempts.take(k2);
        assert(t.drop_last() =~= attempts.take(k2 - 1));
        if !(t.last().0 is Ok) {
        } else {
            assert(last_success_index(t) == k2 - 1);
            assert(last_success_index(attempts.take(k2 - 1)) < k2 - 1) by {
                lemma_index_below_len(attempts.take(k2 - 1));
            }
        }
    }
}

proof fn lemma_index_below_len(attempts: Seq<(Result<Token, FetchError>, u64)>)
    ensures
        -1 <= last_success_index(attempts) < attempts.len(),
    decreases attempts.len(),
{
    if attempts.len() > 0 {
        lemma_index_below_len(attempts.drop_last());
    }
}

/// Reads follow the order of the fetches: after the first `k` attempts of a
/// series, the installed token is the one fetched by the latest successful
/// attempt among them, and a later read (after `k2 >= k1` attempts) never
/// shows a token fetched before the one an earlier read (after `k1`) showed.
pub proof fn lemma_reads_follow_fetch_order(
    w: TokenWatcher,
    attempts: Seq<(Result<Token, FetchError>, u64)>,
    k1: int,
    k2: int,
)
    requires
        !w.stopped,
        0 <= k1 <= k2 <= attempts.len(),
    ensures
        last_success_index(attempts.take(k1)) <= last_success_index(attempts.take(k2)),
        last_success_index(attempts.take(k2)) < k2,
        last_success_index(attempts.take(k2)) >= 0 ==> w.after_fetches(attempts.take(k2)).current
            == attempts[last_success_index(attempts.take(k2))].0->Ok_0,
        last_success_index(attempts.take(k1)) >= 0 ==> w.after_fetches(attempts.take(k1)).current
            == attempts[last_success_index(attempts.take(k1))].0->Ok_0,
{
    lemma_last_success_index_monotone(attempts, k1, k2);
    lemma_last_success_index_bounds(w, attempts.take(k1));
    lemma_last_success_index_bounds(w, attempts.take(k2));
    let i1 = last_success_index(attempts.take(k1));
    let i2 = last_success_index(attempts.take(k2));
    if i1 >= 0 {
        assert(attempts.take(k1)[i1] == attempts[i1]);
    }
    if i2 >= 0 {
        assert(attempts.take(k2)[i2] == attempts[i2]);
    }
}

} // verus!
