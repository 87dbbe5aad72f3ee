use aliri_extra_reqwest::{
    authorize, bearer_header, refresh_at, AuthDecision, BackoffConfig, CachedTokenSource,
    FetchError, FetchErrorKind, Jitter, MissingTokenPolicy, RefreshAction, Token,
    TokenLifetimeConfig, TokenResponse, TokenWatcher, WatcherStopped,
};

fn token(value: &str, expiry: Option<u64>) -> Token {
    Token::new(value.to_string(), expiry)
}

fn failure(cause: &str) -> FetchError {
    FetchError { kind: FetchErrorKind::Network, cause: cause.to_string() }
}

fn ratio_075(lifetime: u64) -> TokenLifetimeConfig {
    TokenLifetimeConfig::new(750, lifetime).unwrap()
}

#[test]
fn issued_token_expires_after_declared_lifetime() {
    let config = ratio_075(300);
    let t = config.issue("abc".to_string(), 1000, Some(120)).unwrap();
    assert_eq!(t.value, "abc");
    assert_eq!(t.expiry, Some(1120));
    let t = config.issue("abc".to_string(), 1000, None).unwrap();
    assert_eq!(t.expiry, Some(1300));
}

#[test]
fn issue_rejects_zero_lifetime_and_overflow() {
    let config = ratio_075(0);
    let e = config.issue("abc".to_string(), 1000, None).unwrap_err();
    assert_eq!(e.kind, FetchErrorKind::MalformedBody);
    let e = ratio_075(10).issue("abc".to_string(), u64::MAX - 5, None).unwrap_err();
    assert_eq!(e.kind, FetchErrorKind::MalformedBody);
}

#[test]
fn lifetime_config_rejects_bad_ratio() {
    assert!(TokenLifetimeConfig::new(0, 300).is_none());
    assert!(TokenLifetimeConfig::new(1001, 300).is_none());
    assert!(TokenLifetimeConfig::new(1000, 300).is_some());
}

#[test]
fn refresh_scheduled_at_three_quarters_of_lifetime() {
    let config = ratio_075(300);
    let t = config.issue("abc".to_string(), 0, Some(300)).unwrap();
    assert_eq!(refresh_at(&config, &t, 0), 225);
    let (w, action) = TokenWatcher::spawn(
        Ok(t),
        0,
        0,
        config,
        BackoffConfig::default(),
        Jitter::Null,
    )
    .unwrap();
    assert_eq!(action, RefreshAction::RefreshAt(225));
    assert_eq!(w.failures, 0);
}

#[test]
fn refresh_without_expiry_uses_nominal_lifetime() {
    let config = ratio_075(400);
    assert_eq!(refresh_at(&config, &token("x", None), 100), 400);
    assert_eq!(refresh_at(&config, &token("x", Some(50)), 100), 100);
}

#[test]
fn refresh_never_falls_on_the_fetch_itself() {
    let config = ratio_075(300);
    assert_eq!(refresh_at(&config, &token("x", Some(101)), 100), 101);
    let tiny = TokenLifetimeConfig::new(1, 300).unwrap();
    assert_eq!(refresh_at(&tiny, &token("x", Some(999)), 0), 1);
    assert_eq!(refresh_at(&tiny, &token("x", Some(1000)), 0), 1);
    assert_eq!(refresh_at(&tiny, &token("x", Some(1001)), 0), 2);
}

#[test]
fn early_jitter_stays_in_window() {
    let j = Jitter::EarlyUpTo(30);
    assert_eq!(j.apply(1000, 0, 7), 993);
    assert_eq!(j.apply(1000, 0, 37), 993);
    assert_eq!(j.apply(1000, 995, 7), 1000);
    assert_eq!(Jitter::Null.apply(1000, 0, 7), 1000);
    assert_eq!(Jitter::EarlyUpTo(0).apply(1000, 0, 7), 1000);
}

#[test]
fn backoff_delays_grow_and_cap() {
    let b = BackoffConfig::new(1000, 30000, 2).unwrap();
    assert_eq!(b.next_delay(0), 0);
    assert_eq!(b.next_delay(1), 1000);
    assert_eq!(b.next_delay(2), 2000);
    assert_eq!(b.next_delay(5), 16000);
    assert_eq!(b.next_delay(6), 30000);
    assert_eq!(b.next_delay(1000), 30000);
    assert!(BackoffConfig::new(5, 4, 2).is_none());
    assert!(BackoffConfig::new(1, 4, 1).is_none());
    assert_eq!(BackoffConfig::no_delay().next_delay(7), 0);
    let d = BackoffConfig::default();
    assert_eq!((d.initial_ms, d.max_ms, d.multiplier), (100, 15000, 2));
}

#[test]
fn failing_first_fetch_starts_no_watcher() {
    let r = TokenWatcher::spawn(
        Err(failure("unreachable")),
        0,
        0,
        ratio_075(300),
        BackoffConfig::default(),
        Jitter::Null,
    );
    let e = r.unwrap_err();
    assert_eq!(e.cause.cause, "unreachable");
    assert_eq!(e.cause.kind, FetchErrorKind::Network);
}

#[test]
fn retries_back_off_then_refresh_resumes() {
    let backoff = BackoffConfig::new(1000, 30000, 2).unwrap();
    let config = ratio_075(300);
    let first = config.issue("abc".to_string(), 0, Some(300)).unwrap();
    let (mut w, _) = TokenWatcher::spawn(Ok(first), 0, 0, config, backoff, Jitter::Null).unwrap();
    assert_eq!(w.on_fetch(Err(failure("down")), 225, 0), RefreshAction::RetryAfterMs(1000));
    assert_eq!(w.on_fetch(Err(failure("down")), 226, 0), RefreshAction::RetryAfterMs(2000));
    let next = config.issue("def".to_string(), 228, Some(300)).unwrap();
    assert_eq!(w.on_fetch(Ok(next), 228, 0), RefreshAction::RefreshAt(453));
    assert_eq!(w.failures, 0);
    assert_eq!(w.on_fetch(Err(failure("down")), 453, 0), RefreshAction::RetryAfterMs(1000));
}

#[test]
fn latest_fetched_token_is_served() {
    let config = ratio_075(300);
    let (mut w, _) = TokenWatcher::spawn(
        Ok(token("one", Some(300))),
        0,
        0,
        config,
        BackoffConfig::default(),
        Jitter::Null,
    )
    .unwrap();
    w.on_fetch(Ok(token("two", Some(600))), 225, 0);
    let seen = w.current(230).unwrap().unwrap();
    assert_eq!(seen.value, "two");
    assert_eq!(seen.expiry, Some(600));
    w.on_fetch(Err(failure("down")), 450, 0);
    assert_eq!(w.current(460).unwrap().unwrap().value, "two");
    assert!(w.current(600).unwrap().is_none());
}

#[test]
fn repeated_reads_agree() {
    let (w, _) = TokenWatcher::spawn(
        Ok(token("abc", Some(300))),
        0,
        0,
        ratio_075(300),
        BackoffConfig::default(),
        Jitter::Null,
    )
    .unwrap();
    let a = w.current(10).unwrap().unwrap();
    let b = w.current(10).unwrap().unwrap();
    let c = w.current(200).unwrap().unwrap();
    assert_eq!((a.value.clone(), a.expiry), (b.value.clone(), b.expiry));
    assert_eq!((a.value, a.expiry), (c.value, c.expiry));
}

#[test]
fn stopped_watcher_refuses_reads_and_halts() {
    let (mut w, _) = TokenWatcher::spawn(
        Ok(token("abc", Some(300))),
        0,
        0,
        ratio_075(300),
        BackoffConfig::default(),
        Jitter::Null,
    )
    .unwrap();
    w.stop();
    assert_eq!(w.current(10).unwrap_err(), WatcherStopped);
    assert_eq!(w.on_fetch(Ok(token("new", Some(900))), 20, 0), RefreshAction::Halt);
    assert_eq!(w.current.value, "abc");
}

#[test]
fn cache_serves_fallback_when_primary_fails() {
    let source = CachedTokenSource::new().with_cache("file".to_string());
    assert_eq!(source.cache_names, vec!["file".to_string()]);
    let fallbacks = vec![Err(failure("no file")), Ok(token("cached", Some(500)))];
    let r = source.resolve(Err(failure("down")), &fallbacks, 100).unwrap();
    assert_eq!(r.value, "cached");
    assert_eq!(r.expiry, Some(500));
}

#[test]
fn cache_returns_primary_error_when_fallback_expired() {
    let source = CachedTokenSource::new().with_cache("file".to_string());
    let fallbacks = vec![Ok(token("stale", Some(50)))];
    let e = source.resolve(Err(failure("down")), &fallbacks, 100).unwrap_err();
    assert_eq!(e.cause, "down");
}

#[test]
fn cache_prefers_primary_and_writes_back() {
    let source = CachedTokenSource::new().with_cache("file".to_string());
    let fallbacks = vec![Ok(token("cached", Some(500)))];
    let primary = Ok(token("fresh", Some(900)));
    let two = source.clone().with_cache("memory".to_string());
    assert_eq!(two.write_back_targets(&primary), vec![0, 1]);
    assert_eq!(source.write_back_targets(&primary), vec![0]);
    assert!(two.write_back_targets(&Err(failure("down"))).is_empty());
    let r = source.resolve(primary, &fallbacks, 100).unwrap();
    assert_eq!(r.value, "fresh");
}

#[test]
fn middleware_attaches_bearer_only_to_matched_requests() {
    let current = Ok(Some(token("abc", Some(300))));
    assert_eq!(
        authorize(MissingTokenPolicy::SendWithout, true, &current),
        AuthDecision::Attach("Bearer abc".to_string())
    );
    assert_eq!(authorize(MissingTokenPolicy::SendWithout, false, &current), AuthDecision::PassThrough);
    assert_eq!(bearer_header(&token("xyz", None)), "Bearer xyz");
}

#[test]
fn middleware_without_token_follows_policy() {
    let none: Result<Option<Token>, WatcherStopped> = Ok(None);
    let stopped: Result<Option<Token>, WatcherStopped> = Err(WatcherStopped);
    assert_eq!(authorize(MissingTokenPolicy::SendWithout, true, &none), AuthDecision::PassThrough);
    assert_eq!(authorize(MissingTokenPolicy::FailFast, true, &none), AuthDecision::Reject);
    assert_eq!(authorize(MissingTokenPolicy::FailFast, true, &stopped), AuthDecision::Reject);
    assert_eq!(authorize(MissingTokenPolicy::FailFast, false, &stopped), AuthDecision::PassThrough);
}

#[test]
fn token_response_is_classified() {
    let config = ratio_075(300);
    let ok = TokenResponse { status: 200, body: Some(("abc".to_string(), Some(300))) };
    let t = config.token_from_response(ok, 10).unwrap();
    assert_eq!((t.value.as_str(), t.expiry), ("abc", Some(310)));
    let nominal = TokenResponse { status: 201, body: Some(("abc".to_string(), None)) };
    assert_eq!(config.token_from_response(nominal, 10).unwrap().expiry, Some(310));
    let denied = TokenResponse { status: 401, body: Some(("abc".to_string(), Some(300))) };
    assert_eq!(config.token_from_response(denied, 10).unwrap_err().kind, FetchErrorKind::Status);
    let garbled = TokenResponse { status: 200, body: None };
    assert_eq!(
        config.token_from_response(garbled, 10).unwrap_err().kind,
        FetchErrorKind::MalformedBody
    );
}
