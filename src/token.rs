use vstd::prelude::*;

verus! {

/// What went wrong while obtaining a token.
#[derive(Clone, Copy, Debug, PartialEq, Eq)]
pub enum FetchErrorKind {
    /// The token endpoint could not be reached.
    Network,
    /// The token endpoint answered with a non-success status.
    Status,
    /// The response body (or a cached file) could not be understood.
    MalformedBody,
    /// The credentials file is absent or unreadable.
    MissingCache,
}

/// A failed attempt to obtain a token, with a human-readable cause.
#[derive(Clone, Debug)]
pub struct FetchError {
    pub kind: FetchErrorKind,
    pub cause: String,
}

/// A credential value with an optional absolute expiry (Unix seconds).
#[derive(Clone, Debug)]
pub struct Token {
    pub value: String,
    pub expiry: Option<u64>,
}

impl View for Token {
    type V = (Seq<char>, Option<u64>);

    open spec fn view(&self) -> (Seq<char>, Option<u64>) {
        (self.value@, self.expiry)
    }
}

impl Token {
    /// A token can still be presented at `now` when it has no expiry or expires later.
    pub open spec fn usable_at(&self, now: int) -> bool {
        match self.expiry {
            None => true,
            Some(e) => now < e,
        }
    }

    pub fn new(value: String, expiry: Option<u64>) -> (r: Token)
        ensures
            r.value == value,
            r.expiry == expiry,
    {
        Token { value, expiry }
    }

    pub fn is_usable_at(&self, now: u64) -> (r: bool)
        ensures
            r == self.usable_at(now as int),
    {
        match self.expiry {
            None => true,
            Some(e) => now < e,
        }
    }

    /// An independent copy with the same value and expiry.
    pub fn duplicate(&self) -> (r: Token)
        ensures
            r@ == self@,
    {
        Token { value: self.value.clone(), expiry: self.expiry }
    }
}

/// Largest refresh ratio, in thousandths: a token refreshed at the end of its life.
pub const PERMILLE: u64 = 1000;

/// The ratio used by default: refresh once three quarters of the lifetime have passed.
pub const DEFAULT_REFRESH_PERMILLE: u64 = 750;

/// When to refresh a token, as a fraction of its lifetime, and the lifetime
/// assumed when the issuer declares none.
#[derive(Clone, Copy, Debug, PartialEq, Eq)]
pub struct TokenLifetimeConfig {
    /// Refresh ratio in thousandths, in `1..=1000`.
    pub refresh_permille: u64,
    /// Lifetime in seconds used when the issuer declares none.
    pub nominal_lifetime: u64,
}

impl TokenLifetimeConfig {
    pub open spec fn wf(&self) -> bool {
        0 < self.refresh_permille <= PERMILLE
    }

    /// The part of `lifetime` that passes before a refresh is due, rounded up
    /// to a whole second so that a refresh never falls on the fetch itself.
    pub open spec fn refresh_offset(&self, lifetime: int) -> int {
        (lifetime * self.refresh_permille + (PERMILLE - 1)) / (PERMILLE as int)
    }

    /// A configuration, or `None` when the ratio is outside `(0, 1]`.
    pub fn new(refresh_permille: u64, nominal_lifetime: u64) -> (r: Option<TokenLifetimeConfig>)
        ensures
            r is Some <==> 0 < refresh_permille <= PERMILLE,
            r matches Some(c) ==> c.wf() && c.refresh_permille == refresh_permille
                && c.nominal_lifetime == nominal_lifetime,
    {
        if 0 < refresh_permille && refresh_permille <= PERMILLE {
            Some(TokenLifetimeConfig { refresh_permille, nominal_lifetime })
        } else {
            None
        }
    }

    /// The configuration used by default, with the given nominal lifetime.
    pub fn with_default_ratio(nominal_lifetime: u64) -> (r: TokenLifetimeConfig)
        ensures
            r.wf(),
            r.refresh_permille == DEFAULT_REFRESH_PERMILLE,
            r.nominal_lifetime == nominal_lifetime,
    {
        TokenLifetimeConfig { refresh_permille: DEFAULT_REFRESH_PERMILLE, nominal_lifetime }
    }

    /// The lifetime a freshly issued token gets: the declared one, or the nominal one.
    pub open spec fn effective_lifetime(&self, declared: Option<u64>) -> int {
        match declared {
            Some(l) => l as int,
            None => self.nominal_lifetime as int,
        }
    }

    /// Builds the token that an issuer handed out at `fetch_time`.
    ///
    /// A token must expire strictly after it was fetched, so an effective
    /// lifetime of zero, or an expiry past the largest representable instant,
    /// is a malformed answer.
    pub fn issue(&self, value: String, fetch_time: u64, declared_lifetime: Option<u64>) -> (r:
        Result<Token, FetchError>)
        ensures
            r is Ok <==> 0 < self.effective_lifetime(declared_lifetime) && fetch_time
                + self.effective_lifetime(declared_lifetime) <= u64::MAX,
            r matches Ok(t) ==> t.value == value && t.expiry == Some(
                (fetch_time + self.effective_lifetime(declared_lifetime)) as u64,
            ),
            r matches Err(e) ==> e.kind == FetchErrorKind::MalformedBody,
    {
        let lifetime = match declared_lifetime {
            Some(l) => l,
            None => self.nominal_lifetime,
        };
        if lifetime == 0 {
            return Err(
                FetchError {
                    kind: FetchErrorKind::MalformedBody,
                    cause: String::from_str("token lifetime is zero"),
                },
            );
        }
        match fetch_time.checked_add(lifetime) {
            Some(expiry) => Ok(Token { value, expiry: Some(expiry) }),
            None => Err(
                FetchError {
                    kind: FetchErrorKind::MalformedBody,
                    cause: String::from_str("token expiry is out of range"),
                },
            ),
        }
    }
}

/// The answer of a token endpoint, as far as the pipeline reads it: the HTTP
/// status and, when the body could be decoded, the token value and the
/// lifetime the issuer declared.
pub struct TokenResponse {
    pub status: u16,
    pub body: Option<(String, Option<u64>)>,
}

/// A status in the success range `200..=299`.
pub open spec fn is_success_status(status: u16) -> bool {
    200 <= status <= 299
}

impl TokenLifetimeConfig {
    /// The outcome of a token request answered with `response` at `fetch_time`:
    /// a non-success status or an undecodable body is an error, else the token
    /// is issued as `issue` does.
    pub fn token_from_response(&self, response: TokenResponse, fetch_time: u64) -> (r: Result<
        Token,
        FetchError,
    >)
        ensures
            !is_success_status(response.status) ==> (r matches Err(e) && e.kind
                == FetchErrorKind::Status),
            is_success_status(response.status) && response.body is None ==> (r matches Err(e)
                && e.kind == FetchErrorKind::MalformedBody),
            is_success_status(response.status) ==> (response.body matches Some((v, l)) ==> {
                &&& (r is Ok <==> 0 < self.effective_lifetime(l) && fetch_time
                    + self.effective_lifetime(l) <= u64::MAX)
                &&& (r matches Ok(t) ==> t.value == v && t.expiry == Some(
                    (fetch_time + self.effective_lifetime(l)) as u64,
                ))
                &&& (r matches Err(e) ==> e.kind == FetchErrorKind::MalformedBody)
            }),
    {
        if response.status < 200 || response.status > 299 {
            return Err(
                FetchError {
                    kind: FetchErrorKind::Status,
                    cause: String::from_str("token endpoint answered with a failure status"),
                },
            );
        }
        match response.body {
            None => Err(
                FetchError {
                    kind: FetchErrorKind::MalformedBody,
                    cause: String::from_str("token response body is malformed"),
                },
            ),
            Some((value, lifetime)) => self.issue(value, fetch_time, lifetime),
        }
    }
}

} // verus!
