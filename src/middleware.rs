use vstd::prelude::*;
use crate::token::Token;
use crate::watcher::WatcherStopped;

verus! {

/// What to do with an approved request when no usable token is available.
#[derive(Clone, Copy, Debug, PartialEq, Eq)]
pub enum MissingTokenPolicy {
    /// Send the request without credentials.
    SendWithout,
    /// Fail the request before it is sent.
    FailFast,
}

/// What happens to an outgoing request.
#[derive(Clone, Debug, PartialEq, Eq)]
pub enum AuthDecision {
    /// Send it unmodified.
    PassThrough,
    /// Send it with this value in its `Authorization` header.
    Attach(String),
    /// Do not send it: no usable credential.
    Reject,
}

/// The `Authorization` header value for a credential: `Bearer <value>`.
pub open spec fn bearer(value: Seq<char>) -> Seq<char> {
    seq!['B', 'e', 'a', 'r', 'e', 'r', ' '] + value
}

/// The `Authorization` header value that presents `token`.
pub fn bearer_header(token: &Token) -> (r: String)
    ensures
        r@ == bearer(token.value@),
{
    proof {
        reveal_strlit("Bearer ");
    }
    let mut header = String::from_str("Bearer ");
    header.append(token.value.as_str());
    header
}

/// Decides how an outgoing request is sent. `accepted` is the verdict of the
/// caller's predicate on the request; `current` is a read of the watcher.
pub fn authorize(
    policy: MissingTokenPolicy,
    accepted: bool,
    current: &Result<Option<Token>, WatcherStopped>,
) -> (r: AuthDecision)
    ensures
        !accepted ==> r == AuthDecision::PassThrough,
        accepted ==> match current {
            Ok(Some(t)) => r matches AuthDecision::Attach(h) && h@ == bearer(t.value@),
            _ => r == (match policy {
                MissingTokenPolicy::SendWithout => AuthDecision::PassThrough,
                MissingTokenPolicy::FailFast => AuthDecision::Reject,
            }),
        },
{
    if !accepted {
        return AuthDecision::PassThrough;
    }
    match current {
        Ok(Some(t)) => AuthDecision::Attach(bearer_header(t)),
        _ => match policy {
            MissingTokenPolicy::SendWithout => AuthDecision::PassThrough,
            MissingTokenPolicy::FailFast => AuthDecision::Reject,
        },
    }
}

} // verus!
