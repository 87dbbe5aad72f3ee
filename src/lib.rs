//! Refresh-and-cache pipeline for short-lived bearer credentials.
//!
//! The decisions of the pipeline (when to refresh, how long to back off, which
//! cached credential to serve, what header to attach) are plain functions over
//! plain values; the network, the clock and the file cache stay with the caller.
mod backoff;
mod cache;
mod error;
mod keycloak;
mod middleware;
mod opts;
mod schedule;
mod token;
mod watcher;

pub use backoff::BackoffConfig;
pub use schedule::{refresh_at, Jitter};
pub use token::{is_success_status, FetchError, FetchErrorKind, Token, TokenLifetimeConfig, TokenResponse, DEFAULT_REFRESH_PERMILLE, PERMILLE};
pub use watcher::{last_success_index, read_view, last_success, RefreshAction, TokenWatcher, WatcherInitError, WatcherStopped};
pub use cache::{usable_ok, CachedTokenSource};
pub use middleware::{authorize, bearer, bearer_header, AuthDecision, MissingTokenPolicy};
pub use error::Error;
pub use keycloak::{
    lookup_url, single_match, user_subject, user_url, username_search_url, uuid_value, FindUserWays,
    SubjectError, UserMatchError,
};
pub use opts::{AuthOpts, ContentTypeEnum};
