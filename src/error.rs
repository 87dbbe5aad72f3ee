use vstd::prelude::*;
use crate::watcher::WatcherInitError;

verus! {

/// Why an authenticated client could not be built.
#[derive(Clone, Debug, PartialEq, Eq)]
pub enum Error {
    /// The HTTP client could not be built.
    BuildingClient(String),
    /// The token watcher could not be started.
    BuildingTokenWatcher(String),
}

pub open spec fn building_client_prefix() -> Seq<char> {
    seq![
        'E', 'r', 'r', 'o', 'r', ' ', 'b', 'u', 'i', 'l', 'd', 'i', 'n', 'g', ' ', 'c', 'l', 'i',
        'e', 'n', 't', ':', ' ',
    ]
}

pub open spec fn building_watcher_prefix() -> Seq<char> {
    seq![
        'E', 'r', 'r', 'o', 'r', ' ', 'b', 'u', 'i', 'l', 'd', 'i', 'n', 'g', ' ', 't', 'o', 'k',
        'e', 'n', ' ', 'w', 'a', 't', 'c', 'h', 'e', 'r', ':', ' ',
    ]
}

impl Error {
    /// The human-readable description of the error.
    pub open spec fn message_spec(&self) -> Seq<char> {
        match self {
            Error::BuildingClient(s) => building_client_prefix() + s@,
            Error::BuildingTokenWatcher(s) => building_watcher_prefix() + s@,
        }
    }

    pub fn message(&self) -> (r: String)
        ensures
            r@ == self.message_spec(),
    {
        match self {
            Error::BuildingClient(s) => {
                proof {
                    reveal_strlit("Error building client: ");
                }
                let mut m = String::from_str("Error building client: ");
                m.append(s.as_str());
                m
            },
            Error::BuildingTokenWatcher(s) => {
                proof {
                    reveal_strlit("Error building token watcher: ");
                }
                let mut m = String::from_str("Error building token watcher: ");
                m.append(s.as_str());
                m
            },
        }
    }

    /// The error for a watcher whose first fetch failed, carrying the fetch's cause.
    pub fn from_watcher_init(e: WatcherInitError) -> (r: Error)
        ensures
            r == Error::BuildingTokenWatcher(e.cause.cause),
    {
        Error::BuildingTokenWatcher(e.cause.cause)
    }
}

} // verus!
