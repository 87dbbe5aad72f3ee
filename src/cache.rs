use vstd::prelude::*;
use crate::token::{FetchError, Token};

verus! {

/// An outcome that holds a token still usable at `now`.
pub open spec fn usable_ok(r: Result<Token, FetchError>, now: int) -> bool {
    match r {
        Ok(t) => t.usable_at(now),
        Err(_) => false,
    }
}

/// A primary token source with zero or more named fallback caches.
///
/// The order of the caches is fixed when they are added: it is the order in
/// which they are consulted when the primary fails, and the order in which a
/// token obtained from the primary is written back to them.
#[derive(Clone, Debug)]
pub struct CachedTokenSource {
    pub cache_names: Vec<String>,
}

impl CachedTokenSource {
    pub fn new() -> (r: CachedTokenSource)
        ensures
            r.cache_names@.len() == 0,
    {
        CachedTokenSource { cache_names: Vec::new() }
    }

    /// Adds a fallback cache after those already present.
    pub fn with_cache(self, name: String) -> (r: CachedTokenSource)
        ensures
            r.cache_names@ == self.cache_names@.push(name),
    {
        let mut names = self.cache_names;
        names.push(name);
        CachedTokenSource { cache_names: names }
    }

    /// The caches, by index, that a fetch whose primary attempt had `primary`
    /// writes the primary's token back to: every cache, in the order in which
    /// the caches were added, when the primary succeeded; none when it failed.
    pub fn write_back_targets(&self, primary: &Result<Token, FetchError>) -> (r: Vec<usize>)
        ensures
            primary is Err ==> r@.len() == 0,
            primary is Ok ==> r@.len() == self.cache_names@.len() && forall|i: int|
                0 <= i < r@.len() ==> #[trigger] r@[i] == i,
    {
        let mut targets: Vec<usize> = Vec::new();
        if let Err(_) = primary {
            return targets;
        }
        let n = self.cache_names.len();
        let mut i: usize = 0;
        while i < n
            invariant
                n == self.cache_names@.len(),
                i <= n,
                targets@.len() == i,
                forall|j: int| 0 <= j < i ==> #[trigger] targets@[j] == j,
            decreases n - i,
        {
            targets.push(i);
            i = i + 1;
        }
        targets
    }

    /// The token a fetch yields, given the primary's outcome and, when it
    /// failed, the outcomes of the caches in their order (`fallbacks[i]` from
    /// the `i`-th cache). The primary's token wins; else the first cached token
    /// still usable at `now`; else the primary's error.
    pub fn resolve(
        &self,
        primary: Result<Token, FetchError>,
        fallbacks: &Vec<Result<Token, FetchError>>,
        now: u64,
    ) -> (r: Result<Token, FetchError>)
        ensures
            primary is Ok ==> r == primary,
            primary matches Err(e) ==> {
                &&& (r is Ok <==> exists|i: int|
                    0 <= i < fallbacks@.len() && usable_ok(#[trigger] fallbacks@[i], now as int))
                &&& (r matches Err(e2) ==> e2 == e)
                &&& (r matches Ok(t) ==> exists|i: int|
                    0 <= i < fallbacks@.len() && usable_ok(#[trigger] fallbacks@[i], now as int)
                        && fallbacks@[i]->Ok_0@ == t@ && forall|j: int|
                        0 <= j < i ==> !usable_ok(#[trigger] fallbacks@[j], now as int))
            },
    {
        if let Ok(_) = &primary {
            return primary;
        }
        let mut i: usize = 0;
        while i < fallbacks.len()
            invariant
                0 <= i <= fallbacks@.len(),
                primary is Err,
                forall|j: int| 0 <= j < i ==> !usable_ok(#[trigger] fallbacks@[j], now as int),
            decreases fallbacks@.len() - i,
        {
            match &fallbacks[i] {
                Ok(t) => {
                    if t.is_usable_at(now) {
                        let found = t.duplicate();
                        assert(usable_ok(fallbacks@[i as int], now as int));
                        return Ok(found);
                    }
                },
                Err(_) => {},
            }
            i = i + 1;
        }
        primary
    }
}

} // verus!
