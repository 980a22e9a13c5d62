//! Queries: the operations that only read the registry.

use vstd::prelude::*;
use crate::registry::{stats_reply, Registry};
use crate::types::{stats_reply_view, ShortenerError, Slug, Stats};

verus! {

/// Trait for query handlers. A handler is seen as the registry it reads.
pub trait QueryHandler: View<V = Registry> {
    /// Returns the [`Stats`] for a specific short link, such as the number
    /// of redirects (clicks).
    fn get_stats(&self, slug: Slug) -> (reply: Result<Stats, ShortenerError>)
        ensures
            stats_reply_view(reply) == stats_reply(self@, slug@),
    ;
}

} // verus!
