//! The registry as a mathematical object: a finite map from slugs to link
//! records, and the effect of every command and query on it.

use vstd::prelude::*;
use crate::types::{LinkView, ShortenerError, StatsView};
use crate::url::is_valid_url;

verus! {

/// What the registry remembers of one slug.
pub struct LinkRecord {
    /// The address the slug currently stands for.
    pub url: Seq<char>,
    /// How many times the slug has been resolved.
    pub redirects: nat,
}

/// All links, by slug.
pub type Registry = Map<Seq<char>, LinkRecord>;

/// The link that `reg` holds under `slug`.
pub open spec fn link_of(reg: Registry, slug: Seq<char>) -> LinkView {
    LinkView { slug, url: reg[slug].url }
}

/// The answer to a request to create `slug` for `url`. The URL is judged
/// first, then the slug.
pub open spec fn create_reply(reg: Registry, url: Seq<char>, slug: Seq<char>) -> Result<
    LinkView,
    ShortenerError,
> {
    if !is_valid_url(url) {
        Err(ShortenerError::InvalidUrl)
    } else if reg.contains_key(slug) {
        Err(ShortenerError::SlugAlreadyInUse)
    } else {
        Ok(LinkView { slug, url })
    }
}

/// The registry after a request to create `slug` for `url`: one fresh record
/// with no redirects where the request succeeds, no change where it fails.
pub open spec fn after_create(reg: Registry, url: Seq<char>, slug: Seq<char>) -> Registry {
    if create_reply(reg, url, slug) is Ok {
        reg.insert(slug, LinkRecord { url, redirects: 0 })
    } else {
        reg
    }
}

/// The answer to a request to resolve `slug`.
pub open spec fn redirect_reply(reg: Registry, slug: Seq<char>) -> Result<
    LinkView,
    ShortenerError,
> {
    if reg.contains_key(slug) {
        Ok(link_of(reg, slug))
    } else {
        Err(ShortenerError::SlugNotFound)
    }
}

/// The registry after a request to resolve `slug`: a known slug has been
/// followed once more.
pub open spec fn after_redirect(reg: Registry, slug: Seq<char>) -> Registry {
    if reg.contains_key(slug) {
        reg.insert(slug, LinkRecord { url: reg[slug].url, redirects: reg[slug].redirects + 1 })
    } else {
        reg
    }
}

/// The answer to a request to point `slug` at `new_url`. The URL is judged
/// first, then the slug.
pub open spec fn change_url_reply(reg: Registry, slug: Seq<char>, new_url: Seq<char>) -> Result<
    LinkView,
    ShortenerError,
> {
    if !is_valid_url(new_url) {
        Err(ShortenerError::InvalidUrl)
    } else if !reg.contains_key(slug) {
        Err(ShortenerError::SlugNotFound)
    } else {
        Ok(LinkView { slug, url: new_url })
    }
}

/// The registry after a request to point `slug` at `new_url`: the address is
/// replaced and the counter kept where the request succeeds.
pub open spec fn after_change_url(reg: Registry, slug: Seq<char>, new_url: Seq<char>) -> Registry {
    if change_url_reply(reg, slug, new_url) is Ok {
        reg.insert(slug, LinkRecord { url: new_url, redirects: reg[slug].redirects })
    } else {
        reg
    }
}

/// The answer to a query for the statistics of `slug`.
pub open spec fn stats_reply(reg: Registry, slug: Seq<char>) -> Result<StatsView, ShortenerError> {
    if reg.contains_key(slug) {
        Ok(StatsView { link: link_of(reg, slug), redirects: reg[slug].redirects })
    } else {
        Err(ShortenerError::SlugNotFound)
    }
}

/// Whether the counter of `slug`, if `reg` knows the slug, can still be
/// advanced within a `u64`.
pub open spec fn can_count(reg: Registry, slug: Seq<char>) -> bool {
    reg.contains_key(slug) ==> reg[slug].redirects < u64::MAX
}

} // verus!
