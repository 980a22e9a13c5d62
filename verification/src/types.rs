//! The values that cross the service boundary, and what each of them stands
//! for in contracts.

use vstd::prelude::*;

verus! {

/// All possible errors of the shortener service.
#[derive(Debug, PartialEq)]
pub enum ShortenerError {
    /// An invalid [`Url`] was provided for shortening.
    InvalidUrl,
    /// An attempt was made to use a slug (custom alias) that already exists.
    SlugAlreadyInUse,
    /// The provided [`Slug`] does not map to any existing short link.
    SlugNotFound,
}

/// A unique string (or alias) that represents the shortened version of the
/// URL.
#[derive(Debug, Hash, PartialEq, Eq)]
pub struct Slug(pub String);

/// The original URL that the short link points to.
#[derive(Debug, PartialEq)]
pub struct Url(pub String);

/// Shortened URL representation.
#[derive(Debug, PartialEq)]
pub struct ShortLink {
    /// A unique string (or alias) that represents the shortened version of
    /// the URL.
    pub slug: Slug,
    /// The original URL that the short link points to.
    pub url: Url,
}

/// Statistics of the [`ShortLink`].
#[derive(Debug, PartialEq)]
pub struct Stats {
    /// [`ShortLink`] to which this [`Stats`] are related.
    pub link: ShortLink,
    /// Count of redirects of the [`ShortLink`].
    pub redirects: u64,
}

/// What a [`ShortLink`] says: an alias and the address it stands for.
pub struct LinkView {
    pub slug: Seq<char>,
    pub url: Seq<char>,
}

/// What a [`Stats`] value says: a link and how often it was followed.
pub struct StatsView {
    pub link: LinkView,
    pub redirects: nat,
}

impl View for Slug {
    type V = Seq<char>;

    open spec fn view(&self) -> Seq<char> {
        self.0@
    }
}

impl View for Url {
    type V = Seq<char>;

    open spec fn view(&self) -> Seq<char> {
        self.0@
    }
}

impl View for ShortLink {
    type V = LinkView;

    open spec fn view(&self) -> LinkView {
        LinkView { slug: self.slug@, url: self.url@ }
    }
}

impl View for Stats {
    type V = StatsView;

    open spec fn view(&self) -> StatsView {
        StatsView { link: self.link@, redirects: self.redirects as nat }
    }
}

/// A command's answer as contracts see it: the link by its view, the error as
/// it is.
pub open spec fn link_reply(reply: Result<ShortLink, ShortenerError>) -> Result<
    LinkView,
    ShortenerError,
> {
    match reply {
        Ok(link) => Ok(link@),
        Err(error) => Err(error),
    }
}

/// A query's answer as contracts see it: the statistics by their view, the
/// error as it is.
pub open spec fn stats_reply_view(reply: Result<Stats, ShortenerError>) -> Result<
    StatsView,
    ShortenerError,
> {
    match reply {
        Ok(stats) => Ok(stats@),
        Err(error) => Err(error),
    }
}

impl Clone for Slug {
    fn clone(&self) -> (copy: Self)
        ensures
            copy == *self,
    {
        Slug(self.0.clone())
    }
}

impl Clone for Url {
    fn clone(&self) -> (copy: Self)
        ensures
            copy == *self,
    {
        Url(self.0.clone())
    }
}

impl Clone for ShortLink {
    fn clone(&self) -> (copy: Self)
        ensures
            copy == *self,
    {
        ShortLink { slug: self.slug.clone(), url: self.url.clone() }
    }
}

impl Clone for Stats {
    fn clone(&self) -> (copy: Self)
        ensures
            copy == *self,
    {
        Stats { link: self.link.clone(), redirects: self.redirects }
    }
}

} // verus!
