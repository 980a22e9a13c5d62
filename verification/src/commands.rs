//! Commands: the operations that may change the registry.

use vstd::prelude::*;
use crate::registry::{
    after_change_url,
    after_create,
    after_redirect,
    can_count,
    change_url_reply,
    create_reply,
    redirect_reply,
    Registry,
};
use crate::slug::{holds_generated_slug, is_generated_slug};
use crate::types::{link_reply, ShortLink, ShortenerError, Slug, Url};
use crate::url::is_valid_url;

verus! {

/// Trait for command handlers. A handler is seen as the registry it keeps.
pub trait CommandHandler: View<V = Registry> {
    /// Creates a new short link. It accepts the original url and an
    /// optional [`Slug`]. If a [`Slug`] is not provided, the service will
    /// generate one. Returns the newly created [`ShortLink`].
    ///
    /// With a slug given, answer and registry are those of
    /// [`create_reply`] and [`after_create`]. Without one, an invalid URL is
    /// refused as such; for a valid one, a link that is returned carries a
    /// generated slug that was free and has been created under it, and where
    /// no free slug was drawn the registry stays as it was and the answer is
    /// [`ShortenerError::SlugAlreadyInUse`]. A link is returned whenever no
    /// slug of the generator's making was taken before.
    fn handle_create_short_link(&mut self, url: Url, slug: Option<Slug>) -> (reply: Result<
        ShortLink,
        ShortenerError,
    >)
        ensures
            slug matches Some(given) ==> {
                &&& link_reply(reply) == create_reply(old(self)@, url@, given@)
                &&& final(self)@ == after_create(old(self)@, url@, given@)
            },
            slug is None && !is_valid_url(url@) ==> {
                &&& reply == Err::<ShortLink, _>(ShortenerError::InvalidUrl)
                &&& final(self)@ == old(self)@
            },
            slug is None && is_valid_url(url@) ==> match reply {
                Ok(link) => {
                    &&& is_generated_slug(link@.slug)
                    &&& !old(self)@.contains_key(link@.slug)
                    &&& link@.url == url@
                    &&& final(self)@ == after_create(old(self)@, url@, link@.slug)
                },
                Err(error) => {
                    &&& error == ShortenerError::SlugAlreadyInUse
                    &&& final(self)@ == old(self)@
                },
            },
            slug is None && is_valid_url(url@) && !holds_generated_slug(old(self)@) ==> reply is Ok,
    ;

    /// Processes a redirection by [`Slug`], returning the associated
    /// [`ShortLink`] or a [`ShortenerError`], and counts the redirect.
    fn handle_redirect(&mut self, slug: Slug) -> (reply: Result<ShortLink, ShortenerError>)
        requires
            can_count(old(self)@, slug@),
        ensures
            link_reply(reply) == redirect_reply(old(self)@, slug@),
            final(self)@ == after_redirect(old(self)@, slug@),
    ;

    /// Updates the [`Url`] of a [`ShortLink`] using a given [`Slug`].
    fn handle_change_short_link(&mut self, slug: Slug, new_url: Url) -> (reply: Result<
        ShortLink,
        ShortenerError,
    >)
        ensures
            link_reply(reply) == change_url_reply(old(self)@, slug@, new_url@),
            final(self)@ == after_change_url(old(self)@, slug@, new_url@),
    ;
}

} // verus!
