//! The service: a link store behind the command and query traits, with a
//! generator of random slugs.

use vstd::prelude::*;
use crate::commands::CommandHandler;
use crate::queries::QueryHandler;
use crate::registry::{LinkRecord, Registry};
use crate::slug::{
    alphabet,
    alphabet_chars,
    draw_chars,
    holds_generated_slug,
    is_generated_slug,
    lemma_alphabet_is_a_set,
    lemma_draw_is_generated_slug,
    SLUG_LENGTH,
};
use crate::store::LinkStore;
use crate::types::{ShortLink, ShortenerError, Slug, Stats, Url};
use crate::url::validate_url;

verus! {

/// How many candidates the generator draws before it gives up.
pub const MAX_SLUG_DRAWS: u64 = u64::MAX;

/// The shortener service: every link it has created, and the alphabet its
/// random slugs are drawn from.
pub struct UrlShortenerService {
    store: LinkStore,
    slug_alphabet: Vec<char>,
}

impl View for UrlShortenerService {
    type V = Registry;

    closed spec fn view(&self) -> Registry {
        self.store@
    }
}

impl UrlShortenerService {
    #[verifier::type_invariant]
    spec fn inv(self) -> bool {
        &&& self.store.wf()
        &&& self.slug_alphabet@ == alphabet()
    }

    /// Creates a new instance of the service, with no links.
    pub fn new() -> (service: Self)
        ensures
            service@ == Map::<Seq<char>, LinkRecord>::empty(),
    {
        UrlShortenerService { store: LinkStore::new(), slug_alphabet: alphabet_chars() }
    }

    /// Judges one candidate slug: hands it back if no link is filed under
    /// it, and drops it if one is.
    pub fn accept_candidate(&self, candidate: Slug) -> (accepted: Option<Slug>)
        ensures
            self@.contains_key(candidate@) ==> accepted is None,
            !self@.contains_key(candidate@) ==> accepted == Some(candidate),
    {
        proof {
            use_type_invariant(self);
        }
        if self.store.contains(&candidate) {
            None
        } else {
            Some(candidate)
        }
    }

    /// Draws random slugs, six symbols of the alphabet each, until one is
    /// free, and returns it. The first draw is free, and so returned, unless
    /// a slug of that form is already taken. Gives up with `None` if
    /// [`MAX_SLUG_DRAWS`] candidates in a row were all taken.
    pub fn generate_unique_slug(&self) -> (fresh: Option<Slug>)
        ensures
            fresh matches Some(slug) ==> is_generated_slug(slug@) && !self@.contains_key(slug@),
            !holds_generated_slug(self@) ==> fresh is Some,
    {
        proof {
            use_type_invariant(self);
        }
        let mut rng = rand::rng();
        let mut draws: u64 = 0;
        while draws < MAX_SLUG_DRAWS
            invariant
                self.store.wf(),
                self.slug_alphabet@ == alphabet(),
                draws > 0 ==> holds_generated_slug(self@),
            decreases MAX_SLUG_DRAWS - draws,
        {
            proof {
                lemma_alphabet_is_a_set();
            }
            let candidate = Slug(draw_chars(&self.slug_alphabet, &mut rng, SLUG_LENGTH));
            proof {
                lemma_draw_is_generated_slug(candidate@);
            }
            match self.accept_candidate(candidate) {
                Some(slug) => {
                    return Some(slug);
                },
                None => {
                    assert(self@.contains_key(candidate@) && is_generated_slug(candidate@));
                },
            }
            draws += 1;
        }
        None
    }
}

impl CommandHandler for UrlShortenerService {
    fn handle_create_short_link(&mut self, url: Url, slug: Option<Slug>) -> (reply: Result<
        ShortLink,
        ShortenerError,
    >) {
        proof {
            use_type_invariant(&*self);
        }
        if !validate_url(&url) {
            return Err(ShortenerError::InvalidUrl);
        }
        // Generate a new slug if none is provided.
        let slug = match slug {
            Some(given) => given,
            None => match self.generate_unique_slug() {
                Some(fresh) => fresh,
                None => {
                    return Err(ShortenerError::SlugAlreadyInUse);
                },
            },
        };
        // The slug must be unique, wherever it came from.
        if self.store.contains(&slug) {
            return Err(ShortenerError::SlugAlreadyInUse);
        }
        let link = ShortLink { slug: slug.clone(), url };
        let stats = Stats { link: link.clone(), redirects: 0 };
        let mut store = LinkStore::new();
        std::mem::swap(&mut store, &mut self.store);
        store.insert(slug, link.clone(), stats);
        self.store = store;
        Ok(link)
    }

    fn handle_redirect(&mut self, slug: Slug) -> (reply: Result<ShortLink, ShortenerError>) {
        proof {
            use_type_invariant(&*self);
        }
        match self.store.get_link(&slug) {
            Some(link) => {
                let mut store = LinkStore::new();
                std::mem::swap(&mut store, &mut self.store);
                store.increment_redirects(&slug);
                self.store = store;
                Ok(link)
            },
            None => Err(ShortenerError::SlugNotFound),
        }
    }

    fn handle_change_short_link(&mut self, slug: Slug, new_url: Url) -> (reply: Result<
        ShortLink,
        ShortenerError,
    >) {
        proof {
            use_type_invariant(&*self);
        }
        if !validate_url(&new_url) {
            return Err(ShortenerError::InvalidUrl);
        }
        if !self.store.contains(&slug) {
            return Err(ShortenerError::SlugNotFound);
        }
        let link = ShortLink { slug: slug.clone(), url: new_url.clone() };
        let mut store = LinkStore::new();
        std::mem::swap(&mut store, &mut self.store);
        store.set_url(&slug, new_url);
        self.store = store;
        Ok(link)
    }
}

impl QueryHandler for UrlShortenerService {
    fn get_stats(&self, slug: Slug) -> (reply: Result<Stats, ShortenerError>) {
        proof {
            use_type_invariant(self);
        }
        match self.store.get_stats(&slug) {
            Some(stats) => Ok(stats),
            None => Err(ShortenerError::SlugNotFound),
        }
    }
}

} // verus!
