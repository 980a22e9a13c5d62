//! The link store: the one owner of all state that is kept by slug.

use vstd::prelude::*;
use vstd::hash_map::StringHashMap;
use crate::registry::{link_of, LinkRecord, Registry};
use crate::types::{ShortLink, Slug, Stats, Url};

verus! {

/// Two tables keyed by slug, one of links and one of statistics, which are
/// only ever changed together.
pub struct LinkStore {
    links: StringHashMap<ShortLink>,
    stats: StringHashMap<Stats>,
}

impl View for LinkStore {
    type V = Registry;

    closed spec fn view(&self) -> Registry {
        Map::new(
            |slug: Seq<char>| self.links@.contains_key(slug),
            |slug: Seq<char>|
                LinkRecord {
                    url: self.links@[slug]@.url,
                    redirects: self.stats@[slug]@.redirects,
                },
        )
    }
}

impl LinkStore {
    /// The two tables agree: they know the same slugs, every link is filed
    /// under its own slug, and every statistics entry carries the link as it
    /// stands in the link table.
    pub closed spec fn wf(&self) -> bool {
        &&& self.links@.dom() == self.stats@.dom()
        &&& forall|slug: Seq<char>| #[trigger]
            self.links@.contains_key(slug) ==> {
                &&& self.links@[slug]@.slug == slug
                &&& self.stats@[slug]@.link == self.links@[slug]@
            }
    }

    /// An empty store.
    pub fn new() -> (store: Self)
        ensures
            store.wf(),
            store@ == Map::<Seq<char>, LinkRecord>::empty(),
    {
        let store = LinkStore { links: StringHashMap::new(), stats: StringHashMap::new() };
        assert(store@ =~= Map::<Seq<char>, LinkRecord>::empty());
        store
    }

    /// Whether a link is filed under `slug`.
    pub fn contains(&self, slug: &Slug) -> (found: bool)
        requires
            self.wf(),
        ensures
            found == self@.contains_key(slug@),
    {
        self.links.contains_key(slug.0.as_str())
    }

    /// Files `link` and `stats` under `slug`, replacing what was there.
    pub fn insert(&mut self, slug: Slug, link: ShortLink, stats: Stats)
        requires
            old(self).wf(),
            link@.slug == slug@,
            stats@.link == link@,
        ensures
            final(self).wf(),
            final(self)@ == old(self)@.insert(
                slug@,
                LinkRecord { url: link@.url, redirects: stats@.redirects },
            ),
    {
        let key = slug.0.clone();
        self.links.insert(key, link);
        self.stats.insert(slug.0, stats);
        assert(self@ =~= old(self)@.insert(
            slug@,
            LinkRecord { url: link@.url, redirects: stats@.redirects },
        ));
    }

    /// A copy of the link filed under `slug`, if there is one.
    pub fn get_link(&self, slug: &Slug) -> (found: Option<ShortLink>)
        requires
            self.wf(),
        ensures
            match found {
                Some(link) => self@.contains_key(slug@) && link@ == link_of(self@, slug@),
                None => !self@.contains_key(slug@),
            },
    {
        match self.links.get(slug.0.as_str()) {
            Some(link) => Some(link.clone()),
            None => None,
        }
    }

    /// A copy of the statistics filed under `slug`, if there are any.
    pub fn get_stats(&self, slug: &Slug) -> (found: Option<Stats>)
        requires
            self.wf(),
        ensures
            match found {
                Some(stats) => {
                    &&& self@.contains_key(slug@)
                    &&& stats@.link == link_of(self@, slug@)
                    &&& stats@.redirects == self@[slug@].redirects
                },
                None => !self@.contains_key(slug@),
            },
    {
        match self.stats.get(slug.0.as_str()) {
            Some(stats) => Some(stats.clone()),
            None => None,
        }
    }

    /// Counts one more redirect for `slug`, which must be present and whose
    /// counter must not have reached the top of its range.
    pub fn increment_redirects(&mut self, slug: &Slug)
        requires
            old(self).wf(),
            old(self)@.contains_key(slug@),
            old(self)@[slug@].redirects < u64::MAX,
        ensures
            final(self).wf(),
            final(self)@ == old(self)@.insert(
                slug@,
                LinkRecord {
                    url: old(self)@[slug@].url,
                    redirects: old(self)@[slug@].redirects + 1,
                },
            ),
    {
        let stats = self.stats.get(slug.0.as_str()).unwrap();
        let counted = Stats { link: stats.link.clone(), redirects: stats.redirects + 1 };
        self.stats.insert(slug.0.clone(), counted);
        assert(self.stats@.dom() =~= self.links@.dom());
        assert(self@ =~= old(self)@.insert(
            slug@,
            LinkRecord {
                url: old(self)@[slug@].url,
                redirects: old(self)@[slug@].redirects + 1,
            },
        ));
    }

    /// Points `slug`, which must be present, at `new_url`, in the link table
    /// and in the link that its statistics carry.
    pub fn set_url(&mut self, slug: &Slug, new_url: Url)
        requires
            old(self).wf(),
            old(self)@.contains_key(slug@),
        ensures
            final(self).wf(),
            final(self)@ == old(self)@.insert(
                slug@,
                LinkRecord { url: new_url@, redirects: old(self)@[slug@].redirects },
            ),
    {
        let redirects: u64 = self.stats.get(slug.0.as_str()).unwrap().redirects;
        let mirrored = ShortLink { slug: slug.clone(), url: new_url.clone() };
        let link = ShortLink { slug: slug.clone(), url: new_url };
        self.links.insert(slug.0.clone(), link);
        self.stats.insert(slug.0.clone(), Stats { link: mirrored, redirects });
        assert(self@ =~= old(self)@.insert(
            slug@,
            LinkRecord { url: new_url@, redirects: old(self)@[slug@].redirects },
        ));
    }
}

} // verus!
