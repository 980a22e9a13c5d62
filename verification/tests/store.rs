use url_shortener::store::LinkStore;
use url_shortener::{ShortLink, Slug, Stats, Url};

fn slug(text: &str) -> Slug {
    Slug(text.to_string())
}

fn link(slug_text: &str, url_text: &str) -> ShortLink {
    ShortLink { slug: slug(slug_text), url: Url(url_text.to_string()) }
}

fn filled() -> LinkStore {
    let mut store = LinkStore::new();
    let first = link("one", "https://a.example");
    store.insert(slug("one"), first.clone(), Stats { link: first, redirects: 0 });
    let second = link("two", "https://b.example");
    store.insert(slug("two"), second.clone(), Stats { link: second, redirects: 7 });
    store
}

#[test]
fn new_store_is_empty() {
    let store = LinkStore::new();
    assert!(!store.contains(&slug("one")));
    assert_eq!(store.get_link(&slug("one")), None);
    assert_eq!(store.get_stats(&slug("one")), None);
}

#[test]
fn insert_files_link_and_stats() {
    let store = filled();
    assert!(store.contains(&slug("one")));
    assert!(store.contains(&slug("two")));
    assert!(!store.contains(&slug("three")));
    assert_eq!(store.get_link(&slug("two")), Some(link("two", "https://b.example")));
    assert_eq!(
        store.get_stats(&slug("two")),
        Some(Stats { link: link("two", "https://b.example"), redirects: 7 })
    );
}

#[test]
fn increment_redirects_adds_one() {
    let mut store = filled();
    store.increment_redirects(&slug("two"));
    assert_eq!(store.get_stats(&slug("two")).unwrap().redirects, 8);
    assert_eq!(store.get_stats(&slug("one")).unwrap().redirects, 0);
    assert_eq!(store.get_link(&slug("two")), Some(link("two", "https://b.example")));
}

#[test]
fn set_url_changes_link_and_mirrored_stats() {
    let mut store = filled();
    store.set_url(&slug("two"), Url("https://c.example".to_string()));
    assert_eq!(store.get_link(&slug("two")), Some(link("two", "https://c.example")));
    assert_eq!(
        store.get_stats(&slug("two")),
        Some(Stats { link: link("two", "https://c.example"), redirects: 7 })
    );
    assert_eq!(store.get_link(&slug("one")), Some(link("one", "https://a.example")));
}
