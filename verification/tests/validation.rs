use url_shortener::{validate_url, Url};

fn url(text: &str) -> Url {
    Url(text.to_string())
}

#[test]
fn test_validate_url() {
    assert_eq!(true, validate_url(&Url("http://ya.ru".to_string())));
    assert_eq!(false, validate_url(&Url("abc".to_string())));
}

#[test]
fn accepts_both_schemes_with_a_host() {
    assert!(validate_url(&url("http://a.b")));
    assert!(validate_url(&url("https://a.b")));
    assert!(validate_url(&url("https://docs.rs/tokio/latest/tokio/")));
}

#[test]
fn rejects_other_schemes() {
    assert!(!validate_url(&url("ftp://a.b")));
    assert!(!validate_url(&url("abc")));
    assert!(!validate_url(&url("")));
    assert!(!validate_url(&url("httpx://a.b")));
    assert!(!validate_url(&url("HTTP://a.b")));
    assert!(!validate_url(&url(" http://a.b")));
}

#[test]
fn rejects_a_scheme_with_nothing_after_it() {
    assert!(!validate_url(&url("http://")));
    assert!(!validate_url(&url("https://")));
    assert!(!validate_url(&url("http:/")));
    assert!(!validate_url(&url("https:/")));
}

#[test]
fn accepts_one_character_after_the_scheme() {
    assert!(validate_url(&url("http://a")));
    assert!(validate_url(&url("https://a")));
    assert!(validate_url(&url("http:///")));
}

#[test]
fn counts_characters_not_bytes() {
    assert!(validate_url(&url("http://é")));
    assert!(validate_url(&url("https://日本.jp")));
    assert!(!validate_url(&url("héttp://a.b")));
}

#[test]
fn judges_only_the_scheme_and_what_follows_it() {
    assert!(validate_url(&url("http://://x")));
    assert!(validate_url(&url("https://http://")));
    assert!(validate_url(&url("http:// ")));
    assert!(!validate_url(&url("mailto:http://a.b")));
}
