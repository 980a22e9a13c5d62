use url_shortener::slug::{alphabet_chars, SLUG_LENGTH};

#[test]
fn alphabet_has_letters_and_digits_once_each() {
    let chars = alphabet_chars();
    assert_eq!(chars.len(), 62);
    for c in ('A'..='Z').chain('a'..='z').chain('0'..='9') {
        assert_eq!(chars.iter().filter(|d| **d == c).count(), 1);
    }
}

#[test]
fn slug_length_is_six() {
    assert_eq!(SLUG_LENGTH, 6);
}
