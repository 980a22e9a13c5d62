//! The syntactic check that gates every write of a URL.

use vstd::prelude::*;
use crate::types::Url;

verus! {

/// The characters of `http://`.
pub open spec fn http_scheme() -> Seq<char> {
    seq!['h', 't', 't', 'p', ':', '/', '/']
}

/// The characters of `https://`.
pub open spec fn https_scheme() -> Seq<char> {
    seq!['h', 't', 't', 'p', 's', ':', '/', '/']
}

/// A URL is acceptable when it begins with one of the two schemes and
/// something follows the scheme separator.
pub open spec fn is_valid_url(url: Seq<char>) -> bool {
    ||| http_scheme().is_prefix_of(url) && url.len() > http_scheme().len()
    ||| https_scheme().is_prefix_of(url) && url.len() > https_scheme().len()
}

/// Whether `text` begins with `prefix`, character by character.
fn begins_with(text: &str, prefix: &str) -> (found: bool)
    ensures
        found == prefix@.is_prefix_of(text@),
{
    let text_len: usize = text.unicode_len();
    let prefix_len: usize = prefix.unicode_len();
    if prefix_len > text_len {
        return false;
    }
    let mut i: usize = 0;
    while i < prefix_len
        invariant
            i <= prefix_len <= text_len,
            prefix_len == prefix@.len(),
            text_len == text@.len(),
            forall|j: int| 0 <= j < i ==> prefix@[j] == text@[j],
        decreases prefix_len - i,
    {
        if text.get_char(i) != prefix.get_char(i) {
            return false;
        }
        i += 1;
    }
    true
}

/// Tells whether `url` may be stored: it names the `http` or `https` scheme
/// and is longer than the scheme alone.
pub fn validate_url(url: &Url) -> (valid: bool)
    ensures
        valid == is_valid_url(url@),
{
    proof {
        reveal_strlit("http://");
        reveal_strlit("https://");
        assert("http://"@ =~= http_scheme());
        assert("https://"@ =~= https_scheme());
    }
    let text: &str = url.0.as_str();
    let len: usize = text.unicode_len();
    (len > 7 && begins_with(text, "http://")) || (len > 8 && begins_with(text, "https://"))
}

} // verus!
