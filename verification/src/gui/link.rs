use vstd::prelude::*;
use vstd::string::*;

verus! {

/// A link that the window opens in the browser starts with `http://` or
/// `https://`.
pub open spec fn is_web_link(url: Seq<char>) -> bool {
    "http://"@.is_prefix_of(url) || "https://"@.is_prefix_of(url)
}

/// Whether `text` starts with `prefix`.
pub fn starts_with(text: &str, prefix: &str) -> (starts: bool)
    ensures
        starts == prefix@.is_prefix_of(text@),
{
    let length = prefix.unicode_len();
    if text.unicode_len() < length {
        return false;
    }
    let mut i: usize = 0;
    while i < length
        invariant
            i <= length,
            length == prefix@.len(),
            length <= text@.len(),
            forall|j: int| 0 <= j < i ==> text@[j] == prefix@[j],
        decreases length - i,
    {
        if text.get_char(i) != prefix.get_char(i) {
            return false;
        }
        i += 1;
    }
    true
}

/// Whether the window opens the link in the browser.
pub fn is_http_link(url: &str) -> (opened: bool)
    ensures
        opened == is_web_link(url@),
{
    starts_with(url, "http://") || starts_with(url, "https://")
}

} // verus!
