//! The trusted boundary to the URL machinery: parsing a base address and
//! resolving request paths against it. Nothing here performs I/O.

use vstd::prelude::*;

verus! {

/// What parsing and re-serializing a URL yields, as a function of the
/// text alone; `None` for text that is not an absolute URL.
pub uninterp spec fn normalized_url(s: Seq<char>) -> Option<Seq<char>>;

/// Relies on reqwest::Url::parse and Url::to_string (the url crate):
/// whether a text parses as an absolute URL, and the serialization of the
/// parsed value, depend on the text alone.
#[verifier::external_body]
pub(crate) fn parse_base_url(s: &str) -> (r: Option<String>)
    ensures
        r is Some <==> normalized_url(s@) is Some,
        r matches Some(u) ==> normalized_url(s@) == Some(u@),
{
    reqwest::Url::parse(s).ok().map(|u| u.to_string())
}

/// What resolving `path` against the URL `base` yields, as a function of
/// the two texts alone; `None` when `base` is no absolute URL or the
/// resolution fails.
pub uninterp spec fn joined_url(base: Seq<char>, path: Seq<char>) -> Option<Seq<char>>;

/// Relies on reqwest::Url::parse, Url::join and Url::to_string (the url
/// crate): the resolution of a path-and-query reference against a base
/// URL depends on the two texts alone.
#[verifier::external_body]
pub(crate) fn join_url(base: &str, path: &str) -> (r: Option<String>)
    ensures
        r is Some <==> joined_url(base@, path@) is Some,
        r matches Some(u) ==> joined_url(base@, path@) == Some(u@),
{
    let b = match reqwest::Url::parse(base) {
        Ok(b) => b,
        Err(_) => return None,
    };
    b.join(path).ok().map(|u| u.to_string())
}

} // verus!
