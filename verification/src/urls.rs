//! URL parsing and joining, relied on from the `url` crate.
//!
//! Both operations are pure functions of their text arguments, so the
//! results are given names that the rest of the library's contracts
//! speak of exactly.

use vstd::prelude::*;

verus! {

/// The serialization of `url::Url::parse(s)`: `Some` of the normalized
/// URL text exactly when `s` parses as an absolute URL, `None` when it
/// does not. The result depends on the characters of `s` alone.
pub uninterp spec fn url_normalized(s: Seq<char>) -> Option<Seq<char>>;

/// The serialization of `url::Url::parse(base)` followed by
/// `Url::join(path)`: `Some` of the joined URL text exactly when the
/// base parses and the join succeeds. The result depends on the
/// characters of `base` and `path` alone.
pub uninterp spec fn url_joined(base: Seq<char>, path: Seq<char>) -> Option<Seq<char>>;

/// A URL text is normalized when it is the serialization that parsing
/// some text yields.
pub open spec fn is_normalized_url(u: Seq<char>) -> bool {
    exists|s: Seq<char>| url_normalized(s) == Some(u)
}

/// Relies on `url::Url::parse`: parses an absolute URL and returns its
/// normalized serialization, or `None` when the text is not a URL.
#[verifier::external_body]
pub(crate) fn parse_url(s: &str) -> (r: Option<String>)
    ensures
        r is Some <==> url_normalized(s@) is Some,
        r matches Some(u) ==> url_normalized(s@) == Some(u@),
{
    url::Url::parse(s).ok().map(String::from)
}

/// Relies on `url::Url::parse` and `url::Url::join`: parses the base
/// address and resolves `path` against it, returning the serialization
/// of the joined URL, or `None` when the base does not parse or the
/// join fails.
#[verifier::external_body]
pub(crate) fn join_url(base: &str, path: &str) -> (r: Option<String>)
    ensures
        r is Some <==> url_joined(base@, path@) is Some,
        r matches Some(u) ==> url_joined(base@, path@) == Some(u@),
{
    match url::Url::parse(base) {
        Ok(b) => b.join(path).ok().map(String::from),
        Err(_) => None,
    }
}

} // verus!
