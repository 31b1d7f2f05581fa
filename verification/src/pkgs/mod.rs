//! Package-metadata providers and the aggregation layer over them.

use vstd::prelude::*;

pub mod any;
pub mod aur;
pub mod groups;
pub mod standard;

verus! {

/// A provider of either kind, or the pair of both.
#[derive(Debug, Clone)]
pub enum Pkgs {
    Any(any::Any),
    Aur(aur::Aur),
    Std(standard::Std),
}

/// Clone a list of strings, keeping every element's value.
pub(crate) fn clone_strings(v: &Vec<String>) -> (r: Vec<String>)
    ensures
        r.deep_view() == v.deep_view(),
{
    let mut r: Vec<String> = Vec::new();
    let mut i: usize = 0;
    while i < v.len()
        invariant
            i <= v.len(),
            r@.len() == i,
            forall|j: int| 0 <= j < i ==> r.deep_view()[j] == v.deep_view()[j],
        decreases v.len() - i,
    {
        r.push(v[i].clone());
        i = i + 1;
    }
    proof {
        assert(r.deep_view() =~= v.deep_view());
    }
    r
}

/// The normalized serialization of the URL that `s` parses to, or
/// `None` when `s` is not a valid absolute URL. URL parsing is a
/// deterministic function of the input string alone.
pub uninterp spec fn url_normalized(s: Seq<char>) -> Option<Seq<char>>;

/// Relies on `url::Url::parse` (a deterministic parser of its input
/// string) and `url::Url::as_str` (the serialization of the parsed
/// URL); the error case carries the parse error's message.
#[verifier::external_body]
pub(crate) fn parse_url(s: &str) -> (r: Result<String, String>)
    ensures
        r is Ok <==> url_normalized(s@) is Some,
        r is Ok ==> r->Ok_0@ == url_normalized(s@)->0,
{
    match url::Url::parse(s) {
        Ok(u) => Ok(u.as_str().to_owned()),
        Err(e) => Err(e.to_string()),
    }
}

} // verus!
