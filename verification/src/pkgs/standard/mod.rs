//! The standard distribution repository provider: base-address
//! handling and the construction of its request URLs.

use vstd::prelude::*;
use crate::error::Error;
use crate::pkgs::{parse_url, url_normalized};

pub mod schema;

pub use schema::Arch;
pub use schema::Data;
pub use schema::Repo;
pub use schema::Response;
pub use schema::arch_wire;
pub use schema::repo_wire;

verus! {

/// Base URL for the standard packages endpoint.
pub const BASE_URL: &'static str = "https://archlinux.org/packages/";

/// Client of the standard repositories: holds only the configured,
/// already-normalized base address.
#[derive(Debug, Clone)]
pub struct Std {
    pub(crate) url: String,
}

impl Std {
    /// The configured base address, as a sequence of characters.
    pub closed spec fn base(&self) -> Seq<char> {
        self.url@
    }

    /// Create a client against the fixed default base address.
    pub fn new() -> (r: Result<Std, Error>)
        ensures
            r is Ok <==> url_normalized(BASE_URL@) is Some,
            r is Ok ==> r->Ok_0.base() == url_normalized(BASE_URL@)->0,
            r is Err ==> r->Err_0 matches Error::ParseUrlError(_),
    {
        match parse_url(BASE_URL) {
            Ok(u) => Ok(Std { url: u }),
            Err(m) => Err(Error::ParseUrlError(m)),
        }
    }

    /// The configured base address.
    pub fn url(&self) -> (r: &String)
        ensures
            r@ == self.base(),
    {
        &self.url
    }

    /// Replace the base address; on a malformed address the client is
    /// left unchanged.
    pub fn set_url(&mut self, base_url: String) -> (r: Result<(), Error>)
        ensures
            r is Ok <==> url_normalized(base_url@) is Some,
            r is Ok ==> final(self).base() == url_normalized(base_url@)->0,
            r is Err ==> *final(self) == *old(self) && r->Err_0 matches Error::ParseUrlError(_),
    {
        match parse_url(base_url.as_str()) {
            Ok(u) => {
                self.url = u;
                Ok(())
            },
            Err(m) => Err(Error::ParseUrlError(m)),
        }
    }

    /// The URL of a search request for `query`.
    pub fn search_url(&self, query: &str) -> (r: String)
        ensures
            r@ == self.base() + "search/json/?q="@ + query@,
    {
        let mut s = self.url.clone();
        s.append("search/json/?q=");
        s.append(query);
        s
    }

    /// The URL of an info request for package `name` in family `repo`;
    /// the standard source has no cross-family lookup, so the family
    /// must already be known.
    pub fn info_url(&self, name: &str, repo: Repo) -> (r: String)
        ensures
            r@ == self.base() + "/"@ + repo_wire(repo) + "/"@ + arch_wire(Arch::X86_64) + "/"@
                + name@ + "/json"@,
    {
        let mut s = self.url.clone();
        s.append("/");
        let rw = repo.to_string();
        s.append(rw.as_str());
        s.append("/");
        let aw = Arch::X86_64.to_string();
        s.append(aw.as_str());
        s.append("/");
        s.append(name);
        s.append("/json");
        s
    }
}

} // verus!
