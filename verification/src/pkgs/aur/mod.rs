//! The community package registry provider: base-address handling,
//! construction of its RPC request URLs, and acceptance of its
//! response envelope.

use vstd::prelude::*;
use crate::error::Error;
use crate::pkgs::{parse_url, url_normalized};

pub mod schema;

pub use schema::By;
pub use schema::Data;
pub use schema::Response;
pub use schema::Type;
pub use schema::by_wire;

verus! {

/// Base RPC URL for the community registry.
pub const BASE_URL: &'static str = "https://aur.archlinux.org/rpc/?v=5";

/// Client of the community registry: holds only the configured,
/// already-normalized base address.
#[derive(Debug, Clone)]
pub struct Aur {
    pub(crate) url: String,
}

impl Aur {
    /// The configured base address, as a sequence of characters.
    pub closed spec fn base(&self) -> Seq<char> {
        self.url@
    }

    /// Create a client against the fixed default base address.
    pub fn new() -> (r: Result<Aur, Error>)
        ensures
            r is Ok <==> url_normalized(BASE_URL@) is Some,
            r is Ok ==> r->Ok_0.base() == url_normalized(BASE_URL@)->0,
            r is Err ==> r->Err_0 matches Error::ParseUrlError(_),
    {
        match parse_url(BASE_URL) {
            Ok(u) => Ok(Aur { url: u }),
            Err(m) => Err(Error::ParseUrlError(m)),
        }
    }

    /// The configured base address.
    pub fn url(&self) -> (r: &String)
        ensures
            r@ == self.base(),
    {
        &self.url
    }

    /// Replace the base address; on a malformed address the client is
    /// left unchanged.
    pub fn set_url(&mut self, base_url: String) -> (r: Result<(), Error>)
        ensures
            r is Ok <==> url_normalized(base_url@) is Some,
            r is Ok ==> final(self).base() == url_normalized(base_url@)->0,
            r is Err ==> *final(self) == *old(self) && r->Err_0 matches Error::ParseUrlError(_),
    {
        match parse_url(base_url.as_str()) {
            Ok(u) => {
                self.url = u;
                Ok(())
            },
            Err(m) => Err(Error::ParseUrlError(m)),
        }
    }

    /// The URL of a search request for `query`, with the optional
    /// match-field selector passed through as a query parameter.
    pub fn search_url(&self, query: &str, by: Option<By>) -> (r: String)
        ensures
            match by {
                None => r@ == self.base() + "&type=search&arg="@ + query@,
                Some(b) => r@ == self.base() + "&type=search&arg="@ + query@ + "&by="@
                    + by_wire(b),
            },
    {
        let mut s = self.url.clone();
        s.append("&type=search&arg=");
        s.append(query);
        match by {
            Some(b) => {
                s.append("&by=");
                let bw = b.to_string();
                s.append(bw.as_str());
            },
            None => (),
        }
        s
    }

    /// The URL of an info request for package `name`.
    pub fn info_url(&self, name: &str) -> (r: String)
        ensures
            r@ == self.base() + "&type=info&arg[]="@ + name@,
    {
        let mut s = self.url.clone();
        s.append("&type=info&arg[]=");
        s.append(name);
        s
    }

    /// Accept or reject a fetched search envelope: a present `error`
    /// field is an application-level failure, anything else passes
    /// through unchanged.
    pub fn accept_search(resp: Response) -> (r: Result<Response, Error>)
        ensures
            resp.error is Some ==> (r matches Err(Error::ResponseError(m)) && m == resp.error->0),
            resp.error is None ==> r == Ok::<Response, Error>(resp),
    {
        match resp.error {
            Some(m) => Err(Error::ResponseError(m)),
            None => Ok(resp),
        }
    }

    /// Accept or reject a fetched info envelope for `name`: a present
    /// `error` field is an application-level failure, a zero result
    /// count means the lookup matched nothing, and otherwise the first
    /// record is the answer. The envelope is taken to be consistent:
    /// a non-zero count comes with a non-empty result list.
    pub fn accept_info(resp: Response, name: &str) -> (r: Result<Data, Error>)
        requires
            resp.result_count == 0 || resp.results@.len() > 0,
        ensures
            resp.error is Some ==> (r matches Err(Error::ResponseError(m)) && m == resp.error->0),
            resp.error is None && resp.result_count == 0 ==> (r matches Err(Error::NoResults(m))
                && m@ == name@),
            resp.error is None && resp.result_count != 0 ==> r == Ok::<Data, Error>(
                resp.results[0],
            ),
    {
        match resp.error {
            Some(m) => Err(Error::ResponseError(m)),
            None => {
                if resp.result_count == 0 {
                    Err(Error::NoResults(name.to_owned()))
                } else {
                    let mut results = resp.results;
                    Ok(results.remove(0))
                }
            },
        }
    }
}

} // verus!
