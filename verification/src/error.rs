//! Error types shared by every layer of the library.

use vstd::prelude::*;

verus! {

/// One error kind per failure mode of a provider call: a malformed
/// base address, a transport failure, a remote-reported application
/// error, a query with no parameters, and an identifier lookup that
/// matched nothing.
#[derive(Debug, Clone)]
pub enum Error {
    /// An error reported by the remote service inside a well-formed envelope.
    ResponseError(String),
    /// A configured base address that could not be parsed as a URL.
    ParseUrlError(String),
    /// A transport or connectivity failure while fetching data.
    FetchError(String),
    /// No parameters were provided for a query.
    NoParams(String),
    /// No results were found for an identifier-targeted lookup.
    NoResults(String),
}

impl Error {
    /// A human-readable description of the error, one fixed prefix per kind.
    pub fn describe(&self) -> (r: String)
        ensures
            match self {
                Error::ResponseError(e) => r@ == "Response error: "@ + e@,
                Error::ParseUrlError(e) => r@ == "Couldn't parse the url: "@ + e@,
                Error::FetchError(e) => r@ == "Couldn't fetch data from url: "@ + e@,
                Error::NoParams(e) => r@ == "No parameters provided for "@ + e@ + " query"@,
                Error::NoResults(e) => r@ == "No results found for query "@ + e@,
            },
    {
        match self {
            Error::ResponseError(e) => {
                let mut s = "Response error: ".to_owned();
                s.append(e.as_str());
                s
            },
            Error::ParseUrlError(e) => {
                let mut s = "Couldn't parse the url: ".to_owned();
                s.append(e.as_str());
                s
            },
            Error::FetchError(e) => {
                let mut s = "Couldn't fetch data from url: ".to_owned();
                s.append(e.as_str());
                s
            },
            Error::NoParams(e) => {
                let mut s = "No parameters provided for ".to_owned();
                s.append(e.as_str());
                s.append(" query");
                s
            },
            Error::NoResults(e) => {
                let mut s = "No results found for query ".to_owned();
                s.append(e.as_str());
                s
            },
        }
    }
}

} // verus!
