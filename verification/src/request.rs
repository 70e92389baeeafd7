//! The inbound request, as far as routing reads it.

use vstd::prelude::*;
use vstd::string::*;

verus! {

/// What routing reads of an inbound request.
#[derive(Debug, PartialEq, Eq)]
pub struct InboundRequest {
    /// The value of the `x-forwarded-host` header, where the request has one.
    pub forwarded_host: Option<String>,
    /// The value of the `Host` header, where the request has one.
    pub host: Option<String>,
    /// The path of the request's URL.
    pub path: String,
    /// The query string of the request's URL, without its `?`, where the URL
    /// has one.
    pub query: Option<String>,
    /// The scheme of the request's URL, which the rewritten URL keeps.
    pub scheme: String,
}

/// An inbound request with its strings as sequences of characters.
pub struct RequestView {
    pub forwarded_host: Option<Seq<char>>,
    pub host: Option<Seq<char>>,
    pub path: Seq<char>,
    pub query: Option<Seq<char>>,
    pub scheme: Seq<char>,
}

/// The characters of a string that may be absent.
pub open spec fn optional_view(text: Option<String>) -> Option<Seq<char>> {
    match text {
        Some(text) => Some(text@),
        None => None,
    }
}

impl View for InboundRequest {
    type V = RequestView;

    open spec fn view(&self) -> RequestView {
        RequestView {
            forwarded_host: optional_view(self.forwarded_host),
            host: optional_view(self.host),
            path: self.path@,
            query: optional_view(self.query),
            scheme: self.scheme@,
        }
    }
}

/// The request names no host: it has no `Host` header, and no forwarded host
/// that could stand in for it.
#[derive(Debug, Clone, Copy, PartialEq, Eq)]
pub struct MissingHostError;

impl RequestView {
    /// The host of record: the forwarded host where one is given and not
    /// empty, else the `Host` header; `None` where neither serves.
    pub open spec fn effective_host(self) -> Option<Seq<char>> {
        match self.forwarded_host {
            Some(forwarded) => if forwarded.len() > 0 {
                Some(forwarded)
            } else {
                self.host
            },
            None => self.host,
        }
    }

    /// The path, followed by `?` and the query string where there is one.
    pub open spec fn full_path(self) -> Seq<char> {
        match self.query {
            Some(query) => self.path + seq!['?'] + query,
            None => self.path,
        }
    }
}

impl InboundRequest {
    /// The host that routing goes by. A forwarded host takes precedence over
    /// the `Host` header, whatever that one says.
    pub fn effective_host(&self) -> (resolved: Result<&str, MissingHostError>)
        ensures
            match resolved {
                Ok(host) => self@.effective_host() == Some(host@),
                Err(_) => self@.effective_host() is None,
            },
    {
        match &self.forwarded_host {
            Some(forwarded) => {
                if !forwarded.as_str().is_empty() {
                    return Ok(forwarded.as_str());
                }
            },
            None => {},
        }
        match &self.host {
            Some(host) => Ok(host.as_str()),
            None => Err(MissingHostError),
        }
    }

    /// The string that route prefixes are matched against.
    pub fn full_path(&self) -> (full: String)
        ensures
            full@ == self@.full_path(),
    {
        match &self.query {
            Some(query) => {
                proof {
                    reveal_strlit("?");
                }
                let full = self.path.clone().concat("?").concat(query.as_str());
                assert("?"@ =~= seq!['?']);
                full
            },
            None => self.path.clone(),
        }
    }
}

} // verus!
