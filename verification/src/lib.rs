//! A declarative HTTP-call description library.
//!
//! A trait whose methods are annotated with HTTP metadata (verb, path
//! template, parameter roles, serialization choices) is described here by
//! plain data: directives, raw parameters and their markers.  The library
//! classifies the parameters, validates the path template against them, and
//! assembles for every method a declarative request plan.  A thin evaluator
//! turns a plan plus runtime argument values into a concrete request
//! description (URL, query string, headers, body); the actual network
//! dispatch is left to an HTTP client collaborator outside this crate.

pub mod contract;
pub mod meta;
pub mod resource;
pub mod util;

use vstd::prelude::*;
use crate::util::StrTuple;

verus! {

/// The HTTP client handle of an outside collaborator, carried through
/// opaquely: nothing about its inside is assumed here.
#[verifier::external_type_specification]
#[verifier::external_body]
pub struct ExClient(reqwest::Client);

/// The capability every generated method reads its client state through:
/// the underlying HTTP client handle, the optional base URL, and the
/// optional default headers.
pub trait Hadorn {
    /// The underlying HTTP client handle.
    fn client(&self) -> &reqwest::Client;

    /// The request base URL, when one is configured.
    fn base_url(&self) -> Option<&String>;

    /// The default request headers, when any are configured.
    fn default_headers(&self) -> Option<&Vec<StrTuple>>;
}

/// The client state a resource assembly equips its trait with: an HTTP
/// client handle, an optional base URL, and optional default headers, all
/// read-only once built.
pub struct HadornClient {
    pub client: reqwest::Client,
    pub base_url: Option<String>,
    pub default_headers: Option<Vec<StrTuple>>,
}

impl HadornClient {
    /// Wraps an HTTP client handle, with no base URL and no default
    /// headers.
    pub fn new(client: reqwest::Client) -> (r: Self)
        ensures
            r.client == client,
            r.base_url is None,
            r.default_headers is None,
    {
        HadornClient { client, base_url: None, default_headers: None }
    }

    /// Sets the base URL every request is resolved against.
    pub fn with_base_url(self, base_url: String) -> (r: Self)
        ensures
            r.client == self.client,
            r.base_url == Some(base_url),
            r.default_headers == self.default_headers,
    {
        HadornClient { base_url: Some(base_url), ..self }
    }

    /// Sets the default headers every request starts from.
    pub fn with_default_headers(self, default_headers: Vec<StrTuple>) -> (r: Self)
        ensures
            r.client == self.client,
            r.default_headers == Some(default_headers),
            r.base_url == self.base_url,
    {
        HadornClient { default_headers: Some(default_headers), ..self }
    }
}

impl Hadorn for HadornClient {
    fn client(&self) -> (r: &reqwest::Client)
        ensures
            r == &self.client,
    {
        &self.client
    }

    fn base_url(&self) -> (r: Option<&String>)
        ensures
            match r {
                Some(b) => self.base_url == Some(*b),
                None => self.base_url is None,
            },
    {
        self.base_url.as_ref()
    }

    fn default_headers(&self) -> (r: Option<&Vec<StrTuple>>)
        ensures
            match r {
                Some(h) => self.default_headers == Some(*h),
                None => self.default_headers is None,
            },
    {
        self.default_headers.as_ref()
    }
}

} // verus!
