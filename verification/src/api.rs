//! The API client's addressing: base URL and bearer credentials.

use vstd::prelude::*;
use crate::text::{concat, lemma_trim_end_char, trim_end_char, trim_end_matches};

verus! {

/// Client for the OS API: where it is and which token it presents. The
/// requests themselves are made by the program around this library.
#[derive(Clone)]
pub struct ApiClient {
    base_url: String,
    token: String,
}

impl ApiClient {
    pub closed spec fn spec_base_url(&self) -> Seq<char> {
        self.base_url@
    }

    pub closed spec fn spec_token(&self) -> Seq<char> {
        self.token@
    }

    /// A client for the API at `base_url` (trailing `/`s dropped) that
    /// presents `token`.
    pub fn new(base_url: &str, token: &str) -> (c: Self)
        ensures
            c.spec_base_url() == trim_end_char(base_url@, '/'),
            c.spec_token() == token@,
            c.spec_base_url().len() > 0 ==> c.spec_base_url().last() != '/',
    {
        proof {
            lemma_trim_end_char(base_url@, '/');
        }
        ApiClient { base_url: trim_end_matches(base_url, '/'), token: String::from_str(token) }
    }

    /// The API's base URL.
    pub fn base_url(&self) -> (r: &str)
        ensures
            r@ == self.spec_base_url(),
    {
        self.base_url.as_str()
    }

    /// The token presented to the API.
    pub fn token(&self) -> (r: &str)
        ensures
            r@ == self.spec_token(),
    {
        self.token.as_str()
    }

    /// The full URL of an API path (the base URL followed by the path).
    pub fn url(&self, path: &str) -> (r: String)
        ensures
            r@ == self.spec_base_url() + path@,
    {
        concat(self.base_url.as_str(), path)
    }

    /// The `Authorization` header value: `Bearer <token>`.
    pub fn authorization(&self) -> (r: String)
        ensures
            r@ == "Bearer "@ + self.spec_token(),
    {
        concat("Bearer ", self.token.as_str())
    }

    /// Whether the client has a token configured.
    pub fn is_authenticated(&self) -> (r: bool)
        ensures
            r == (self.spec_token().len() > 0),
    {
        !self.token.as_str().is_empty()
    }
}

} // verus!
