//! A request as an endpoint describes it, before anything is sent.

use vstd::prelude::*;

verus! {

/// The verb of a request.
#[derive(Debug, Clone, Copy, PartialEq, Eq, Structural)]
pub enum Method {
    Get,
    Put,
    Post,
    Delete,
}

/// One call of an endpoint: what to send, and where.
#[derive(Debug, Clone)]
pub struct Request {
    /// The verb.
    pub method: Method,
    /// The path below the client's host, with the query string where the
    /// endpoint has one.
    pub url: String,
    /// The body as JSON text, for the endpoints that send one.
    pub body: Option<Vec<u8>>,
}

impl Request {
    /// Whether this is the request with the given verb, path and body.
    pub open spec fn is(&self, method: Method, url: Seq<char>, body: Option<Seq<u8>>) -> bool {
        &&& self.method == method
        &&& self.url@ == url
        &&& match (self.body, body) {
            (Some(sent), Some(wanted)) => sent@ == wanted,
            (None, None) => true,
            _ => false,
        }
    }

    /// A request without a body.
    pub fn new(method: Method, url: String) -> (r: Request)
        ensures
            r.is(method, url@, None),
    {
        Request { method, url, body: None }
    }

    /// A request that carries a body.
    pub fn with_body(method: Method, url: String, body: Vec<u8>) -> (r: Request)
        ensures
            r.is(method, url@, Some(body@)),
    {
        Request { method, url, body: Some(body) }
    }
}

} // verus!
