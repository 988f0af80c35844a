//! The settings that every request to one service shares.

use vstd::prelude::*;
use vstd::string::*;
use crate::request::Request;

verus! {

/// Where a service lives and the token that requests to it carry.
#[derive(Debug, Clone)]
pub struct Client {
    /// The address that every path is appended to, such as
    /// `https://api.example.com`.
    pub host: String,
    /// The bearer token sent with each request.
    pub token: String,
}

impl Client {
    /// A client for the service at `host`.
    pub fn new(host: String, token: String) -> (client: Client)
        ensures
            client.host == host,
            client.token == token,
    {
        Client { host, token }
    }

    /// The full address of a request: the host, then the request's path.
    pub fn url(&self, request: &Request) -> (address: String)
        ensures
            address@ == self.host@ + request.url@,
    {
        let mut address = self.host.clone();
        address.append(request.url.as_str());
        address
    }
}

} // verus!
