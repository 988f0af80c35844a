//! Identity verification: the workflows that an account can ask of its signers.

use vstd::prelude::*;
use vstd::string::*;
use crate::client::Client;
use crate::path::{encode_path, encode_path_spec};
use crate::request::{Method, Request};

verus! {

/// The identity-verification endpoints of one client.
pub struct IdentityVerifications {
    pub client: Client,
}

impl IdentityVerifications {
    /// The endpoints as seen through `client`.
    pub fn new(client: Client) -> (endpoints: Self)
        ensures
            endpoints.client == client,
    {
        IdentityVerifications { client }
    }

    /// Lists the identity verification workflows open to an account:
    /// `GET /v2.1/accounts/{accountId}/identity_verification`.
    ///
    /// The caller has to be an administrator of the account or a sender.
    pub fn account_identity_verification_get(&self, account_id: &str) -> (request: Request)
        ensures
            request.is(
                Method::Get,
                "/v2.1/accounts/"@ + encode_path_spec(account_id@) + "/identity_verification"@,
                None,
            ),
    {
        let mut url = "/v2.1/accounts/".to_owned();
        url.append(encode_path(account_id).as_str());
        url.append("/identity_verification");
        Request::new(Method::Get, url)
    }
}

} // verus!
