//! Favorite templates: the templates that a user has marked.

use vstd::prelude::*;
use vstd::string::*;
use crate::client::Client;
use crate::path::{encode_path, encode_path_spec};
use crate::request::{Method, Request};

verus! {

/// The favorite-template endpoints of one client.
pub struct FavoriteTemplates {
    pub client: Client,
}

impl FavoriteTemplates {
    /// The endpoints as seen through `client`.
    pub fn new(client: Client) -> (endpoints: Self)
        ensures
            endpoints.client == client,
    {
        FavoriteTemplates { client }
    }

    /// Lists the caller's favorite templates:
    /// `GET /v2.1/accounts/{accountId}/favorite_templates`.
    pub fn get(&self, account_id: &str) -> (request: Request)
        ensures
            request.is(
                Method::Get,
                "/v2.1/accounts/"@ + encode_path_spec(account_id@) + "/favorite_templates"@,
                None,
            ),
    {
        let mut url = "/v2.1/accounts/".to_owned();
        url.append(encode_path(account_id).as_str());
        url.append("/favorite_templates");
        Request::new(Method::Get, url)
    }

    /// Marks templates as favorites:
    /// `PUT /v2.1/accounts/{accountId}/favorite_templates`.
    ///
    /// The body is the JSON text of the templates to mark.
    pub fn put_template(&self, account_id: &str, body: Vec<u8>) -> (request: Request)
        ensures
            request.is(
                Method::Put,
                "/v2.1/accounts/"@ + encode_path_spec(account_id@) + "/favorite_templates"@,
                Some(body@),
            ),
    {
        let mut url = "/v2.1/accounts/".to_owned();
        url.append(encode_path(account_id).as_str());
        url.append("/favorite_templates");
        Request::with_body(Method::Put, url, body)
    }

    /// Takes the mark off templates:
    /// `DELETE /v2.1/accounts/{accountId}/favorite_templates`.
    ///
    /// The body is the JSON text of the templates to unmark.
    pub fn un_template(&self, account_id: &str, body: Vec<u8>) -> (request: Request)
        ensures
            request.is(
                Method::Delete,
                "/v2.1/accounts/"@ + encode_path_spec(account_id@) + "/favorite_templates"@,
                Some(body@),
            ),
    {
        let mut url = "/v2.1/accounts/".to_owned();
        url.append(encode_path(account_id).as_str());
        url.append("/favorite_templates");
        Request::with_body(Method::Delete, url, body)
    }
}

} // verus!
