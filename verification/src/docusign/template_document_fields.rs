//! Custom fields on a document of a template. A document is named by its number
//! within the template, written in decimal.

use vstd::prelude::*;
use vstd::string::*;
use crate::client::Client;
use crate::path::{encode_path, encode_path_spec};
use crate::request::{Method, Request};

verus! {

/// The endpoints for the custom document fields of templates.
pub struct TemplateDocumentFields {
    pub client: Client,
}

impl TemplateDocumentFields {
    /// The endpoints as seen through `client`.
    pub fn new(client: Client) -> (endpoints: Self)
        ensures
            endpoints.client == client,
    {
        TemplateDocumentFields { client }
    }

    /// Gets the custom fields of a template's document:
    /// `GET /v2.1/accounts/{accountId}/templates/{templateId}/documents/{documentId}/fields`.
    pub fn document_fields_get_template(
        &self,
        account_id: &str,
        document_id: &str,
        template_id: &str,
    ) -> (request: Request)
        ensures
            request.is(
                Method::Get,
                "/v2.1/accounts/"@
                    + encode_path_spec(account_id@)
                    + "/templates/"@
                    + encode_path_spec(template_id@)
                    + "/documents/"@
                    + encode_path_spec(document_id@)
                    + "/fields"@,
                None,
            ),
    {
        let mut url = "/v2.1/accounts/".to_owned();
        url.append(encode_path(account_id).as_str());
        url.append("/templates/");
        url.append(encode_path(template_id).as_str());
        url.append("/documents/");
        url.append(encode_path(document_id).as_str());
        url.append("/fields");
        Request::new(Method::Get, url)
    }

    /// Updates custom fields of a template's document:
    /// `PUT /v2.1/accounts/{accountId}/templates/{templateId}/documents/{documentId}/fields`.
    ///
    /// The body is the JSON text of the fields to change.
    pub fn document_fields_put_template(
        &self,
        account_id: &str,
        document_id: &str,
        template_id: &str,
        body: Vec<u8>,
    ) -> (request: Request)
        ensures
            request.is(
                Method::Put,
                "/v2.1/accounts/"@
                    + encode_path_spec(account_id@)
                    + "/templates/"@
                    + encode_path_spec(template_id@)
                    + "/documents/"@
                    + encode_path_spec(document_id@)
                    + "/fields"@,
                Some(body@),
            ),
    {
        let mut url = "/v2.1/accounts/".to_owned();
        url.append(encode_path(account_id).as_str());
        url.append("/templates/");
        url.append(encode_path(template_id).as_str());
        url.append("/documents/");
        url.append(encode_path(document_id).as_str());
        url.append("/fields");
        Request::with_body(Method::Put, url, body)
    }

    /// Adds custom fields to a template's document:
    /// `POST /v2.1/accounts/{accountId}/templates/{templateId}/documents/{documentId}/fields`.
    ///
    /// The body is the JSON text of the fields to add.
    pub fn document_fields_post_template(
        &self,
        account_id: &str,
        document_id: &str,
        template_id: &str,
        body: Vec<u8>,
    ) -> (request: Request)
        ensures
            request.is(
                Method::Post,
                "/v2.1/accounts/"@
                    + encode_path_spec(account_id@)
                    + "/templates/"@
                    + encode_path_spec(template_id@)
                    + "/documents/"@
                    + encode_path_spec(document_id@)
                    + "/fields"@,
                Some(body@),
            ),
    {
        let mut url = "/v2.1/accounts/".to_owned();
        url.append(encode_path(account_id).as_str());
        url.append("/templates/");
        url.append(encode_path(template_id).as_str());
        url.append("/documents/");
        url.append(encode_path(document_id).as_str());
        url.append("/fields");
        Request::with_body(Method::Post, url, body)
    }

    /// Removes custom fields from a template's document:
    /// `DELETE /v2.1/accounts/{accountId}/templates/{templateId}/documents/{documentId}/fields`.
    ///
    /// The body is the JSON text of the fields to remove.
    pub fn document_fields_delete_template(
        &self,
        account_id: &str,
        document_id: &str,
        template_id: &str,
        body: Vec<u8>,
    ) -> (request: Request)
        ensures
            request.is(
                Method::Delete,
                "/v2.1/accounts/"@
                    + encode_path_spec(account_id@)
                    + "/templates/"@
                    + encode_path_spec(template_id@)
                    + "/documents/"@
                    + encode_path_spec(document_id@)
                    + "/fields"@,
                Some(body@),
            ),
    {
        let mut url = "/v2.1/accounts/".to_owned();
        url.append(encode_path(account_id).as_str());
        url.append("/templates/");
        url.append(encode_path(template_id).as_str());
        url.append("/documents/");
        url.append(encode_path(document_id).as_str());
        url.append("/fields");
        Request::with_body(Method::Delete, url, body)
    }
}

} // verus!
