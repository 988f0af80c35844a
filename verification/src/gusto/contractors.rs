//! Contractors of a company. A contractor or a company is named by its id or
//! its UUID.

use vstd::prelude::*;
use vstd::string::*;
use crate::client::Client;
use crate::pagination::Pager;
use crate::path::{encode_path, encode_path_spec};
use crate::request::{Method, Request};

verus! {

/// The contractor endpoints of one client.
pub struct Contractors {
    pub client: Client,
}

impl Contractors {
    /// The endpoints as seen through `client`.
    pub fn new(client: Client) -> (endpoints: Self)
        ensures
            endpoints.client == client,
    {
        Contractors { client }
    }

    /// Gets a contractor: `GET /v1/contractors/{contractor_id_or_uuid}`.
    pub fn get_v_1_contractors_contractor_id(
        &self,
        contractor_id_or_uuid: &str,
    ) -> (request: Request)
        ensures
            request.is(
                Method::Get,
                "/v1/contractors/"@ + encode_path_spec(contractor_id_or_uuid@),
                None,
            ),
    {
        let mut url = "/v1/contractors/".to_owned();
        url.append(encode_path(contractor_id_or_uuid).as_str());
        Request::new(Method::Get, url)
    }

    /// Updates a contractor: `PUT /v1/contractors/{contractor_id_or_uuid}`.
    ///
    /// The body is the JSON text of the fields to change.
    pub fn put_v_1_contractors_contractor_id(
        &self,
        contractor_id_or_uuid: &str,
        body: Vec<u8>,
    ) -> (request: Request)
        ensures
            request.is(
                Method::Put,
                "/v1/contractors/"@ + encode_path_spec(contractor_id_or_uuid@),
                Some(body@),
            ),
    {
        let mut url = "/v1/contractors/".to_owned();
        url.append(encode_path(contractor_id_or_uuid).as_str());
        Request::with_body(Method::Put, url, body)
    }

    /// Gets the contractors of a company:
    /// `GET /v1/companies/{company_id_or_uuid}/contractors`.
    ///
    /// The list holds all of them: active and inactive, individuals and
    /// businesses. This asks for one page; see
    /// `get_all_v_1_companies_company_id_contractors` for the whole list.
    pub fn get_v_1_companies_company_id_contractors(
        &self,
        company_id_or_uuid: &str,
    ) -> (request: Request)
        ensures
            request.is(
                Method::Get,
                "/v1/companies/"@ + encode_path_spec(company_id_or_uuid@) + "/contractors"@,
                None,
            ),
    {
        let mut url = "/v1/companies/".to_owned();
        url.append(encode_path(company_id_or_uuid).as_str());
        url.append("/contractors");
        Request::new(Method::Get, url)
    }

    /// Starts reading all the contractors of a company, page after page:
    /// `GET /v1/companies/{company_id_or_uuid}/contractors`.
    ///
    /// Hands out the request for the first page and a pager that has gathered
    /// nothing yet. The caller sends the request, gives the outcome to the
    /// pager, and fetches what the pager asks for until it is done.
    pub fn get_all_v_1_companies_company_id_contractors<T>(
        &self,
        company_id_or_uuid: &str,
    ) -> (first: (Request, Pager<T>))
        ensures
            first.0.is(
                Method::Get,
                "/v1/companies/"@ + encode_path_spec(company_id_or_uuid@) + "/contractors"@,
                None,
            ),
            first.1@ == Seq::<T>::empty(),
    {
        let mut url = "/v1/companies/".to_owned();
        url.append(encode_path(company_id_or_uuid).as_str());
        url.append("/contractors");
        (Request::new(Method::Get, url), Pager::new())
    }

    /// Creates a contractor, an individual or a business:
    /// `POST /v1/companies/{company_id_or_uuid}/contractors`.
    ///
    /// The body is the JSON text of the new contractor.
    pub fn post_v_1_companies_company_id_contractors(
        &self,
        company_id_or_uuid: &str,
        body: Vec<u8>,
    ) -> (request: Request)
        ensures
            request.is(
                Method::Post,
                "/v1/companies/"@ + encode_path_spec(company_id_or_uuid@) + "/contractors"@,
                Some(body@),
            ),
    {
        let mut url = "/v1/companies/".to_owned();
        url.append(encode_path(company_id_or_uuid).as_str());
        url.append("/contractors");
        Request::with_body(Method::Post, url, body)
    }
}

} // verus!
