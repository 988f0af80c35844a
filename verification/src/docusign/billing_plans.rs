//! Billing plans: the plan of an account, and the plans on offer.

use vstd::prelude::*;
use vstd::string::*;
use crate::client::Client;
use crate::path::{encode_path, encode_path_spec};
use crate::query::{query_of, query_string, texts};
use crate::request::{Method, Request};

verus! {

/// The billing-plan endpoints of one client.
pub struct BillingPlans {
    pub client: Client,
}

impl BillingPlans {
    /// The endpoints as seen through `client`.
    pub fn new(client: Client) -> (endpoints: Self)
        ensures
            endpoints.client == client,
    {
        BillingPlans { client }
    }

    /// Gets the billing plan of an account:
    /// `GET /v2.1/accounts/{accountId}/billing_plan`.
    ///
    /// The answer holds the current plan, its successor plans, the billing
    /// address and the credit card on file; of a card number only the last four
    /// digits are shown. Each of the three options is sent only when it is not
    /// empty: `include_credit_card_information` set to `true` asks for the
    /// payment information, `include_metadata` set to `true` asks for
    /// `canUpgrade`, `renewalStatus` and the supported countries, and
    /// `include_successor_plans` set to `false` leaves the successor plans out.
    pub fn billing_plan_get(
        &self,
        account_id: &str,
        include_credit_card_information: &str,
        include_metadata: &str,
        include_successor_plans: &str,
    ) -> (request: Request)
        ensures
            request.is(
                Method::Get,
                "/v2.1/accounts/"@ + encode_path_spec(account_id@) + "/billing_plan?"@ + query_of(
                    seq![
                        ("include_credit_card_information"@, include_credit_card_information@),
                        ("include_metadata"@, include_metadata@),
                        ("include_successor_plans"@, include_successor_plans@),
                    ],
                ),
                None,
            ),
    {
        let params = [
            ("include_credit_card_information", include_credit_card_information),
            ("include_metadata", include_metadata),
            ("include_successor_plans", include_successor_plans),
        ];
        let query = query_string(&params);
        assert(texts(params@) =~= seq![
            ("include_credit_card_information"@, include_credit_card_information@),
            ("include_metadata"@, include_metadata@),
            ("include_successor_plans"@, include_successor_plans@),
        ]);
        let mut url = "/v2.1/accounts/".to_owned();
        url.append(encode_path(account_id).as_str());
        url.append("/billing_plan?");
        url.append(query.as_str());
        Request::new(Method::Get, url)
    }

    /// Updates the billing plan of an account:
    /// `PUT /v2.1/accounts/{accountId}/billing_plan`.
    ///
    /// The body is the JSON text of the new plan, billing address and credit
    /// card. `preview_billing_plan` is sent only when it is not empty.
    pub fn billing_plan_put(
        &self,
        account_id: &str,
        preview_billing_plan: &str,
        body: Vec<u8>,
    ) -> (request: Request)
        ensures
            request.is(
                Method::Put,
                "/v2.1/accounts/"@ + encode_path_spec(account_id@) + "/billing_plan?"@ + query_of(
                    seq![
                        ("preview_billing_plan"@, preview_billing_plan@),
                    ],
                ),
                Some(body@),
            ),
    {
        let params = [("preview_billing_plan", preview_billing_plan)];
        let query = query_string(&params);
        assert(texts(params@) =~= seq![("preview_billing_plan"@, preview_billing_plan@)]);
        let mut url = "/v2.1/accounts/".to_owned();
        url.append(encode_path(account_id).as_str());
        url.append("/billing_plan?");
        url.append(query.as_str());
        Request::with_body(Method::Put, url, body)
    }

    /// Gets the credit card on file for an account:
    /// `GET /v2.1/accounts/{accountId}/billing_plan/credit_card`.
    pub fn billing_plan_get_credit_card_info(&self, account_id: &str) -> (request: Request)
        ensures
            request.is(
                Method::Get,
                "/v2.1/accounts/"@ + encode_path_spec(account_id@) + "/billing_plan/credit_card"@,
                None,
            ),
    {
        let mut url = "/v2.1/accounts/".to_owned();
        url.append(encode_path(account_id).as_str());
        url.append("/billing_plan/credit_card");
        Request::new(Method::Get, url)
    }

    /// Gets what is known of a pending downgrade of an account's plan:
    /// `GET /v2.1/accounts/{accountId}/billing_plan/downgrade`.
    pub fn billing_plan_get_downgrade_request_info(&self, account_id: &str) -> (request: Request)
        ensures
            request.is(
                Method::Get,
                "/v2.1/accounts/"@ + encode_path_spec(account_id@) + "/billing_plan/downgrade"@,
                None,
            ),
    {
        let mut url = "/v2.1/accounts/".to_owned();
        url.append(encode_path(account_id).as_str());
        url.append("/billing_plan/downgrade");
        Request::new(Method::Get, url)
    }

    /// Queues a downgrade of an account's plan:
    /// `PUT /v2.1/accounts/{accountId}/billing_plan/downgrade`.
    ///
    /// The body is the JSON text of the downgrade request.
    pub fn billing_plan_put_downgrade_account(
        &self,
        account_id: &str,
        body: Vec<u8>,
    ) -> (request: Request)
        ensures
            request.is(
                Method::Put,
                "/v2.1/accounts/"@ + encode_path_spec(account_id@) + "/billing_plan/downgrade"@,
                Some(body@),
            ),
    {
        let mut url = "/v2.1/accounts/".to_owned();
        url.append(encode_path(account_id).as_str());
        url.append("/billing_plan/downgrade");
        Request::with_body(Method::Put, url, body)
    }

    /// Completes a purchase of envelopes for an account:
    /// `PUT /v2.1/accounts/{accountId}/billing_plan/purchased_envelopes`.
    ///
    /// The body is the JSON text of the purchase. The service keeps this
    /// endpoint for its own use.
    pub fn purchased_envelopes_put(&self, account_id: &str, body: Vec<u8>) -> (request: Request)
        ensures
            request.is(
                Method::Put,
                "/v2.1/accounts/"@
                    + encode_path_spec(account_id@)
                    + "/billing_plan/purchased_envelopes"@,
                Some(body@),
            ),
    {
        let mut url = "/v2.1/accounts/".to_owned();
        url.append(encode_path(account_id).as_str());
        url.append("/billing_plan/purchased_envelopes");
        Request::with_body(Method::Put, url, body)
    }

    /// Lists the billing plans of a distributor: `GET /v2.1/billing_plans`.
    pub fn get(&self) -> (request: Request)
        ensures
            request.is(
                Method::Get,
                "/v2.1/billing_plans"@,
                None,
            ),
    {
        let url = "/v2.1/billing_plans".to_owned();
        Request::new(Method::Get, url)
    }

    /// Gets the details of one billing plan:
    /// `GET /v2.1/billing_plans/{billingPlanId}`.
    pub fn get_plan(&self, billing_plan_id: &str) -> (request: Request)
        ensures
            request.is(
                Method::Get,
                "/v2.1/billing_plans/"@ + encode_path_spec(billing_plan_id@),
                None,
            ),
    {
        let mut url = "/v2.1/billing_plans/".to_owned();
        url.append(encode_path(billing_plan_id).as_str());
        Request::new(Method::Get, url)
    }
}

} // verus!
