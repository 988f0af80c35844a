use api_clients::client::Client;
use api_clients::gusto::contractors::Contractors;
use api_clients::pagination::{Batch, Pager, Step};
use api_clients::request::Method;

fn contractors() -> Contractors {
    Contractors::new(Client::new("https://api.gusto.com".to_string(), "token".to_string()))
}

#[test]
fn contractors_new_keeps_the_client() {
    let contractors = contractors();
    assert_eq!(contractors.client.host, "https://api.gusto.com");
    assert_eq!(contractors.client.token, "token");
}

#[test]
fn get_contractor_request() {
    let request = contractors().get_v_1_contractors_contractor_id("7757842065202782");
    assert_eq!(request.method, Method::Get);
    assert_eq!(request.url, "/v1/contractors/7757842065202782");
    assert_eq!(request.body, None);
}

#[test]
fn put_contractor_request() {
    let body = b"{\"version\":\"56a489ce86ed6c1b0f0cecc4050a0b01\"}".to_vec();
    let request = contractors().put_v_1_contractors_contractor_id("c 1", body.clone());
    assert_eq!(request.method, Method::Put);
    assert_eq!(request.url, "/v1/contractors/c%201");
    assert_eq!(request.body, Some(body));
}

#[test]
fn get_company_contractors_request() {
    let request = contractors().get_v_1_companies_company_id_contractors("company#1");
    assert_eq!(request.method, Method::Get);
    assert_eq!(request.url, "/v1/companies/company%231/contractors");
    assert_eq!(request.body, None);
}

#[test]
fn post_company_contractor_request() {
    let body = b"{\"type\":\"Individual\"}".to_vec();
    let request = contractors().post_v_1_companies_company_id_contractors("42", body.clone());
    assert_eq!(request.method, Method::Post);
    assert_eq!(request.url, "/v1/companies/42/contractors");
    assert_eq!(request.body, Some(body));
}

#[test]
fn get_all_company_contractors_starts_with_the_list_request() {
    let (request, pager): (_, Pager<String>) =
        contractors().get_all_v_1_companies_company_id_contractors("42");
    assert_eq!(request.method, Method::Get);
    assert_eq!(request.url, "/v1/companies/42/contractors");
    assert_eq!(request.body, None);
    let only = Batch { items: vec!["ada".to_string()], next: String::new() };
    match pager.advance::<String>(Ok(only)) {
        Step::Done(items) => assert_eq!(items, vec!["ada".to_string()]),
        other => panic!("{:?}", other),
    }
}

#[test]
fn get_all_company_contractors_asks_for_the_same_page_as_the_plain_request() {
    let plain = contractors().get_v_1_companies_company_id_contractors("a b");
    let (first, _pager): (_, Pager<u32>) = contractors().get_all_v_1_companies_company_id_contractors("a b");
    assert_eq!(plain.method, first.method);
    assert_eq!(plain.url, first.url);
    assert_eq!(plain.body, first.body);
}
