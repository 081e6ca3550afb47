use sumup::http::{request_headers, ApiRequest, BodyRead, HttpMethod, Outcome, QueryValue, RequestBody, StatusOutcome};
use sumup::resources::common::PaymentType;
use sumup::resources::transactions::{ListParams, ListParamsOrder, ListParamsStatusesItem};
use sumup::{Authorization, Client};

fn names(request: &ApiRequest) -> Vec<String> {
    request.query.iter().map(|p| p.name.clone()).collect()
}

fn text_value(value: &QueryValue) -> Option<&str> {
    match value {
        QueryValue::Text(s) => Some(s.as_str()),
        _ => None,
    }
}

#[test]
fn transactions_list_request_has_path_and_ordered_query() {
    let client = Client::default().with_base_url("https://api.example.test");
    let params = ListParams {
        transaction_code: Some("TEENSK4W2K".to_string()),
        order: Some(ListParamsOrder::Descending),
        limit: Some(10),
        statuses: Some(vec![
            ListParamsStatusesItem::Successful,
            ListParamsStatusesItem::Other("CUSTOM".to_string()),
        ]),
        payment_types: Some(vec![PaymentType::Ecom]),
        oldest_ref: Some("ref-1".to_string()),
        ..Default::default()
    };
    let request = client.transactions().list_request("MC123", params);
    assert_eq!(request.method, HttpMethod::Get);
    assert_eq!(
        request.url,
        "https://api.example.test/v2.1/merchants/MC123/transactions/history"
    );
    assert_eq!(
        names(&request),
        vec!["transaction_code", "order", "limit", "statuses[]", "payment_types", "oldest_ref"]
    );
    assert_eq!(text_value(&request.query[0].value), Some("TEENSK4W2K"));
    assert_eq!(text_value(&request.query[1].value), Some("descending"));
    assert!(matches!(request.query[2].value, QueryValue::Integer(10)));
    match &request.query[3].value {
        QueryValue::Texts(v) => assert_eq!(v, &vec!["SUCCESSFUL".to_string(), "CUSTOM".to_string()]),
        other => panic!("unexpected value {:?}", other),
    }
    match &request.query[4].value {
        QueryValue::Texts(v) => assert_eq!(v, &vec!["ECOM".to_string()]),
        other => panic!("unexpected value {:?}", other),
    }
    assert_eq!(text_value(&request.query[5].value), Some("ref-1"));
    assert_eq!(request.path, "/v2.1/merchants/MC123/transactions/history");
    assert_eq!(
        request.responses,
        vec![
            StatusOutcome {
                status: 200,
                outcome: Outcome::Success { variant: None, body: BodyRead::Json("ListResponse") },
            },
            StatusOutcome {
                status: 400,
                outcome: Outcome::Api { variant: "ListErrorBody::BadRequest", body: BodyRead::Json("Error") },
            },
            StatusOutcome {
                status: 401,
                outcome: Outcome::Api { variant: "ListErrorBody::Unauthorized", body: BodyRead::Json("Problem") },
            },
        ]
    );
    assert_eq!(request.otherwise, Outcome::Unexpected { body: BodyRead::Bytes });
}

#[test]
fn transactions_list_request_without_params_has_no_query() {
    let client = Client::default();
    let request = client.transactions().list_request("MC1", ListParams::default());
    assert!(request.query.is_empty());
    assert_eq!(request.url, "https://api.sumup.com/v2.1/merchants/MC1/transactions/history");
}

#[test]
fn members_delete_request_uses_delete_and_both_path_segments() {
    let client = Client::default();
    let request = client.members().delete_request("MC9", "mem_42");
    assert_eq!(request.method, HttpMethod::Delete);
    assert_eq!(request.url, "https://api.sumup.com/v0.1/merchants/MC9/members/mem_42");
    assert!(request.query.is_empty());
    assert_eq!(request.outcome(200), Outcome::Success { variant: None, body: BodyRead::Ignored });
    assert_eq!(
        request.outcome(404),
        Outcome::Api { variant: "DeleteMerchantMemberErrorBody::NotFound", body: BodyRead::Ignored }
    );
    assert_eq!(request.outcome(204), Outcome::Unexpected { body: BodyRead::Bytes });
}

#[test]
fn checkouts_process_request_accepts_two_success_statuses() {
    let client = Client::default();
    let request = client.checkouts().process_request("chk_1");
    assert_eq!(request.method, HttpMethod::Put);
    assert_eq!(request.url, "https://api.sumup.com/v0.1/checkouts/chk_1");
    assert_eq!(
        request.outcome(200),
        Outcome::Success { variant: Some("ProcessResponse::Status200"), body: BodyRead::Json("CheckoutSuccess") }
    );
    assert_eq!(
        request.outcome(202),
        Outcome::Success { variant: Some("ProcessResponse::Status202"), body: BodyRead::Json("CheckoutAccepted") }
    );
    assert_eq!(
        request.outcome(400),
        Outcome::Api { variant: "ProcessErrorBody::BadRequest", body: BodyRead::Bytes }
    );
    assert_eq!(
        request.outcome(409),
        Outcome::Api { variant: "ProcessErrorBody::Conflict", body: BodyRead::Json("Error") }
    );
    assert_eq!(request.outcome(500), Outcome::Unexpected { body: BodyRead::Text });
}

#[test]
fn readers_create_request_posts_to_merchant_readers() {
    let client = Client::default().with_base_url("http://localhost:8080");
    let request = client.readers().create_request("MC7");
    assert_eq!(request.method, HttpMethod::Post);
    assert_eq!(request.url, "http://localhost:8080/v0.1/merchants/MC7/readers");
    assert!(matches!(request.outcome(201), Outcome::Success { variant: None, .. }));
    assert_eq!(request.outcome(200), Outcome::Unexpected { body: BodyRead::Bytes });
    assert!(matches!(request.outcome(404), Outcome::Api { variant: "CreateErrorBody::NotFound", .. }));
}

#[test]
fn memberships_list_request_documents_only_success() {
    let client = Client::default();
    let request = client.memberships().list_request(Default::default());
    assert_eq!(request.url, "https://api.sumup.com/v0.1/memberships");
    assert_eq!(request.responses.len(), 1);
    assert_eq!(request.outcome(401), Outcome::Unexpected { body: BodyRead::Bytes });
}

#[test]
fn request_headers_carry_user_agent_and_bearer_token() {
    let client = Client::default().with_authorization(Authorization::api_key("sk_test"));
    let headers = request_headers(&client);
    assert_eq!(
        headers,
        vec![
            ("User-Agent".to_string(), "sumup-rs/v0.1.0".to_string()),
            ("Authorization".to_string(), "Bearer sk_test".to_string()),
        ]
    );
}

#[test]
fn request_headers_without_credentials_only_carry_user_agent() {
    let headers = request_headers(&Client::default());
    assert_eq!(headers, vec![("User-Agent".to_string(), "sumup-rs/v0.1.0".to_string())]);
}

#[test]
fn payouts_list_keeps_a_bad_request_body_raw() {
    let client = Client::default();
    let params = sumup::resources::payouts::ListParams {
        start_date: "2024-01-01".to_string(),
        end_date: "2024-01-31".to_string(),
        ..Default::default()
    };
    let request = client.payouts().list_request("MC1", params);
    assert_eq!(request.url, "https://api.sumup.com/v1.0/merchants/MC1/payouts");
    assert_eq!(request.outcome(400), Outcome::Api { variant: "ListErrorBody::BadRequest", body: BodyRead::Bytes });
    assert_eq!(
        request.outcome(401),
        Outcome::Api { variant: "ListErrorBody::Unauthorized", body: BodyRead::Json("Problem") }
    );
}

#[test]
fn other_error_styles_are_described() {
    let client = Client::default();
    let customer = client.customers().get_request("cus_1");
    assert_eq!(customer.outcome(403), Outcome::Boxed { body: BodyRead::Json("ErrorForbidden") });
    assert_eq!(customer.outcome(500), Outcome::Failed);
    let merchant = client.merchant().get_request(Default::default());
    assert_eq!(merchant.outcome(401), Outcome::ApiParsed { variant: None, body: BodyRead::Json("Error") });
    assert_eq!(merchant.outcome(418), Outcome::ApiRaw);
}

#[test]
fn requests_state_whether_they_carry_a_body() {
    let client = Client::default();
    let create = client.checkouts().create_request();
    assert_eq!(create.body, RequestBody::Json("CheckoutCreateRequest"));
    assert!(create.fits_body(true));
    assert!(!create.fits_body(false));
    let process = client.checkouts().process_request("chk_1");
    assert_eq!(process.body, RequestBody::Json("ProcessCheckout"));
    let checkout = client.readers().create_checkout_request("MC1", "rdr_1");
    assert_eq!(checkout.body, RequestBody::Json("CreateReaderCheckoutRequest"));
    let terminate = client.readers().terminate_checkout_request("MC1", "rdr_1");
    assert_eq!(terminate.method, HttpMethod::Post);
    assert_eq!(terminate.body, RequestBody::Empty);
    assert!(terminate.fits_body(false));
    assert!(!terminate.fits_body(true));
    let refund = client.transactions().refund_request("txn_1");
    assert_eq!(refund.url, "https://api.sumup.com/v0.1/me/refund/txn_1");
    assert_eq!(refund.body, RequestBody::OptionalJson("RefundBody"));
    assert!(refund.fits_body(true));
    assert!(refund.fits_body(false));
}

#[test]
fn payment_methods_request_carries_amount_and_currency() {
    let client = Client::default();
    let request = client.checkouts().list_available_payment_methods_request(
        "MC1",
        Some("9.99".to_string()),
        Some("EUR".to_string()),
    );
    assert_eq!(request.url, "https://api.sumup.com/v0.1/merchants/MC1/payment-methods");
    assert_eq!(names(&request), vec!["amount", "currency"]);
    assert_eq!(text_value(&request.query[0].value), Some("9.99"));
    assert_eq!(
        request.outcome(400),
        Outcome::Api { variant: "ListAvailablePaymentMethodsErrorBody::BadRequest", body: BodyRead::Json("DetailsError") }
    );
    let bare = client.checkouts().list_available_payment_methods_request("MC1", None, None);
    assert!(bare.query.is_empty());
}
