//! The Receipts model obtains receipt-like details for specific transactions.
use super::common::{Error, Problem};
use crate::client::Client;
use crate::http::{ApiRequest, BodyRead, HttpMethod, Outcome, QueryParam, QueryValue, QueryValueView, RequestBody, StatusOutcome, integer_entry, push_integer, push_param, query_view};
use vstd::prelude::*;

verus! {

/// Payment card details displayed on the receipt.
#[derive(Debug, Clone, Default)]
pub struct ReceiptCard {
    /// Card last 4 digits.
    pub last_4_digits: Option<String>,
    /// Card Scheme.
    pub type_: Option<String>,
}

/// Receipt merchant data
#[derive(Debug, Clone, Default)]
pub struct ReceiptMerchantData {
    /// Merchant profile details displayed on the receipt.
    pub merchant_profile: Option<ReceiptMerchantDataMerchantProfile>,
    /// Locale used for rendering localized receipt fields.
    pub locale: Option<String>,
}

/// Card reader details displayed on the receipt.
#[derive(Debug, Clone, Default)]
pub struct ReceiptReader {
    /// Reader serial number.
    pub code: Option<String>,
    /// Reader type.
    pub type_: Option<String>,
}

/// Acquirer-specific metadata related to the card authorization.
#[derive(Debug, Clone, Default)]
pub struct ReceiptAcquirerData {
    pub tid: Option<String>,
    pub authorization_code: Option<String>,
    pub return_code: Option<String>,
    pub local_time: Option<String>,
}

#[derive(Debug, Clone, Default)]
pub struct ReceiptMerchantDataMerchantProfileAddress {
    pub address_line1: Option<String>,
    pub address_line2: Option<String>,
    pub city: Option<String>,
    pub country: Option<String>,
    pub country_en_name: Option<String>,
    pub country_native_name: Option<String>,
    pub region_name: Option<String>,
    pub post_code: Option<String>,
    pub landline: Option<String>,
}

/// Merchant profile details displayed on the receipt.
#[derive(Debug, Clone, Default)]
pub struct ReceiptMerchantDataMerchantProfile {
    pub merchant_code: Option<String>,
    pub business_name: Option<String>,
    pub company_registration_number: Option<String>,
    pub vat_id: Option<String>,
    pub website: Option<String>,
    pub email: Option<String>,
    pub language: Option<String>,
    pub address: Option<ReceiptMerchantDataMerchantProfileAddress>,
}

/// Debit/Credit.
///
/// Example: `CREDIT`
#[derive(Debug, Clone)]
pub enum ReceiptTransactionProcessAs {
    Credit,
    Debit,
    Other(String),
}

#[derive(Debug, Clone, Default)]
pub struct GetParams {
    /// Merchant code.
    pub mid: String,
    /// The ID of the transaction event (refund).
    pub tx_event_id: Option<i64>,
}

/// The error bodies that the endpoint documents, by status.
#[derive(Debug)]
pub enum GetErrorBody {
    BadRequest(Error),
    Unauthorized(Problem),
    NotFound(Error),
}

/// Client for the Receipts API endpoints.
#[derive(Debug)]
pub struct ReceiptsClient<'a> {
    client: &'a Client,
}

impl<'a> ReceiptsClient<'a> {
    /// The client these endpoints are called through.
    pub closed spec fn bound_client(&self) -> &'a Client {
        self.client
    }

    pub(crate) fn new(client: &'a Client) -> (r: Self)
        ensures
            r.bound_client() == client,
    {
        Self { client }
    }

    /// Returns a reference to the underlying client.
    pub fn client(&self) -> (r: &Client)
        ensures
            r == self.bound_client(),
    {
        self.client
    }

    /// Retrieve receipt details: the request that this endpoint sends.
    pub fn get_request(&self, id: &str, params: GetParams) -> (r: ApiRequest)
        ensures
            r.method == HttpMethod::Get,
            r.path@ == "/v1.1/receipts/"@ + id@,
            r.url@ == self.bound_client().base_url_view() + r.path@,
            query_view(r.query@) == seq![("mid"@, QueryValueView::Text(params.mid@))] + integer_entry("tx_event_id"@, params.tx_event_id),
            r.responses@ == seq![
                (StatusOutcome { status: 200u16, outcome: Outcome::Success { variant: None, body: BodyRead::Json("Receipt") } }),
                (StatusOutcome { status: 400u16, outcome: Outcome::Api { variant: "GetErrorBody::BadRequest", body: BodyRead::Json("Error") } }),
                (StatusOutcome { status: 401u16, outcome: Outcome::Api { variant: "GetErrorBody::Unauthorized", body: BodyRead::Json("Problem") } }),
                (StatusOutcome { status: 404u16, outcome: Outcome::Api { variant: "GetErrorBody::NotFound", body: BodyRead::Json("Error") } }),
            ],
            r.otherwise == (Outcome::Unexpected { body: BodyRead::Bytes }),
            r.runtime_headers == true,
            r.body == RequestBody::Empty,
    {
        let mut path = String::from_str("/v1.1/receipts/");
        path.append(id);
        let mut url = self.client.base_url().to_owned();
        url.append(path.as_str());
        let mut query: Vec<QueryParam> = Vec::new();
        assert(query_view(query@) =~= seq![]);
        push_param(&mut query, "mid", QueryValue::Text(params.mid));
        push_integer(&mut query, "tx_event_id", params.tx_event_id);
        ApiRequest {
            method: HttpMethod::Get,
            path,
            url,
            query,
            responses: vec![
                StatusOutcome { status: 200, outcome: Outcome::Success { variant: None, body: BodyRead::Json("Receipt") } },
                StatusOutcome { status: 400, outcome: Outcome::Api { variant: "GetErrorBody::BadRequest", body: BodyRead::Json("Error") } },
                StatusOutcome { status: 401, outcome: Outcome::Api { variant: "GetErrorBody::Unauthorized", body: BodyRead::Json("Problem") } },
                StatusOutcome { status: 404, outcome: Outcome::Api { variant: "GetErrorBody::NotFound", body: BodyRead::Json("Error") } },
            ],
            otherwise: Outcome::Unexpected { body: BodyRead::Bytes },
            runtime_headers: true,
            body: RequestBody::Empty,
        }
    }
}

} // verus!
