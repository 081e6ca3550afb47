//! Saved customers and their payment instruments: the data model and the
//! request that each endpoint sends.
use super::common::{MandateResponse, PersonalDetails};
use crate::client::Client;
use crate::datetime::{DateTime};
use crate::http::{ApiRequest, BodyRead, HttpMethod, Outcome, QueryParam, RequestBody, StatusOutcome, query_view};
use vstd::prelude::*;

verus! {

/// The list that the endpoint answers with.
pub type ListPaymentInstrumentsResponse = Vec<PaymentInstrumentResponse>;

#[derive(Debug, Clone)]
pub struct Customer {
    /// Unique ID of the customer.
    pub customer_id: String,
    pub personal_details: Option<PersonalDetails>,
}

/// Payment Instrument Response
#[derive(Debug, Clone, Default)]
pub struct PaymentInstrumentResponse {
    /// Unique token identifying the saved payment card for a customer.
    pub token: Option<String>,
    /// Indicates whether the payment instrument is active and can be used for payments. To deactivate it, send a `DELETE` request to the resource endpoint.
    pub active: Option<bool>,
    /// Type of the payment instrument.
    pub type_: Option<String>,
    /// Details of the payment card.
    pub card: Option<PaymentInstrumentResponseCard>,
    pub mandate: Option<MandateResponse>,
    /// Creation date of payment instrument. Response format expressed according to [ISO8601](https://en.wikipedia.org/wiki/ISO_8601) code.
    pub created_at: Option<DateTime>,
}

/// Details of the payment card.
#[derive(Debug, Clone, Default)]
pub struct PaymentInstrumentResponseCard {
    /// Last 4 digits of the payment card number.
    pub last_4_digits: Option<String>,
    /// Issuing card network of the payment card.
    pub type_: Option<String>,
}

#[derive(Debug, Clone, Default)]
pub struct UpdateCustomerBody {
    pub personal_details: Option<PersonalDetails>,
}

/// Client for the Customers API endpoints.
#[derive(Debug)]
pub struct CustomersClient<'a> {
    client: &'a Client,
}

impl<'a> CustomersClient<'a> {
    /// The client these endpoints are called through.
    pub closed spec fn bound_client(&self) -> &'a Client {
        self.client
    }

    pub(crate) fn new(client: &'a Client) -> (r: Self)
        ensures
            r.bound_client() == client,
    {
        Self { client }
    }

    /// Returns a reference to the underlying client.
    pub fn client(&self) -> (r: &Client)
        ensures
            r == self.bound_client(),
    {
        self.client
    }

    /// Create a customer: the request that this endpoint sends.
    pub fn create_request(&self) -> (r: ApiRequest)
        ensures
            r.method == HttpMethod::Post,
            r.path@ == "/v0.1/customers"@,
            r.url@ == self.bound_client().base_url_view() + r.path@,
            r.query@.len() == 0,
            r.responses@ == seq![
                (StatusOutcome { status: 201u16, outcome: Outcome::Success { variant: None, body: BodyRead::Json("Customer") } }),
                (StatusOutcome { status: 401u16, outcome: Outcome::Boxed { body: BodyRead::Json("Error") } }),
                (StatusOutcome { status: 403u16, outcome: Outcome::Boxed { body: BodyRead::Json("ErrorForbidden") } }),
                (StatusOutcome { status: 409u16, outcome: Outcome::Boxed { body: BodyRead::Json("Error") } }),
            ],
            r.otherwise == Outcome::Failed,
            r.runtime_headers == false,
            r.body == (RequestBody::OptionalJson("Customer")),
    {
        let mut path = String::from_str("/v0.1/customers");
        let mut url = self.client.base_url().to_owned();
        url.append(path.as_str());
        let mut query: Vec<QueryParam> = Vec::new();
        assert(query_view(query@) =~= seq![]);
        ApiRequest {
            method: HttpMethod::Post,
            path,
            url,
            query,
            responses: vec![
                StatusOutcome { status: 201, outcome: Outcome::Success { variant: None, body: BodyRead::Json("Customer") } },
                StatusOutcome { status: 401, outcome: Outcome::Boxed { body: BodyRead::Json("Error") } },
                StatusOutcome { status: 403, outcome: Outcome::Boxed { body: BodyRead::Json("ErrorForbidden") } },
                StatusOutcome { status: 409, outcome: Outcome::Boxed { body: BodyRead::Json("Error") } },
            ],
            otherwise: Outcome::Failed,
            runtime_headers: false,
            body: RequestBody::OptionalJson("Customer"),
        }
    }

    /// Retrieve a customer: the request that this endpoint sends.
    pub fn get_request(&self, customer_id: &str) -> (r: ApiRequest)
        ensures
            r.method == HttpMethod::Get,
            r.path@ == "/v0.1/customers/"@ + customer_id@,
            r.url@ == self.bound_client().base_url_view() + r.path@,
            r.query@.len() == 0,
            r.responses@ == seq![
                (StatusOutcome { status: 200u16, outcome: Outcome::Success { variant: None, body: BodyRead::Json("Customer") } }),
                (StatusOutcome { status: 401u16, outcome: Outcome::Boxed { body: BodyRead::Json("Error") } }),
                (StatusOutcome { status: 403u16, outcome: Outcome::Boxed { body: BodyRead::Json("ErrorForbidden") } }),
                (StatusOutcome { status: 404u16, outcome: Outcome::Boxed { body: BodyRead::Json("Error") } }),
            ],
            r.otherwise == Outcome::Failed,
            r.runtime_headers == false,
            r.body == RequestBody::Empty,
    {
        let mut path = String::from_str("/v0.1/customers/");
        path.append(customer_id);
        let mut url = self.client.base_url().to_owned();
        url.append(path.as_str());
        let mut query: Vec<QueryParam> = Vec::new();
        assert(query_view(query@) =~= seq![]);
        ApiRequest {
            method: HttpMethod::Get,
            path,
            url,
            query,
            responses: vec![
                StatusOutcome { status: 200, outcome: Outcome::Success { variant: None, body: BodyRead::Json("Customer") } },
                StatusOutcome { status: 401, outcome: Outcome::Boxed { body: BodyRead::Json("Error") } },
                StatusOutcome { status: 403, outcome: Outcome::Boxed { body: BodyRead::Json("ErrorForbidden") } },
                StatusOutcome { status: 404, outcome: Outcome::Boxed { body: BodyRead::Json("Error") } },
            ],
            otherwise: Outcome::Failed,
            runtime_headers: false,
            body: RequestBody::Empty,
        }
    }

    /// Update a customer: the request that this endpoint sends.
    pub fn update_request(&self, customer_id: &str) -> (r: ApiRequest)
        ensures
            r.method == HttpMethod::Put,
            r.path@ == "/v0.1/customers/"@ + customer_id@,
            r.url@ == self.bound_client().base_url_view() + r.path@,
            r.query@.len() == 0,
            r.responses@ == seq![
                (StatusOutcome { status: 200u16, outcome: Outcome::Success { variant: None, body: BodyRead::Json("Customer") } }),
                (StatusOutcome { status: 401u16, outcome: Outcome::Boxed { body: BodyRead::Json("Error") } }),
                (StatusOutcome { status: 403u16, outcome: Outcome::Boxed { body: BodyRead::Json("ErrorForbidden") } }),
                (StatusOutcome { status: 404u16, outcome: Outcome::Boxed { body: BodyRead::Json("Error") } }),
            ],
            r.otherwise == Outcome::Failed,
            r.runtime_headers == false,
            r.body == (RequestBody::OptionalJson("UpdateCustomerBody")),
    {
        let mut path = String::from_str("/v0.1/customers/");
        path.append(customer_id);
        let mut url = self.client.base_url().to_owned();
        url.append(path.as_str());
        let mut query: Vec<QueryParam> = Vec::new();
        assert(query_view(query@) =~= seq![]);
        ApiRequest {
            method: HttpMethod::Put,
            path,
            url,
            query,
            responses: vec![
                StatusOutcome { status: 200, outcome: Outcome::Success { variant: None, body: BodyRead::Json("Customer") } },
                StatusOutcome { status: 401, outcome: Outcome::Boxed { body: BodyRead::Json("Error") } },
                StatusOutcome { status: 403, outcome: Outcome::Boxed { body: BodyRead::Json("ErrorForbidden") } },
                StatusOutcome { status: 404, outcome: Outcome::Boxed { body: BodyRead::Json("Error") } },
            ],
            otherwise: Outcome::Failed,
            runtime_headers: false,
            body: RequestBody::OptionalJson("UpdateCustomerBody"),
        }
    }

    /// List payment instruments: the request that this endpoint sends.
    pub fn list_payment_instruments_request(&self, customer_id: &str) -> (r: ApiRequest)
        ensures
            r.method == HttpMethod::Get,
            r.path@ == "/v0.1/customers/"@ + customer_id@ + "/payment-instruments"@,
            r.url@ == self.bound_client().base_url_view() + r.path@,
            r.query@.len() == 0,
            r.responses@ == seq![
                (StatusOutcome { status: 200u16, outcome: Outcome::Success { variant: None, body: BodyRead::Json("ListPaymentInstrumentsResponse") } }),
                (StatusOutcome { status: 401u16, outcome: Outcome::Boxed { body: BodyRead::Json("Error") } }),
                (StatusOutcome { status: 403u16, outcome: Outcome::Boxed { body: BodyRead::Json("ErrorForbidden") } }),
                (StatusOutcome { status: 404u16, outcome: Outcome::Boxed { body: BodyRead::Json("Error") } }),
            ],
            r.otherwise == Outcome::Failed,
            r.runtime_headers == false,
            r.body == RequestBody::Empty,
    {
        let mut path = String::from_str("/v0.1/customers/");
        path.append(customer_id);
        path.append("/payment-instruments");
        let mut url = self.client.base_url().to_owned();
        url.append(path.as_str());
        let mut query: Vec<QueryParam> = Vec::new();
        assert(query_view(query@) =~= seq![]);
        ApiRequest {
            method: HttpMethod::Get,
            path,
            url,
            query,
            responses: vec![
                StatusOutcome { status: 200, outcome: Outcome::Success { variant: None, body: BodyRead::Json("ListPaymentInstrumentsResponse") } },
                StatusOutcome { status: 401, outcome: Outcome::Boxed { body: BodyRead::Json("Error") } },
                StatusOutcome { status: 403, outcome: Outcome::Boxed { body: BodyRead::Json("ErrorForbidden") } },
                StatusOutcome { status: 404, outcome: Outcome::Boxed { body: BodyRead::Json("Error") } },
            ],
            otherwise: Outcome::Failed,
            runtime_headers: false,
            body: RequestBody::Empty,
        }
    }

    /// Deactivate a payment instrument: the request that this endpoint sends.
    pub fn deactivate_payment_instrument_request(&self, customer_id: &str, token: &str) -> (r: ApiRequest)
        ensures
            r.method == HttpMethod::Delete,
            r.path@ == "/v0.1/customers/"@ + customer_id@ + "/payment-instruments/"@ + token@,
            r.url@ == self.bound_client().base_url_view() + r.path@,
            r.query@.len() == 0,
            r.responses@ == seq![
                (StatusOutcome { status: 204u16, outcome: Outcome::Success { variant: None, body: BodyRead::Ignored } }),
                (StatusOutcome { status: 401u16, outcome: Outcome::Boxed { body: BodyRead::Json("Error") } }),
                (StatusOutcome { status: 403u16, outcome: Outcome::Boxed { body: BodyRead::Json("ErrorForbidden") } }),
                (StatusOutcome { status: 404u16, outcome: Outcome::Boxed { body: BodyRead::Json("Error") } }),
            ],
            r.otherwise == Outcome::Failed,
            r.runtime_headers == false,
            r.body == RequestBody::Empty,
    {
        let mut path = String::from_str("/v0.1/customers/");
        path.append(customer_id);
        path.append("/payment-instruments/");
        path.append(token);
        let mut url = self.client.base_url().to_owned();
        url.append(path.as_str());
        let mut query: Vec<QueryParam> = Vec::new();
        assert(query_view(query@) =~= seq![]);
        ApiRequest {
            method: HttpMethod::Delete,
            path,
            url,
            query,
            responses: vec![
                StatusOutcome { status: 204, outcome: Outcome::Success { variant: None, body: BodyRead::Ignored } },
                StatusOutcome { status: 401, outcome: Outcome::Boxed { body: BodyRead::Json("Error") } },
                StatusOutcome { status: 403, outcome: Outcome::Boxed { body: BodyRead::Json("ErrorForbidden") } },
                StatusOutcome { status: 404, outcome: Outcome::Boxed { body: BodyRead::Json("Error") } },
            ],
            otherwise: Outcome::Failed,
            runtime_headers: false,
            body: RequestBody::Empty,
        }
    }
}

} // verus!
