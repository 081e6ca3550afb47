//! Checkouts represent online payment sessions that you create before attempting to charge a payer. A checkout captures the payment intent, such as the amount, currency, merchant, and optional customer or redirect settings, and then moves through its lifecycle as you process it.
//!
//! Use this tag to:
//! - create a checkout before collecting or confirming payment details
//! - process the checkout with a card, saved card, wallet, or supported alternative payment method
//! - retrieve or list checkouts to inspect their current state and associated payment attempts
//! - deactivate a checkout that should no longer be used
//!
//! Typical workflow:
//! - create a checkout with the order amount, currency, and merchant information
//! - process the checkout through SumUp client tools such as the [Payment Widget and Swift Checkout SDK](https://developer.sumup.com/online-payments/checkouts)
//! - retrieve the checkout or use the Transactions endpoints to inspect the resulting payment record
//!
//! Checkouts are used to initiate and orchestrate online payments. Transactions remain the authoritative record of the resulting payment outcome.
use super::common::{CardType, Error, ErrorExtended, ErrorForbidden, Problem};
use crate::client::Client;
use crate::http::{ApiRequest, BodyRead, HttpMethod, Outcome, QueryParam, RequestBody, StatusOutcome, opt_text, push_text, query_view, text_entry};
use vstd::prelude::*;

verus! {

/// __Required when payment type is `card`.__ Details of the payment card.
#[derive(Debug, Clone)]
pub struct Card {
    /// Name of the cardholder as it appears on the payment card.
    ///
    /// Constraints:
    /// - write-only
    ///
    /// Example: `FIRSTNAME LASTNAME`
    pub name: String,
    /// Number of the payment card (without spaces).
    ///
    /// Constraints:
    /// - write-only
    ///
    /// Example: `1234567890123456`
    pub number: String,
    /// Year from the expiration time of the payment card. Accepted formats are `YY` and `YYYY`.
    ///
    /// Constraints:
    /// - write-only
    /// - min length: 2
    /// - max length: 4
    ///
    /// Example: `2023`
    pub expiry_year: String,
    /// Month from the expiration time of the payment card. Accepted format is `MM`.
    ///
    /// Constraints:
    /// - write-only
    pub expiry_month: CardExpiryMonth,
    /// Three or four-digit card verification value (security code) of the payment card.
    ///
    /// Constraints:
    /// - write-only
    /// - min length: 3
    /// - max length: 4
    ///
    /// Example: `123`
    pub cvv: String,
    /// Required five-digit ZIP code. Applicable only to merchant users in the USA.
    ///
    /// Constraints:
    /// - write-only
    /// - min length: 5
    /// - max length: 5
    ///
    /// Example: `12345`
    pub zip_code: Option<String>,
    pub type_: CardType,
}

/// Response returned when checkout processing requires an additional payer action, such as a 3DS challenge or a redirect to an external payment method page.
#[derive(Debug, Clone, Default)]
pub struct CheckoutAccepted {
    /// Instructions for the next action the payer or client must take.
    pub next_step: Option<CheckoutAcceptedNextStep>,
}

/// Hosted Checkout configuration. Enable it to receive a SumUp-hosted payment page URL in the checkout response.
#[derive(Debug, Clone)]
pub struct HostedCheckout {
    /// Whether the checkout should include a SumUp-hosted payment page.
    ///
    /// Example: `true`
    pub enabled: bool,
}

/// Mandate details used when a checkout should create a reusable card token for future recurring or merchant-initiated payments.
#[derive(Debug, Clone)]
pub struct MandatePayload {
    /// Type of mandate to create for the saved payment instrument.
    ///
    /// Example: `recurrent`
    pub type_: MandatePayloadType,
    /// Browser or client user agent observed when consent was collected.
    ///
    /// Example: `Mozilla/5.0 (Windows NT 10.0; Win64; x64) AppleWebKit/537.36 (KHTML, like Gecko) Chrome/88.0.4324.104 Safari/537.36`
    pub user_agent: String,
    /// IP address of the payer when the mandate was accepted.
    ///
    /// Example: `172.217.169.174`
    pub user_ip: Option<String>,
}

/// Month from the expiration time of the payment card. Accepted format is `MM`.
///
/// Constraints:
/// - write-only
#[derive(Debug, Clone)]
pub enum CardExpiryMonth {
    _01,
    _02,
    _03,
    _04,
    _05,
    _06,
    _07,
    _08,
    _09,
    _10,
    _11,
    _12,
    Other(String),
}

/// Current high-level state of the checkout. `PENDING` means the checkout exists but is not yet completed, `PAID` means a payment succeeded, `FAILED` means the latest processing attempt failed, and `EXPIRED` means the checkout can no longer be processed.
///
/// Example: `PENDING`
#[derive(Debug, Clone)]
pub enum CheckoutStatus {
    Pending,
    Failed,
    Paid,
    Expired,
    Other(String),
}

/// Current status of the transaction.
#[derive(Debug, Clone)]
pub enum CheckoutTransactionsItemStatus {
    Successful,
    Cancelled,
    Failed,
    Pending,
    Other(String),
}

#[derive(Debug, Clone)]
pub enum CheckoutAcceptedNextStepMechanismItem {
    Iframe,
    Browser,
    Other(String),
}

/// Parameters required to complete the next step. The exact keys depend on the payment provider and flow type.
#[derive(Debug, Clone, Default)]
pub struct CheckoutAcceptedNextStepPayload {
    pub additional_properties: std::collections::HashMap<String, String>,
}

/// Instructions for the next action the payer or client must take.
#[derive(Debug, Clone, Default)]
pub struct CheckoutAcceptedNextStep {
    /// URL to open or submit in order to continue processing.
    ///
    /// Example: `https://dummy-3ds-gateway.com/cap?RID=1233&VAA=A`
    pub url: Option<String>,
    /// HTTP method to use when following the next step.
    ///
    /// Example: `POST`
    pub method: Option<String>,
    /// Merchant URL where the payer returns after the external flow finishes.
    ///
    /// Example: `https://mysite.com/completed_purchase`
    pub redirect_url: Option<String>,
    /// Allowed presentation mechanisms for the next step. `iframe` means the flow can be embedded, while `browser` means it can be completed through a full-page redirect.
    pub mechanism: Option<Vec<CheckoutAcceptedNextStepMechanismItem>>,
    /// Parameters required to complete the next step. The exact keys depend on the payment provider and flow type.
    pub payload: Option<CheckoutAcceptedNextStepPayload>,
}

/// Business purpose of the checkout. Use `CHECKOUT` for a standard payment and `SETUP_RECURRING_PAYMENT` when collecting consent and payment details for future recurring charges.
#[derive(Debug, Clone)]
pub enum CheckoutCreateRequestPurpose {
    Checkout,
    SetupRecurringPayment,
    Other(String),
}

/// Current high-level state of the checkout. `PENDING` means the checkout exists but is not yet completed, `PAID` means a payment succeeded, `FAILED` means the latest processing attempt failed, and `EXPIRED` means the checkout can no longer be processed.
///
/// Example: `PENDING`
#[derive(Debug, Clone)]
pub enum CheckoutSuccessStatus {
    Pending,
    Failed,
    Paid,
    Expired,
    Other(String),
}

/// Current status of the transaction.
#[derive(Debug, Clone)]
pub enum CheckoutSuccessTransactionsItemStatus {
    Successful,
    Cancelled,
    Failed,
    Pending,
    Other(String),
}

/// Details of the saved payment instrument created or reused during checkout processing.
#[derive(Debug, Clone, Default)]
pub struct CheckoutSuccessPaymentInstrument {
    /// Token value
    ///
    /// Example: `e76d7e5c-9375-4fac-a7e7-b19dc5302fbc`
    pub token: Option<String>,
}

#[derive(Debug, Clone, Default)]
pub struct DetailsErrorFailedConstraintsItem {
    pub message: Option<String>,
    pub reference: Option<String>,
}

/// Type of mandate to create for the saved payment instrument.
///
/// Example: `recurrent`
#[derive(Debug, Clone)]
pub enum MandatePayloadType {
    Recurrent,
    Other(String),
}

/// Payment method used for this processing attempt. It determines which additional request fields are required.
///
/// Example: `card`
#[derive(Debug, Clone)]
pub enum ProcessCheckoutPaymentType {
    Card,
    Boleto,
    Ideal,
    Blik,
    Bancontact,
    GooglePay,
    ApplePay,
    Other(String),
}

#[derive(Debug, Clone)]
pub struct ListAvailablePaymentMethodsResponseAvailablePaymentMethodsItem {
    /// The ID of the payment method.
    ///
    /// Example: `qr_code_pix`
    pub id: String,
}

#[derive(Debug, Clone, Default)]
pub struct ListParams {
    /// Filters the list of checkout resources by the unique ID of the checkout.
    pub checkout_reference: Option<String>,
}

/// Available payment methods
#[derive(Debug, Clone, Default)]
pub struct ListAvailablePaymentMethodsResponse {
    pub available_payment_methods:
        Option<Vec<ListAvailablePaymentMethodsResponseAvailablePaymentMethodsItem>>,
}

/// The data needed to create an apple pay session for a checkout.
#[derive(Debug, Clone)]
pub struct CreateApplePaySessionBody {
    /// the context to create this apple pay session.
    ///
    /// Constraints:
    /// - format: `hostname`
    ///
    /// Example: `example.com`
    pub context: String,
    /// The target url to create this apple pay session.
    ///
    /// Constraints:
    /// - format: `uri`
    ///
    /// Example: `https://apple-pay-gateway-cert.apple.com/paymentservices/startSession`
    pub target: String,
}

/// The error bodies that the endpoint documents, by status.
#[derive(Debug)]
pub enum ListErrorBody {
    Unauthorized(Problem),
}

/// The error bodies that the endpoint documents, by status.
#[derive(Debug)]
pub enum CreateErrorBody {
    BadRequest(ErrorExtended),
    Unauthorized(Problem),
    Forbidden(ErrorForbidden),
    Conflict(Error),
}

/// The error bodies that the endpoint documents, by status.
#[derive(Debug)]
pub enum DeactivateErrorBody {
    Unauthorized(Problem),
    NotFound(Error),
    Conflict(Error),
}

/// The error bodies that the endpoint documents, by status.
#[derive(Debug)]
pub enum GetErrorBody {
    Unauthorized(Problem),
    NotFound(Error),
}

/// Client for the Checkouts API endpoints.
#[derive(Debug)]
pub struct CheckoutsClient<'a> {
    client: &'a Client,
}

impl<'a> CheckoutsClient<'a> {
    /// The client these endpoints are called through.
    pub closed spec fn bound_client(&self) -> &'a Client {
        self.client
    }

    pub(crate) fn new(client: &'a Client) -> (r: Self)
        ensures
            r.bound_client() == client,
    {
        Self { client }
    }

    /// Returns a reference to the underlying client.
    pub fn client(&self) -> (r: &Client)
        ensures
            r == self.bound_client(),
    {
        self.client
    }

    /// List checkouts: the request that this endpoint sends.
    pub fn list_request(&self, params: ListParams) -> (r: ApiRequest)
        ensures
            r.method == HttpMethod::Get,
            r.path@ == "/v0.1/checkouts"@,
            r.url@ == self.bound_client().base_url_view() + r.path@,
            query_view(r.query@) == text_entry("checkout_reference"@, opt_text(params.checkout_reference)),
            r.responses@ == seq![
                (StatusOutcome { status: 200u16, outcome: Outcome::Success { variant: None, body: BodyRead::Json("ListResponse") } }),
                (StatusOutcome { status: 401u16, outcome: Outcome::Api { variant: "ListErrorBody::Unauthorized", body: BodyRead::Json("Problem") } }),
            ],
            r.otherwise == (Outcome::Unexpected { body: BodyRead::Bytes }),
            r.runtime_headers == true,
            r.body == RequestBody::Empty,
    {
        let mut path = String::from_str("/v0.1/checkouts");
        let mut url = self.client.base_url().to_owned();
        url.append(path.as_str());
        let mut query: Vec<QueryParam> = Vec::new();
        assert(query_view(query@) =~= seq![]);
        push_text(&mut query, "checkout_reference", params.checkout_reference);
        ApiRequest {
            method: HttpMethod::Get,
            path,
            url,
            query,
            responses: vec![
                StatusOutcome { status: 200, outcome: Outcome::Success { variant: None, body: BodyRead::Json("ListResponse") } },
                StatusOutcome { status: 401, outcome: Outcome::Api { variant: "ListErrorBody::Unauthorized", body: BodyRead::Json("Problem") } },
            ],
            otherwise: Outcome::Unexpected { body: BodyRead::Bytes },
            runtime_headers: true,
            body: RequestBody::Empty,
        }
    }

    /// Create a checkout: the request that this endpoint sends.
    pub fn create_request(&self) -> (r: ApiRequest)
        ensures
            r.method == HttpMethod::Post,
            r.path@ == "/v0.1/checkouts"@,
            r.url@ == self.bound_client().base_url_view() + r.path@,
            r.query@.len() == 0,
            r.responses@ == seq![
                (StatusOutcome { status: 201u16, outcome: Outcome::Success { variant: None, body: BodyRead::Json("Checkout") } }),
                (StatusOutcome { status: 400u16, outcome: Outcome::Api { variant: "CreateErrorBody::BadRequest", body: BodyRead::Json("ErrorExtended") } }),
                (StatusOutcome { status: 401u16, outcome: Outcome::Api { variant: "CreateErrorBody::Unauthorized", body: BodyRead::Json("Problem") } }),
                (StatusOutcome { status: 403u16, outcome: Outcome::Api { variant: "CreateErrorBody::Forbidden", body: BodyRead::Json("ErrorForbidden") } }),
                (StatusOutcome { status: 409u16, outcome: Outcome::Api { variant: "CreateErrorBody::Conflict", body: BodyRead::Json("Error") } }),
            ],
            r.otherwise == (Outcome::Unexpected { body: BodyRead::Bytes }),
            r.runtime_headers == true,
            r.body == (RequestBody::Json("CheckoutCreateRequest")),
    {
        let mut path = String::from_str("/v0.1/checkouts");
        let mut url = self.client.base_url().to_owned();
        url.append(path.as_str());
        let mut query: Vec<QueryParam> = Vec::new();
        assert(query_view(query@) =~= seq![]);
        ApiRequest {
            method: HttpMethod::Post,
            path,
            url,
            query,
            responses: vec![
                StatusOutcome { status: 201, outcome: Outcome::Success { variant: None, body: BodyRead::Json("Checkout") } },
                StatusOutcome { status: 400, outcome: Outcome::Api { variant: "CreateErrorBody::BadRequest", body: BodyRead::Json("ErrorExtended") } },
                StatusOutcome { status: 401, outcome: Outcome::Api { variant: "CreateErrorBody::Unauthorized", body: BodyRead::Json("Problem") } },
                StatusOutcome { status: 403, outcome: Outcome::Api { variant: "CreateErrorBody::Forbidden", body: BodyRead::Json("ErrorForbidden") } },
                StatusOutcome { status: 409, outcome: Outcome::Api { variant: "CreateErrorBody::Conflict", body: BodyRead::Json("Error") } },
            ],
            otherwise: Outcome::Unexpected { body: BodyRead::Bytes },
            runtime_headers: true,
            body: RequestBody::Json("CheckoutCreateRequest"),
        }
    }

    /// Deactivate a checkout: the request that this endpoint sends.
    pub fn deactivate_request(&self, id: &str) -> (r: ApiRequest)
        ensures
            r.method == HttpMethod::Delete,
            r.path@ == "/v0.1/checkouts/"@ + id@,
            r.url@ == self.bound_client().base_url_view() + r.path@,
            r.query@.len() == 0,
            r.responses@ == seq![
                (StatusOutcome { status: 200u16, outcome: Outcome::Success { variant: None, body: BodyRead::Json("Checkout") } }),
                (StatusOutcome { status: 401u16, outcome: Outcome::Api { variant: "DeactivateErrorBody::Unauthorized", body: BodyRead::Json("Problem") } }),
                (StatusOutcome { status: 404u16, outcome: Outcome::Api { variant: "DeactivateErrorBody::NotFound", body: BodyRead::Json("Error") } }),
                (StatusOutcome { status: 409u16, outcome: Outcome::Api { variant: "DeactivateErrorBody::Conflict", body: BodyRead::Json("Error") } }),
            ],
            r.otherwise == (Outcome::Unexpected { body: BodyRead::Bytes }),
            r.runtime_headers == true,
            r.body == RequestBody::Empty,
    {
        let mut path = String::from_str("/v0.1/checkouts/");
        path.append(id);
        let mut url = self.client.base_url().to_owned();
        url.append(path.as_str());
        let mut query: Vec<QueryParam> = Vec::new();
        assert(query_view(query@) =~= seq![]);
        ApiRequest {
            method: HttpMethod::Delete,
            path,
            url,
            query,
            responses: vec![
                StatusOutcome { status: 200, outcome: Outcome::Success { variant: None, body: BodyRead::Json("Checkout") } },
                StatusOutcome { status: 401, outcome: Outcome::Api { variant: "DeactivateErrorBody::Unauthorized", body: BodyRead::Json("Problem") } },
                StatusOutcome { status: 404, outcome: Outcome::Api { variant: "DeactivateErrorBody::NotFound", body: BodyRead::Json("Error") } },
                StatusOutcome { status: 409, outcome: Outcome::Api { variant: "DeactivateErrorBody::Conflict", body: BodyRead::Json("Error") } },
            ],
            otherwise: Outcome::Unexpected { body: BodyRead::Bytes },
            runtime_headers: true,
            body: RequestBody::Empty,
        }
    }

    /// Retrieve a checkout: the request that this endpoint sends.
    pub fn get_request(&self, id: &str) -> (r: ApiRequest)
        ensures
            r.method == HttpMethod::Get,
            r.path@ == "/v0.1/checkouts/"@ + id@,
            r.url@ == self.bound_client().base_url_view() + r.path@,
            r.query@.len() == 0,
            r.responses@ == seq![
                (StatusOutcome { status: 200u16, outcome: Outcome::Success { variant: None, body: BodyRead::Json("CheckoutSuccess") } }),
                (StatusOutcome { status: 401u16, outcome: Outcome::Api { variant: "GetErrorBody::Unauthorized", body: BodyRead::Json("Problem") } }),
                (StatusOutcome { status: 404u16, outcome: Outcome::Api { variant: "GetErrorBody::NotFound", body: BodyRead::Json("Error") } }),
            ],
            r.otherwise == (Outcome::Unexpected { body: BodyRead::Bytes }),
            r.runtime_headers == true,
            r.body == RequestBody::Empty,
    {
        let mut path = String::from_str("/v0.1/checkouts/");
        path.append(id);
        let mut url = self.client.base_url().to_owned();
        url.append(path.as_str());
        let mut query: Vec<QueryParam> = Vec::new();
        assert(query_view(query@) =~= seq![]);
        ApiRequest {
            method: HttpMethod::Get,
            path,
            url,
            query,
            responses: vec![
                StatusOutcome { status: 200, outcome: Outcome::Success { variant: None, body: BodyRead::Json("CheckoutSuccess") } },
                StatusOutcome { status: 401, outcome: Outcome::Api { variant: "GetErrorBody::Unauthorized", body: BodyRead::Json("Problem") } },
                StatusOutcome { status: 404, outcome: Outcome::Api { variant: "GetErrorBody::NotFound", body: BodyRead::Json("Error") } },
            ],
            otherwise: Outcome::Unexpected { body: BodyRead::Bytes },
            runtime_headers: true,
            body: RequestBody::Empty,
        }
    }

    /// Process a checkout: the request that this endpoint sends.
    pub fn process_request(&self, id: &str) -> (r: ApiRequest)
        ensures
            r.method == HttpMethod::Put,
            r.path@ == "/v0.1/checkouts/"@ + id@,
            r.url@ == self.bound_client().base_url_view() + r.path@,
            r.query@.len() == 0,
            r.responses@ == seq![
                (StatusOutcome { status: 200u16, outcome: Outcome::Success { variant: Some("ProcessResponse::Status200"), body: BodyRead::Json("CheckoutSuccess") } }),
                (StatusOutcome { status: 202u16, outcome: Outcome::Success { variant: Some("ProcessResponse::Status202"), body: BodyRead::Json("CheckoutAccepted") } }),
                (StatusOutcome { status: 400u16, outcome: Outcome::Api { variant: "ProcessErrorBody::BadRequest", body: BodyRead::Bytes } }),
                (StatusOutcome { status: 401u16, outcome: Outcome::Api { variant: "ProcessErrorBody::Unauthorized", body: BodyRead::Json("Problem") } }),
                (StatusOutcome { status: 404u16, outcome: Outcome::Api { variant: "ProcessErrorBody::NotFound", body: BodyRead::Json("Error") } }),
                (StatusOutcome { status: 409u16, outcome: Outcome::Api { variant: "ProcessErrorBody::Conflict", body: BodyRead::Json("Error") } }),
            ],
            r.otherwise == (Outcome::Unexpected { body: BodyRead::Text }),
            r.runtime_headers == true,
            r.body == (RequestBody::Json("ProcessCheckout")),
    {
        let mut path = String::from_str("/v0.1/checkouts/");
        path.append(id);
        let mut url = self.client.base_url().to_owned();
        url.append(path.as_str());
        let mut query: Vec<QueryParam> = Vec::new();
        assert(query_view(query@) =~= seq![]);
        ApiRequest {
            method: HttpMethod::Put,
            path,
            url,
            query,
            responses: vec![
                StatusOutcome { status: 200, outcome: Outcome::Success { variant: Some("ProcessResponse::Status200"), body: BodyRead::Json("CheckoutSuccess") } },
                StatusOutcome { status: 202, outcome: Outcome::Success { variant: Some("ProcessResponse::Status202"), body: BodyRead::Json("CheckoutAccepted") } },
                StatusOutcome { status: 400, outcome: Outcome::Api { variant: "ProcessErrorBody::BadRequest", body: BodyRead::Bytes } },
                StatusOutcome { status: 401, outcome: Outcome::Api { variant: "ProcessErrorBody::Unauthorized", body: BodyRead::Json("Problem") } },
                StatusOutcome { status: 404, outcome: Outcome::Api { variant: "ProcessErrorBody::NotFound", body: BodyRead::Json("Error") } },
                StatusOutcome { status: 409, outcome: Outcome::Api { variant: "ProcessErrorBody::Conflict", body: BodyRead::Json("Error") } },
            ],
            otherwise: Outcome::Unexpected { body: BodyRead::Text },
            runtime_headers: true,
            body: RequestBody::Json("ProcessCheckout"),
        }
    }

    /// Get available payment methods: the request that this endpoint sends.
    /// `amount` is the amount in major units as the query writes it (the
    /// HTTP layer writes the number); `currency` the currency code.
    pub fn list_available_payment_methods_request(
        &self,
        merchant_code: &str,
        amount: Option<String>,
        currency: Option<String>,
    ) -> (r: ApiRequest)
        ensures
            r.method == HttpMethod::Get,
            r.path@ == "/v0.1/merchants/"@ + merchant_code@ + "/payment-methods"@,
            r.url@ == self.bound_client().base_url_view() + r.path@,
            query_view(r.query@) == text_entry("amount"@, opt_text(amount)) + text_entry("currency"@, opt_text(currency)),
            r.responses@ == seq![
                (StatusOutcome { status: 200u16, outcome: Outcome::Success { variant: None, body: BodyRead::Json("ListAvailablePaymentMethodsResponse") } }),
                (StatusOutcome { status: 400u16, outcome: Outcome::Api { variant: "ListAvailablePaymentMethodsErrorBody::BadRequest", body: BodyRead::Json("DetailsError") } }),
            ],
            r.otherwise == (Outcome::Unexpected { body: BodyRead::Bytes }),
            r.runtime_headers == true,
            r.body == RequestBody::Empty,
    {
        let mut path = String::from_str("/v0.1/merchants/");
        path.append(merchant_code);
        path.append("/payment-methods");
        let mut url = self.client.base_url().to_owned();
        url.append(path.as_str());
        let mut query: Vec<QueryParam> = Vec::new();
        assert(query_view(query@) =~= seq![]);
        push_text(&mut query, "amount", amount);
        push_text(&mut query, "currency", currency);
        ApiRequest {
            method: HttpMethod::Get,
            path,
            url,
            query,
            responses: vec![
                StatusOutcome { status: 200, outcome: Outcome::Success { variant: None, body: BodyRead::Json("ListAvailablePaymentMethodsResponse") } },
                StatusOutcome { status: 400, outcome: Outcome::Api { variant: "ListAvailablePaymentMethodsErrorBody::BadRequest", body: BodyRead::Json("DetailsError") } },
            ],
            otherwise: Outcome::Unexpected { body: BodyRead::Bytes },
            runtime_headers: true,
            body: RequestBody::Empty,
        }
    }

    /// Create an Apple Pay session: the request that this endpoint sends.
    pub fn create_apple_pay_session_request(&self, id: &str) -> (r: ApiRequest)
        ensures
            r.method == HttpMethod::Put,
            r.path@ == "/v0.2/checkouts/"@ + id@ + "/apple-pay-session"@,
            r.url@ == self.bound_client().base_url_view() + r.path@,
            r.query@.len() == 0,
            r.responses@ == seq![
                (StatusOutcome { status: 200u16, outcome: Outcome::Success { variant: None, body: BodyRead::Json("CreateApplePaySessionResponse") } }),
                (StatusOutcome { status: 400u16, outcome: Outcome::Api { variant: "CreateApplePaySessionErrorBody::BadRequest", body: BodyRead::Bytes } }),
                (StatusOutcome { status: 404u16, outcome: Outcome::Api { variant: "CreateApplePaySessionErrorBody::NotFound", body: BodyRead::Json("Error") } }),
            ],
            r.otherwise == (Outcome::Unexpected { body: BodyRead::Bytes }),
            r.runtime_headers == true,
            r.body == (RequestBody::OptionalJson("CreateApplePaySessionBody")),
    {
        let mut path = String::from_str("/v0.2/checkouts/");
        path.append(id);
        path.append("/apple-pay-session");
        let mut url = self.client.base_url().to_owned();
        url.append(path.as_str());
        let mut query: Vec<QueryParam> = Vec::new();
        assert(query_view(query@) =~= seq![]);
        ApiRequest {
            method: HttpMethod::Put,
            path,
            url,
            query,
            responses: vec![
                StatusOutcome { status: 200, outcome: Outcome::Success { variant: None, body: BodyRead::Json("CreateApplePaySessionResponse") } },
                StatusOutcome { status: 400, outcome: Outcome::Api { variant: "CreateApplePaySessionErrorBody::BadRequest", body: BodyRead::Bytes } },
                StatusOutcome { status: 404, outcome: Outcome::Api { variant: "CreateApplePaySessionErrorBody::NotFound", body: BodyRead::Json("Error") } },
            ],
            otherwise: Outcome::Unexpected { body: BodyRead::Bytes },
            runtime_headers: true,
            body: RequestBody::OptionalJson("CreateApplePaySessionBody"),
        }
    }
}

} // verus!
