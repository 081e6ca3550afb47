//! Card readers paired with a merchant account, and the checkouts started on
//! them: the data model and the request that each endpoint sends.
use super::common::{Currency, Problem};
use crate::client::Client;
use crate::http::{ApiRequest, BodyRead, HttpMethod, Outcome, QueryParam, RequestBody, StatusOutcome, query_view};
use vstd::prelude::*;

verus! {

pub type ReaderId = String;
pub type ReaderName = String;
pub type ReaderPairingCode = String;

#[derive(Debug, Clone)]
pub struct CreateReaderCheckoutResponse {
    pub data: CreateReaderCheckoutResponseData,
}

/// Information about the underlying physical device.
#[derive(Debug, Clone)]
pub struct ReaderDevice {
    /// A unique identifier of the physical device (e.g. serial number).
    pub identifier: String,
    /// Identifier of the model of the device.
    pub model: String,
}

/// The status of the reader object gives information about the current state of the reader.
///
/// Possible values:
///
/// - `unknown` - The reader status is unknown.
/// - `processing` - The reader is created and waits for the physical device to confirm the pairing.
/// - `paired` - The reader is paired with a merchant account and can be used with SumUp APIs.
/// - `expired` - The pairing is expired and no longer usable with the account. The resource needs to get recreated.
#[derive(Debug, Clone)]
pub enum ReaderStatus {
    Unknown,
    Processing,
    Paired,
    Expired,
    Other(String),
}

/// Amount structure.
///
/// The amount is represented as an integer value altogether with the currency and the minor unit.
///
/// For example, EUR 1.00 is represented as value 100 with minor unit of 2.
#[derive(Debug, Clone)]
pub struct Money {
    /// Currency ISO 4217 code
    pub currency: String,
    /// The minor units of the currency.
    /// It represents the number of decimals of the currency. For the currencies CLP, COP and HUF, the minor unit is 0.
    ///
    /// Constraints:
    /// - value >= 0
    pub minor_unit: i64,
    /// Integer value of the amount.
    ///
    /// Constraints:
    /// - value >= 0
    pub value: i64,
}

#[derive(Debug, Clone)]
pub struct CreateReaderCheckoutResponseData {
    /// The client transaction ID is a unique identifier for the transaction that is generated for the client.
    ///
    /// It can be used later to fetch the transaction details via the [Transactions API](https://developer.sumup.com/api/transactions/get).
    pub client_transaction_id: String,
}

/// The error bodies that the endpoint documents, by status.
#[derive(Debug)]
pub enum ListErrorBody {
    Unauthorized(Problem),
}

/// The error bodies that the endpoint documents, by status.
#[derive(Debug)]
pub enum CreateErrorBody {
    BadRequest(Problem),
    NotFound(Problem),
    Conflict(Problem),
}

/// The error bodies that the endpoint documents, by status.
#[derive(Debug)]
pub enum DeleteErrorBody {
    NotFound(Problem),
}

/// The error bodies that the endpoint documents, by status.
#[derive(Debug)]
pub enum GetErrorBody {
    NotFound(Problem),
}

/// The error bodies that the endpoint documents, by status.
#[derive(Debug)]
pub enum UpdateErrorBody {
    Forbidden(Problem),
    NotFound(Problem),
}

/// The error bodies that the endpoint documents, by status.
#[derive(Debug)]
pub enum CreateCheckoutErrorBody {
    BadRequest(Problem),
    Unauthorized(Problem),
    NotFound(Problem),
    UnprocessableEntity(Problem),
}

/// The error bodies that the endpoint documents, by status.
#[derive(Debug)]
pub enum GetStatusErrorBody {
    BadRequest(Problem),
    Unauthorized(Problem),
    NotFound(Problem),
}

/// The error bodies that the endpoint documents, by status.
#[derive(Debug)]
pub enum TerminateCheckoutErrorBody {
    BadRequest(Problem),
    Unauthorized(Problem),
    NotFound(Problem),
    UnprocessableEntity(Problem),
}

/// Client for the Readers API endpoints.
#[derive(Debug)]
pub struct ReadersClient<'a> {
    client: &'a Client,
}

impl<'a> ReadersClient<'a> {
    /// The client these endpoints are called through.
    pub closed spec fn bound_client(&self) -> &'a Client {
        self.client
    }

    pub(crate) fn new(client: &'a Client) -> (r: Self)
        ensures
            r.bound_client() == client,
    {
        Self { client }
    }

    /// Returns a reference to the underlying client.
    pub fn client(&self) -> (r: &Client)
        ensures
            r == self.bound_client(),
    {
        self.client
    }

    /// List Readers: the request that this endpoint sends.
    pub fn list_request(&self, merchant_code: &str) -> (r: ApiRequest)
        ensures
            r.method == HttpMethod::Get,
            r.path@ == "/v0.1/merchants/"@ + merchant_code@ + "/readers"@,
            r.url@ == self.bound_client().base_url_view() + r.path@,
            r.query@.len() == 0,
            r.responses@ == seq![
                (StatusOutcome { status: 200u16, outcome: Outcome::Success { variant: None, body: BodyRead::Json("ListResponse") } }),
                (StatusOutcome { status: 401u16, outcome: Outcome::Api { variant: "ListErrorBody::Unauthorized", body: BodyRead::Json("Problem") } }),
            ],
            r.otherwise == (Outcome::Unexpected { body: BodyRead::Bytes }),
            r.runtime_headers == true,
            r.body == RequestBody::Empty,
    {
        let mut path = String::from_str("/v0.1/merchants/");
        path.append(merchant_code);
        path.append("/readers");
        let mut url = self.client.base_url().to_owned();
        url.append(path.as_str());
        let mut query: Vec<QueryParam> = Vec::new();
        assert(query_view(query@) =~= seq![]);
        ApiRequest {
            method: HttpMethod::Get,
            path,
            url,
            query,
            responses: vec![
                StatusOutcome { status: 200, outcome: Outcome::Success { variant: None, body: BodyRead::Json("ListResponse") } },
                StatusOutcome { status: 401, outcome: Outcome::Api { variant: "ListErrorBody::Unauthorized", body: BodyRead::Json("Problem") } },
            ],
            otherwise: Outcome::Unexpected { body: BodyRead::Bytes },
            runtime_headers: true,
            body: RequestBody::Empty,
        }
    }

    /// Create a Reader: the request that this endpoint sends.
    pub fn create_request(&self, merchant_code: &str) -> (r: ApiRequest)
        ensures
            r.method == HttpMethod::Post,
            r.path@ == "/v0.1/merchants/"@ + merchant_code@ + "/readers"@,
            r.url@ == self.bound_client().base_url_view() + r.path@,
            r.query@.len() == 0,
            r.responses@ == seq![
                (StatusOutcome { status: 201u16, outcome: Outcome::Success { variant: None, body: BodyRead::Json("Reader") } }),
                (StatusOutcome { status: 400u16, outcome: Outcome::Api { variant: "CreateErrorBody::BadRequest", body: BodyRead::Json("Problem") } }),
                (StatusOutcome { status: 404u16, outcome: Outcome::Api { variant: "CreateErrorBody::NotFound", body: BodyRead::Json("Problem") } }),
                (StatusOutcome { status: 409u16, outcome: Outcome::Api { variant: "CreateErrorBody::Conflict", body: BodyRead::Json("Problem") } }),
            ],
            r.otherwise == (Outcome::Unexpected { body: BodyRead::Bytes }),
            r.runtime_headers == true,
            r.body == (RequestBody::Json("CreateBody")),
    {
        let mut path = String::from_str("/v0.1/merchants/");
        path.append(merchant_code);
        path.append("/readers");
        let mut url = self.client.base_url().to_owned();
        url.append(path.as_str());
        let mut query: Vec<QueryParam> = Vec::new();
        assert(query_view(query@) =~= seq![]);
        ApiRequest {
            method: HttpMethod::Post,
            path,
            url,
            query,
            responses: vec![
                StatusOutcome { status: 201, outcome: Outcome::Success { variant: None, body: BodyRead::Json("Reader") } },
                StatusOutcome { status: 400, outcome: Outcome::Api { variant: "CreateErrorBody::BadRequest", body: BodyRead::Json("Problem") } },
                StatusOutcome { status: 404, outcome: Outcome::Api { variant: "CreateErrorBody::NotFound", body: BodyRead::Json("Problem") } },
                StatusOutcome { status: 409, outcome: Outcome::Api { variant: "CreateErrorBody::Conflict", body: BodyRead::Json("Problem") } },
            ],
            otherwise: Outcome::Unexpected { body: BodyRead::Bytes },
            runtime_headers: true,
            body: RequestBody::Json("CreateBody"),
        }
    }

    /// Delete a reader: the request that this endpoint sends.
    pub fn delete_request(&self, merchant_code: &str, id: &str) -> (r: ApiRequest)
        ensures
            r.method == HttpMethod::Delete,
            r.path@ == "/v0.1/merchants/"@ + merchant_code@ + "/readers/"@ + id@,
            r.url@ == self.bound_client().base_url_view() + r.path@,
            r.query@.len() == 0,
            r.responses@ == seq![
                (StatusOutcome { status: 200u16, outcome: Outcome::Success { variant: None, body: BodyRead::Ignored } }),
                (StatusOutcome { status: 404u16, outcome: Outcome::Api { variant: "DeleteErrorBody::NotFound", body: BodyRead::Json("Problem") } }),
            ],
            r.otherwise == (Outcome::Unexpected { body: BodyRead::Bytes }),
            r.runtime_headers == true,
            r.body == RequestBody::Empty,
    {
        let mut path = String::from_str("/v0.1/merchants/");
        path.append(merchant_code);
        path.append("/readers/");
        path.append(id);
        let mut url = self.client.base_url().to_owned();
        url.append(path.as_str());
        let mut query: Vec<QueryParam> = Vec::new();
        assert(query_view(query@) =~= seq![]);
        ApiRequest {
            method: HttpMethod::Delete,
            path,
            url,
            query,
            responses: vec![
                StatusOutcome { status: 200, outcome: Outcome::Success { variant: None, body: BodyRead::Ignored } },
                StatusOutcome { status: 404, outcome: Outcome::Api { variant: "DeleteErrorBody::NotFound", body: BodyRead::Json("Problem") } },
            ],
            otherwise: Outcome::Unexpected { body: BodyRead::Bytes },
            runtime_headers: true,
            body: RequestBody::Empty,
        }
    }

    /// Retrieve a Reader: the request that this endpoint sends.
    pub fn get_request(&self, merchant_code: &str, id: &str) -> (r: ApiRequest)
        ensures
            r.method == HttpMethod::Get,
            r.path@ == "/v0.1/merchants/"@ + merchant_code@ + "/readers/"@ + id@,
            r.url@ == self.bound_client().base_url_view() + r.path@,
            r.query@.len() == 0,
            r.responses@ == seq![
                (StatusOutcome { status: 200u16, outcome: Outcome::Success { variant: None, body: BodyRead::Json("Reader") } }),
                (StatusOutcome { status: 404u16, outcome: Outcome::Api { variant: "GetErrorBody::NotFound", body: BodyRead::Json("Problem") } }),
            ],
            r.otherwise == (Outcome::Unexpected { body: BodyRead::Bytes }),
            r.runtime_headers == true,
            r.body == RequestBody::Empty,
    {
        let mut path = String::from_str("/v0.1/merchants/");
        path.append(merchant_code);
        path.append("/readers/");
        path.append(id);
        let mut url = self.client.base_url().to_owned();
        url.append(path.as_str());
        let mut query: Vec<QueryParam> = Vec::new();
        assert(query_view(query@) =~= seq![]);
        ApiRequest {
            method: HttpMethod::Get,
            path,
            url,
            query,
            responses: vec![
                StatusOutcome { status: 200, outcome: Outcome::Success { variant: None, body: BodyRead::Json("Reader") } },
                StatusOutcome { status: 404, outcome: Outcome::Api { variant: "GetErrorBody::NotFound", body: BodyRead::Json("Problem") } },
            ],
            otherwise: Outcome::Unexpected { body: BodyRead::Bytes },
            runtime_headers: true,
            body: RequestBody::Empty,
        }
    }

    /// Update a Reader: the request that this endpoint sends.
    pub fn update_request(&self, merchant_code: &str, id: &str) -> (r: ApiRequest)
        ensures
            r.method == HttpMethod::Patch,
            r.path@ == "/v0.1/merchants/"@ + merchant_code@ + "/readers/"@ + id@,
            r.url@ == self.bound_client().base_url_view() + r.path@,
            r.query@.len() == 0,
            r.responses@ == seq![
                (StatusOutcome { status: 200u16, outcome: Outcome::Success { variant: None, body: BodyRead::Json("Reader") } }),
                (StatusOutcome { status: 403u16, outcome: Outcome::Api { variant: "UpdateErrorBody::Forbidden", body: BodyRead::Json("Problem") } }),
                (StatusOutcome { status: 404u16, outcome: Outcome::Api { variant: "UpdateErrorBody::NotFound", body: BodyRead::Json("Problem") } }),
            ],
            r.otherwise == (Outcome::Unexpected { body: BodyRead::Bytes }),
            r.runtime_headers == true,
            r.body == (RequestBody::Json("UpdateBody")),
    {
        let mut path = String::from_str("/v0.1/merchants/");
        path.append(merchant_code);
        path.append("/readers/");
        path.append(id);
        let mut url = self.client.base_url().to_owned();
        url.append(path.as_str());
        let mut query: Vec<QueryParam> = Vec::new();
        assert(query_view(query@) =~= seq![]);
        ApiRequest {
            method: HttpMethod::Patch,
            path,
            url,
            query,
            responses: vec![
                StatusOutcome { status: 200, outcome: Outcome::Success { variant: None, body: BodyRead::Json("Reader") } },
                StatusOutcome { status: 403, outcome: Outcome::Api { variant: "UpdateErrorBody::Forbidden", body: BodyRead::Json("Problem") } },
                StatusOutcome { status: 404, outcome: Outcome::Api { variant: "UpdateErrorBody::NotFound", body: BodyRead::Json("Problem") } },
            ],
            otherwise: Outcome::Unexpected { body: BodyRead::Bytes },
            runtime_headers: true,
            body: RequestBody::Json("UpdateBody"),
        }
    }

    /// Create a Reader Checkout: the request that this endpoint sends.
    pub fn create_checkout_request(&self, merchant_code: &str, reader_id: &str) -> (r: ApiRequest)
        ensures
            r.method == HttpMethod::Post,
            r.path@ == "/v0.1/merchants/"@ + merchant_code@ + "/readers/"@ + reader_id@ + "/checkout"@,
            r.url@ == self.bound_client().base_url_view() + r.path@,
            r.query@.len() == 0,
            r.responses@ == seq![
                (StatusOutcome { status: 201u16, outcome: Outcome::Success { variant: None, body: BodyRead::Json("CreateReaderCheckoutResponse") } }),
                (StatusOutcome { status: 400u16, outcome: Outcome::Api { variant: "CreateCheckoutErrorBody::BadRequest", body: BodyRead::Json("Problem") } }),
                (StatusOutcome { status: 401u16, outcome: Outcome::Api { variant: "CreateCheckoutErrorBody::Unauthorized", body: BodyRead::Json("Problem") } }),
                (StatusOutcome { status: 404u16, outcome: Outcome::Api { variant: "CreateCheckoutErrorBody::NotFound", body: BodyRead::Json("Problem") } }),
                (StatusOutcome { status: 422u16, outcome: Outcome::Api { variant: "CreateCheckoutErrorBody::UnprocessableEntity", body: BodyRead::Json("Problem") } }),
            ],
            r.otherwise == (Outcome::Unexpected { body: BodyRead::Bytes }),
            r.runtime_headers == true,
            r.body == (RequestBody::Json("CreateReaderCheckoutRequest")),
    {
        let mut path = String::from_str("/v0.1/merchants/");
        path.append(merchant_code);
        path.append("/readers/");
        path.append(reader_id);
        path.append("/checkout");
        let mut url = self.client.base_url().to_owned();
        url.append(path.as_str());
        let mut query: Vec<QueryParam> = Vec::new();
        assert(query_view(query@) =~= seq![]);
        ApiRequest {
            method: HttpMethod::Post,
            path,
            url,
            query,
            responses: vec![
                StatusOutcome { status: 201, outcome: Outcome::Success { variant: None, body: BodyRead::Json("CreateReaderCheckoutResponse") } },
                StatusOutcome { status: 400, outcome: Outcome::Api { variant: "CreateCheckoutErrorBody::BadRequest", body: BodyRead::Json("Problem") } },
                StatusOutcome { status: 401, outcome: Outcome::Api { variant: "CreateCheckoutErrorBody::Unauthorized", body: BodyRead::Json("Problem") } },
                StatusOutcome { status: 404, outcome: Outcome::Api { variant: "CreateCheckoutErrorBody::NotFound", body: BodyRead::Json("Problem") } },
                StatusOutcome { status: 422, outcome: Outcome::Api { variant: "CreateCheckoutErrorBody::UnprocessableEntity", body: BodyRead::Json("Problem") } },
            ],
            otherwise: Outcome::Unexpected { body: BodyRead::Bytes },
            runtime_headers: true,
            body: RequestBody::Json("CreateReaderCheckoutRequest"),
        }
    }

    /// Get a Reader Status: the request that this endpoint sends.
    pub fn get_status_request(&self, merchant_code: &str, reader_id: &str) -> (r: ApiRequest)
        ensures
            r.method == HttpMethod::Get,
            r.path@ == "/v0.1/merchants/"@ + merchant_code@ + "/readers/"@ + reader_id@ + "/status"@,
            r.url@ == self.bound_client().base_url_view() + r.path@,
            r.query@.len() == 0,
            r.responses@ == seq![
                (StatusOutcome { status: 200u16, outcome: Outcome::Success { variant: None, body: BodyRead::Json("StatusResponse") } }),
                (StatusOutcome { status: 400u16, outcome: Outcome::Api { variant: "GetStatusErrorBody::BadRequest", body: BodyRead::Json("Problem") } }),
                (StatusOutcome { status: 401u16, outcome: Outcome::Api { variant: "GetStatusErrorBody::Unauthorized", body: BodyRead::Json("Problem") } }),
                (StatusOutcome { status: 404u16, outcome: Outcome::Api { variant: "GetStatusErrorBody::NotFound", body: BodyRead::Json("Problem") } }),
            ],
            r.otherwise == (Outcome::Unexpected { body: BodyRead::Bytes }),
            r.runtime_headers == true,
            r.body == RequestBody::Empty,
    {
        let mut path = String::from_str("/v0.1/merchants/");
        path.append(merchant_code);
        path.append("/readers/");
        path.append(reader_id);
        path.append("/status");
        let mut url = self.client.base_url().to_owned();
        url.append(path.as_str());
        let mut query: Vec<QueryParam> = Vec::new();
        assert(query_view(query@) =~= seq![]);
        ApiRequest {
            method: HttpMethod::Get,
            path,
            url,
            query,
            responses: vec![
                StatusOutcome { status: 200, outcome: Outcome::Success { variant: None, body: BodyRead::Json("StatusResponse") } },
                StatusOutcome { status: 400, outcome: Outcome::Api { variant: "GetStatusErrorBody::BadRequest", body: BodyRead::Json("Problem") } },
                StatusOutcome { status: 401, outcome: Outcome::Api { variant: "GetStatusErrorBody::Unauthorized", body: BodyRead::Json("Problem") } },
                StatusOutcome { status: 404, outcome: Outcome::Api { variant: "GetStatusErrorBody::NotFound", body: BodyRead::Json("Problem") } },
            ],
            otherwise: Outcome::Unexpected { body: BodyRead::Bytes },
            runtime_headers: true,
            body: RequestBody::Empty,
        }
    }

    /// Terminate a Reader Checkout: the request that this endpoint sends.
    pub fn terminate_checkout_request(&self, merchant_code: &str, reader_id: &str) -> (r: ApiRequest)
        ensures
            r.method == HttpMethod::Post,
            r.path@ == "/v0.1/merchants/"@ + merchant_code@ + "/readers/"@ + reader_id@ + "/terminate"@,
            r.url@ == self.bound_client().base_url_view() + r.path@,
            r.query@.len() == 0,
            r.responses@ == seq![
                (StatusOutcome { status: 202u16, outcome: Outcome::Success { variant: None, body: BodyRead::Ignored } }),
                (StatusOutcome { status: 400u16, outcome: Outcome::Api { variant: "TerminateCheckoutErrorBody::BadRequest", body: BodyRead::Json("Problem") } }),
                (StatusOutcome { status: 401u16, outcome: Outcome::Api { variant: "TerminateCheckoutErrorBody::Unauthorized", body: BodyRead::Json("Problem") } }),
                (StatusOutcome { status: 404u16, outcome: Outcome::Api { variant: "TerminateCheckoutErrorBody::NotFound", body: BodyRead::Json("Problem") } }),
                (StatusOutcome { status: 422u16, outcome: Outcome::Api { variant: "TerminateCheckoutErrorBody::UnprocessableEntity", body: BodyRead::Json("Problem") } }),
            ],
            r.otherwise == (Outcome::Unexpected { body: BodyRead::Bytes }),
            r.runtime_headers == true,
            r.body == RequestBody::Empty,
    {
        let mut path = String::from_str("/v0.1/merchants/");
        path.append(merchant_code);
        path.append("/readers/");
        path.append(reader_id);
        path.append("/terminate");
        let mut url = self.client.base_url().to_owned();
        url.append(path.as_str());
        let mut query: Vec<QueryParam> = Vec::new();
        assert(query_view(query@) =~= seq![]);
        ApiRequest {
            method: HttpMethod::Post,
            path,
            url,
            query,
            responses: vec![
                StatusOutcome { status: 202, outcome: Outcome::Success { variant: None, body: BodyRead::Ignored } },
                StatusOutcome { status: 400, outcome: Outcome::Api { variant: "TerminateCheckoutErrorBody::BadRequest", body: BodyRead::Json("Problem") } },
                StatusOutcome { status: 401, outcome: Outcome::Api { variant: "TerminateCheckoutErrorBody::Unauthorized", body: BodyRead::Json("Problem") } },
                StatusOutcome { status: 404, outcome: Outcome::Api { variant: "TerminateCheckoutErrorBody::NotFound", body: BodyRead::Json("Problem") } },
                StatusOutcome { status: 422, outcome: Outcome::Api { variant: "TerminateCheckoutErrorBody::UnprocessableEntity", body: BodyRead::Json("Problem") } },
            ],
            otherwise: Outcome::Unexpected { body: BodyRead::Bytes },
            runtime_headers: true,
            body: RequestBody::Empty,
        }
    }
}

} // verus!
