//! Endpoints to manage custom roles. Custom roles allow you to tailor roles from individual permissions to match your needs. Once created, you can assign your custom roles to your merchant account members using the memberships.
use super::common::{Problem};
use crate::client::Client;
use crate::http::{ApiRequest, BodyRead, HttpMethod, Outcome, QueryParam, RequestBody, StatusOutcome, query_view};
use vstd::prelude::*;

verus! {

/// The error bodies that the endpoint documents, by status.
#[derive(Debug)]
pub enum ListErrorBody {
    NotFound(Problem),
}

/// The error bodies that the endpoint documents, by status.
#[derive(Debug)]
pub enum CreateErrorBody {
    BadRequest(Problem),
    NotFound(Problem),
}

/// The error bodies that the endpoint documents, by status.
#[derive(Debug)]
pub enum DeleteErrorBody {
    BadRequest(Problem),
    NotFound(Problem),
}

/// The error bodies that the endpoint documents, by status.
#[derive(Debug)]
pub enum GetErrorBody {
    NotFound(Problem),
}

/// The error bodies that the endpoint documents, by status.
#[derive(Debug)]
pub enum UpdateErrorBody {
    BadRequest(Problem),
    NotFound(Problem),
}

/// Client for the Roles API endpoints.
#[derive(Debug)]
pub struct RolesClient<'a> {
    client: &'a Client,
}

impl<'a> RolesClient<'a> {
    /// The client these endpoints are called through.
    pub closed spec fn bound_client(&self) -> &'a Client {
        self.client
    }

    pub(crate) fn new(client: &'a Client) -> (r: Self)
        ensures
            r.bound_client() == client,
    {
        Self { client }
    }

    /// Returns a reference to the underlying client.
    pub fn client(&self) -> (r: &Client)
        ensures
            r == self.bound_client(),
    {
        self.client
    }

    /// List roles: the request that this endpoint sends.
    pub fn list_request(&self, merchant_code: &str) -> (r: ApiRequest)
        ensures
            r.method == HttpMethod::Get,
            r.path@ == "/v0.1/merchants/"@ + merchant_code@ + "/roles"@,
            r.url@ == self.bound_client().base_url_view() + r.path@,
            r.query@.len() == 0,
            r.responses@ == seq![
                (StatusOutcome { status: 200u16, outcome: Outcome::Success { variant: None, body: BodyRead::Json("ListResponse") } }),
                (StatusOutcome { status: 404u16, outcome: Outcome::Api { variant: "ListErrorBody::NotFound", body: BodyRead::Json("Problem") } }),
            ],
            r.otherwise == (Outcome::Unexpected { body: BodyRead::Bytes }),
            r.runtime_headers == true,
            r.body == RequestBody::Empty,
    {
        let mut path = String::from_str("/v0.1/merchants/");
        path.append(merchant_code);
        path.append("/roles");
        let mut url = self.client.base_url().to_owned();
        url.append(path.as_str());
        let mut query: Vec<QueryParam> = Vec::new();
        assert(query_view(query@) =~= seq![]);
        ApiRequest {
            method: HttpMethod::Get,
            path,
            url,
            query,
            responses: vec![
                StatusOutcome { status: 200, outcome: Outcome::Success { variant: None, body: BodyRead::Json("ListResponse") } },
                StatusOutcome { status: 404, outcome: Outcome::Api { variant: "ListErrorBody::NotFound", body: BodyRead::Json("Problem") } },
            ],
            otherwise: Outcome::Unexpected { body: BodyRead::Bytes },
            runtime_headers: true,
            body: RequestBody::Empty,
        }
    }

    /// Create a role: the request that this endpoint sends.
    pub fn create_request(&self, merchant_code: &str) -> (r: ApiRequest)
        ensures
            r.method == HttpMethod::Post,
            r.path@ == "/v0.1/merchants/"@ + merchant_code@ + "/roles"@,
            r.url@ == self.bound_client().base_url_view() + r.path@,
            r.query@.len() == 0,
            r.responses@ == seq![
                (StatusOutcome { status: 201u16, outcome: Outcome::Success { variant: None, body: BodyRead::Json("Role") } }),
                (StatusOutcome { status: 400u16, outcome: Outcome::Api { variant: "CreateErrorBody::BadRequest", body: BodyRead::Json("Problem") } }),
                (StatusOutcome { status: 404u16, outcome: Outcome::Api { variant: "CreateErrorBody::NotFound", body: BodyRead::Json("Problem") } }),
            ],
            r.otherwise == (Outcome::Unexpected { body: BodyRead::Bytes }),
            r.runtime_headers == true,
            r.body == (RequestBody::Json("CreateBody")),
    {
        let mut path = String::from_str("/v0.1/merchants/");
        path.append(merchant_code);
        path.append("/roles");
        let mut url = self.client.base_url().to_owned();
        url.append(path.as_str());
        let mut query: Vec<QueryParam> = Vec::new();
        assert(query_view(query@) =~= seq![]);
        ApiRequest {
            method: HttpMethod::Post,
            path,
            url,
            query,
            responses: vec![
                StatusOutcome { status: 201, outcome: Outcome::Success { variant: None, body: BodyRead::Json("Role") } },
                StatusOutcome { status: 400, outcome: Outcome::Api { variant: "CreateErrorBody::BadRequest", body: BodyRead::Json("Problem") } },
                StatusOutcome { status: 404, outcome: Outcome::Api { variant: "CreateErrorBody::NotFound", body: BodyRead::Json("Problem") } },
            ],
            otherwise: Outcome::Unexpected { body: BodyRead::Bytes },
            runtime_headers: true,
            body: RequestBody::Json("CreateBody"),
        }
    }

    /// Delete a role: the request that this endpoint sends.
    pub fn delete_request(&self, merchant_code: &str, role_id: &str) -> (r: ApiRequest)
        ensures
            r.method == HttpMethod::Delete,
            r.path@ == "/v0.1/merchants/"@ + merchant_code@ + "/roles/"@ + role_id@,
            r.url@ == self.bound_client().base_url_view() + r.path@,
            r.query@.len() == 0,
            r.responses@ == seq![
                (StatusOutcome { status: 200u16, outcome: Outcome::Success { variant: None, body: BodyRead::Ignored } }),
                (StatusOutcome { status: 400u16, outcome: Outcome::Api { variant: "DeleteErrorBody::BadRequest", body: BodyRead::Json("Problem") } }),
                (StatusOutcome { status: 404u16, outcome: Outcome::Api { variant: "DeleteErrorBody::NotFound", body: BodyRead::Json("Problem") } }),
            ],
            r.otherwise == (Outcome::Unexpected { body: BodyRead::Bytes }),
            r.runtime_headers == true,
            r.body == RequestBody::Empty,
    {
        let mut path = String::from_str("/v0.1/merchants/");
        path.append(merchant_code);
        path.append("/roles/");
        path.append(role_id);
        let mut url = self.client.base_url().to_owned();
        url.append(path.as_str());
        let mut query: Vec<QueryParam> = Vec::new();
        assert(query_view(query@) =~= seq![]);
        ApiRequest {
            method: HttpMethod::Delete,
            path,
            url,
            query,
            responses: vec![
                StatusOutcome { status: 200, outcome: Outcome::Success { variant: None, body: BodyRead::Ignored } },
                StatusOutcome { status: 400, outcome: Outcome::Api { variant: "DeleteErrorBody::BadRequest", body: BodyRead::Json("Problem") } },
                StatusOutcome { status: 404, outcome: Outcome::Api { variant: "DeleteErrorBody::NotFound", body: BodyRead::Json("Problem") } },
            ],
            otherwise: Outcome::Unexpected { body: BodyRead::Bytes },
            runtime_headers: true,
            body: RequestBody::Empty,
        }
    }

    /// Retrieve a role: the request that this endpoint sends.
    pub fn get_request(&self, merchant_code: &str, role_id: &str) -> (r: ApiRequest)
        ensures
            r.method == HttpMethod::Get,
            r.path@ == "/v0.1/merchants/"@ + merchant_code@ + "/roles/"@ + role_id@,
            r.url@ == self.bound_client().base_url_view() + r.path@,
            r.query@.len() == 0,
            r.responses@ == seq![
                (StatusOutcome { status: 200u16, outcome: Outcome::Success { variant: None, body: BodyRead::Json("Role") } }),
                (StatusOutcome { status: 404u16, outcome: Outcome::Api { variant: "GetErrorBody::NotFound", body: BodyRead::Json("Problem") } }),
            ],
            r.otherwise == (Outcome::Unexpected { body: BodyRead::Bytes }),
            r.runtime_headers == true,
            r.body == RequestBody::Empty,
    {
        let mut path = String::from_str("/v0.1/merchants/");
        path.append(merchant_code);
        path.append("/roles/");
        path.append(role_id);
        let mut url = self.client.base_url().to_owned();
        url.append(path.as_str());
        let mut query: Vec<QueryParam> = Vec::new();
        assert(query_view(query@) =~= seq![]);
        ApiRequest {
            method: HttpMethod::Get,
            path,
            url,
            query,
            responses: vec![
                StatusOutcome { status: 200, outcome: Outcome::Success { variant: None, body: BodyRead::Json("Role") } },
                StatusOutcome { status: 404, outcome: Outcome::Api { variant: "GetErrorBody::NotFound", body: BodyRead::Json("Problem") } },
            ],
            otherwise: Outcome::Unexpected { body: BodyRead::Bytes },
            runtime_headers: true,
            body: RequestBody::Empty,
        }
    }

    /// Update a role: the request that this endpoint sends.
    pub fn update_request(&self, merchant_code: &str, role_id: &str) -> (r: ApiRequest)
        ensures
            r.method == HttpMethod::Patch,
            r.path@ == "/v0.1/merchants/"@ + merchant_code@ + "/roles/"@ + role_id@,
            r.url@ == self.bound_client().base_url_view() + r.path@,
            r.query@.len() == 0,
            r.responses@ == seq![
                (StatusOutcome { status: 200u16, outcome: Outcome::Success { variant: None, body: BodyRead::Json("Role") } }),
                (StatusOutcome { status: 400u16, outcome: Outcome::Api { variant: "UpdateErrorBody::BadRequest", body: BodyRead::Json("Problem") } }),
                (StatusOutcome { status: 404u16, outcome: Outcome::Api { variant: "UpdateErrorBody::NotFound", body: BodyRead::Json("Problem") } }),
            ],
            r.otherwise == (Outcome::Unexpected { body: BodyRead::Bytes }),
            r.runtime_headers == true,
            r.body == (RequestBody::Json("UpdateBody")),
    {
        let mut path = String::from_str("/v0.1/merchants/");
        path.append(merchant_code);
        path.append("/roles/");
        path.append(role_id);
        let mut url = self.client.base_url().to_owned();
        url.append(path.as_str());
        let mut query: Vec<QueryParam> = Vec::new();
        assert(query_view(query@) =~= seq![]);
        ApiRequest {
            method: HttpMethod::Patch,
            path,
            url,
            query,
            responses: vec![
                StatusOutcome { status: 200, outcome: Outcome::Success { variant: None, body: BodyRead::Json("Role") } },
                StatusOutcome { status: 400, outcome: Outcome::Api { variant: "UpdateErrorBody::BadRequest", body: BodyRead::Json("Problem") } },
                StatusOutcome { status: 404, outcome: Outcome::Api { variant: "UpdateErrorBody::NotFound", body: BodyRead::Json("Problem") } },
            ],
            otherwise: Outcome::Unexpected { body: BodyRead::Bytes },
            runtime_headers: true,
            body: RequestBody::Json("UpdateBody"),
        }
    }
}

} // verus!
