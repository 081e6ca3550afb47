//! Operators (sub-accounts) of a merchant account: the data model and the
//! request that each endpoint sends.
use super::common::{Error};
use crate::client::Client;
use crate::datetime::{DateTime};
use crate::http::{ApiRequest, BodyRead, HttpMethod, Outcome, QueryParam, RequestBody, StatusOutcome, flag_entry, opt_text, push_flag, push_text, query_view, text_entry};
use vstd::prelude::*;

verus! {

/// List of operators.
pub type ListSubAccountsResponse = Vec<Operator>;

/// Error object for compat API calls.
#[derive(Debug, Clone)]
pub struct CompatError {
    pub error_code: String,
    pub message: String,
}

impl CompatError {
    /// The text that the error shows: its message.
    pub fn display_text(&self) -> (r: &str)
        ensures
            r@ == self.message@,
    {
        self.message.as_str()
    }
}

/// Operator account for a merchant.
#[derive(Debug, Clone)]
pub struct Operator {
    pub id: i64,
    pub username: String,
    pub nickname: Option<String>,
    pub disabled: bool,
    /// The timestamp of when the operator was created.
    pub created_at: DateTime,
    /// The timestamp of when the operator was last updated.
    pub updated_at: DateTime,
    pub permissions: Permissions,
    pub account_type: String,
}

/// Permissions assigned to an operator or user.
#[derive(Debug, Clone)]
pub struct Permissions {
    pub create_moto_payments: bool,
    pub create_referral: bool,
    pub full_transaction_history_view: bool,
    pub refund_transactions: bool,
    pub admin: bool,
}

#[derive(Debug, Clone, Default)]
pub struct CreateSubAccountBodyPermissions {
    pub create_moto_payments: Option<bool>,
    pub create_referral: Option<bool>,
    pub full_transaction_history_view: Option<bool>,
    pub refund_transactions: Option<bool>,
}

#[derive(Debug, Clone, Default)]
pub struct UpdateSubAccountBodyPermissions {
    pub create_moto_payments: Option<bool>,
    pub create_referral: Option<bool>,
    pub full_transaction_history_view: Option<bool>,
    pub refund_transactions: Option<bool>,
}

#[derive(Debug, Clone, Default)]
pub struct ListSubAccountsParams {
    /// Search query used to filter users that match given query term.
    ///
    /// Current implementation allow querying only over the email address.
    /// All operators whos email address contains the query string are returned.
    pub query: Option<String>,
    /// If true the list of operators will include also the primary user.
    pub include_primary: Option<bool>,
}

#[derive(Debug, Clone)]
pub struct CreateSubAccountBody {
    pub username: String,
    pub password: String,
    pub nickname: Option<String>,
    pub permissions: Option<CreateSubAccountBodyPermissions>,
}

#[derive(Debug, Clone, Default)]
pub struct UpdateSubAccountBody {
    pub password: Option<String>,
    pub username: Option<String>,
    pub disabled: Option<bool>,
    pub nickname: Option<String>,
    pub permissions: Option<UpdateSubAccountBodyPermissions>,
}

/// Client for the Subaccounts API endpoints.
#[derive(Debug)]
pub struct SubaccountsClient<'a> {
    client: &'a Client,
}

impl<'a> SubaccountsClient<'a> {
    /// The client these endpoints are called through.
    pub closed spec fn bound_client(&self) -> &'a Client {
        self.client
    }

    pub(crate) fn new(client: &'a Client) -> (r: Self)
        ensures
            r.bound_client() == client,
    {
        Self { client }
    }

    /// Returns a reference to the underlying client.
    pub fn client(&self) -> (r: &Client)
        ensures
            r == self.bound_client(),
    {
        self.client
    }

    /// List operators: the request that this endpoint sends.
    pub fn list_sub_accounts_request(&self, params: ListSubAccountsParams) -> (r: ApiRequest)
        ensures
            r.method == HttpMethod::Get,
            r.path@ == "/v0.1/me/accounts"@,
            r.url@ == self.bound_client().base_url_view() + r.path@,
            query_view(r.query@) == text_entry("query"@, opt_text(params.query)) + flag_entry("include_primary"@, params.include_primary),
            r.responses@ == seq![
                (StatusOutcome { status: 200u16, outcome: Outcome::Success { variant: None, body: BodyRead::Json("ListSubAccountsResponse") } }),
            ],
            r.otherwise == Outcome::Failed,
            r.runtime_headers == false,
            r.body == RequestBody::Empty,
    {
        let mut path = String::from_str("/v0.1/me/accounts");
        let mut url = self.client.base_url().to_owned();
        url.append(path.as_str());
        let mut query: Vec<QueryParam> = Vec::new();
        assert(query_view(query@) =~= seq![]);
        push_text(&mut query, "query", params.query);
        push_flag(&mut query, "include_primary", params.include_primary);
        ApiRequest {
            method: HttpMethod::Get,
            path,
            url,
            query,
            responses: vec![
                StatusOutcome { status: 200, outcome: Outcome::Success { variant: None, body: BodyRead::Json("ListSubAccountsResponse") } },
            ],
            otherwise: Outcome::Failed,
            runtime_headers: false,
            body: RequestBody::Empty,
        }
    }

    /// Create an operator: the request that this endpoint sends.
    pub fn create_sub_account_request(&self) -> (r: ApiRequest)
        ensures
            r.method == HttpMethod::Post,
            r.path@ == "/v0.1/me/accounts"@,
            r.url@ == self.bound_client().base_url_view() + r.path@,
            r.query@.len() == 0,
            r.responses@ == seq![
                (StatusOutcome { status: 200u16, outcome: Outcome::Success { variant: None, body: BodyRead::Json("Operator") } }),
                (StatusOutcome { status: 403u16, outcome: Outcome::Boxed { body: BodyRead::Json("CompatError") } }),
            ],
            r.otherwise == Outcome::Failed,
            r.runtime_headers == false,
            r.body == (RequestBody::Json("CreateSubAccountBody")),
    {
        let mut path = String::from_str("/v0.1/me/accounts");
        let mut url = self.client.base_url().to_owned();
        url.append(path.as_str());
        let mut query: Vec<QueryParam> = Vec::new();
        assert(query_view(query@) =~= seq![]);
        ApiRequest {
            method: HttpMethod::Post,
            path,
            url,
            query,
            responses: vec![
                StatusOutcome { status: 200, outcome: Outcome::Success { variant: None, body: BodyRead::Json("Operator") } },
                StatusOutcome { status: 403, outcome: Outcome::Boxed { body: BodyRead::Json("CompatError") } },
            ],
            otherwise: Outcome::Failed,
            runtime_headers: false,
            body: RequestBody::Json("CreateSubAccountBody"),
        }
    }

    /// Disable an operator.: the request that this endpoint sends.
    pub fn deactivate_sub_account_request(&self, operator_id: &str) -> (r: ApiRequest)
        ensures
            r.method == HttpMethod::Delete,
            r.path@ == "/v0.1/me/accounts/"@ + operator_id@,
            r.url@ == self.bound_client().base_url_view() + r.path@,
            r.query@.len() == 0,
            r.responses@ == seq![
                (StatusOutcome { status: 200u16, outcome: Outcome::Success { variant: None, body: BodyRead::Json("Operator") } }),
            ],
            r.otherwise == Outcome::Failed,
            r.runtime_headers == false,
            r.body == RequestBody::Empty,
    {
        let mut path = String::from_str("/v0.1/me/accounts/");
        path.append(operator_id);
        let mut url = self.client.base_url().to_owned();
        url.append(path.as_str());
        let mut query: Vec<QueryParam> = Vec::new();
        assert(query_view(query@) =~= seq![]);
        ApiRequest {
            method: HttpMethod::Delete,
            path,
            url,
            query,
            responses: vec![
                StatusOutcome { status: 200, outcome: Outcome::Success { variant: None, body: BodyRead::Json("Operator") } },
            ],
            otherwise: Outcome::Failed,
            runtime_headers: false,
            body: RequestBody::Empty,
        }
    }

    /// Retrieve an operator: the request that this endpoint sends.
    pub fn compat_get_operator_request(&self, operator_id: &str) -> (r: ApiRequest)
        ensures
            r.method == HttpMethod::Get,
            r.path@ == "/v0.1/me/accounts/"@ + operator_id@,
            r.url@ == self.bound_client().base_url_view() + r.path@,
            r.query@.len() == 0,
            r.responses@ == seq![
                (StatusOutcome { status: 200u16, outcome: Outcome::Success { variant: None, body: BodyRead::Json("Operator") } }),
            ],
            r.otherwise == Outcome::Failed,
            r.runtime_headers == false,
            r.body == RequestBody::Empty,
    {
        let mut path = String::from_str("/v0.1/me/accounts/");
        path.append(operator_id);
        let mut url = self.client.base_url().to_owned();
        url.append(path.as_str());
        let mut query: Vec<QueryParam> = Vec::new();
        assert(query_view(query@) =~= seq![]);
        ApiRequest {
            method: HttpMethod::Get,
            path,
            url,
            query,
            responses: vec![
                StatusOutcome { status: 200, outcome: Outcome::Success { variant: None, body: BodyRead::Json("Operator") } },
            ],
            otherwise: Outcome::Failed,
            runtime_headers: false,
            body: RequestBody::Empty,
        }
    }

    /// Update an operator: the request that this endpoint sends.
    pub fn update_sub_account_request(&self, operator_id: &str) -> (r: ApiRequest)
        ensures
            r.method == HttpMethod::Put,
            r.path@ == "/v0.1/me/accounts/"@ + operator_id@,
            r.url@ == self.bound_client().base_url_view() + r.path@,
            r.query@.len() == 0,
            r.responses@ == seq![
                (StatusOutcome { status: 200u16, outcome: Outcome::Success { variant: None, body: BodyRead::Json("Operator") } }),
                (StatusOutcome { status: 400u16, outcome: Outcome::Boxed { body: BodyRead::Json("CompatError") } }),
            ],
            r.otherwise == Outcome::Failed,
            r.runtime_headers == false,
            r.body == (RequestBody::Json("UpdateSubAccountBody")),
    {
        let mut path = String::from_str("/v0.1/me/accounts/");
        path.append(operator_id);
        let mut url = self.client.base_url().to_owned();
        url.append(path.as_str());
        let mut query: Vec<QueryParam> = Vec::new();
        assert(query_view(query@) =~= seq![]);
        ApiRequest {
            method: HttpMethod::Put,
            path,
            url,
            query,
            responses: vec![
                StatusOutcome { status: 200, outcome: Outcome::Success { variant: None, body: BodyRead::Json("Operator") } },
                StatusOutcome { status: 400, outcome: Outcome::Boxed { body: BodyRead::Json("CompatError") } },
            ],
            otherwise: Outcome::Failed,
            runtime_headers: false,
            body: RequestBody::Json("UpdateSubAccountBody"),
        }
    }
}

} // verus!
