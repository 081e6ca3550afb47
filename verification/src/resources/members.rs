//! Members of a merchant account: the data model and the request that each
//! endpoint sends.
use super::common::{MembershipStatus};
use crate::client::Client;
use crate::datetime::{DateTime};
use crate::http::{ApiRequest, BodyRead, HttpMethod, Outcome, QueryParam, RequestBody, StatusOutcome, flag_entry, integer_entry, into_wire_opt, opt_text, opt_texts, opt_wire_name, push_flag, push_integer, push_text, push_texts, query_view, text_entry, texts_entry};
use vstd::prelude::*;

verus! {

/// Information about the user associated with the membership.
#[derive(Debug, Clone)]
pub struct MembershipUser {
    /// Identifier for the End-User (also called Subject).
    pub id: String,
    /// End-User's preferred e-mail address. Its value MUST conform to the RFC 5322 [RFC5322] addr-spec syntax. The RP MUST NOT rely upon this value being unique, for unique identification use ID instead.
    pub email: String,
    /// True if the user has enabled MFA on login.
    pub mfa_on_login_enabled: bool,
    /// True if the user is a virtual user (operator).
    pub virtual_user: bool,
    /// True if the user is a service account.
    pub service_account_user: bool,
    /// Time when the user has been disabled. Applies only to virtual users (`virtual_user: true`).
    pub disabled_at: Option<DateTime>,
    /// User's preferred name. Used for display purposes only.
    pub nickname: Option<String>,
    /// URL of the End-User's profile picture. This URL refers to an image file (for example, a PNG, JPEG, or GIF image file), rather than to a Web page containing an image.
    pub picture: Option<String>,
    pub classic: Option<MembershipUserClassic>,
}

/// Classic identifiers of the user.
/// Deprecated.
#[derive(Debug, Clone)]
pub struct MembershipUserClassic {
    pub user_id: i32,
}

/// Allows you to update user data of managed users.
///
/// It has no `Debug` impl: it carries a password.
#[derive(Clone, Default)]
pub struct UpdateMerchantMemberBodyUser {
    /// User's preferred name. Used for display purposes only.
    pub nickname: Option<String>,
    /// Password of the member to add. Only used if `is_managed_user` is true.
    pub password: Option<crate::secret::Password>,
}

#[derive(Debug, Clone, Default)]
pub struct ListMerchantMembersParams {
    /// Offset of the first member to return.
    pub offset: Option<i64>,
    /// Maximum number of members to return.
    pub limit: Option<i64>,
    /// Indicates to skip count query.
    pub scroll: Option<bool>,
    /// Filter the returned members by email address prefix.
    pub email: Option<String>,
    /// Search for a member by user id.
    pub user_id: Option<String>,
    /// Filter the returned members by the membership status.
    pub status: Option<MembershipStatus>,
    /// Filter the returned members by role.
    pub roles: Option<Vec<String>>,
}

#[derive(Debug)]
pub enum ListMerchantMembersErrorBody {
    NotFound,
}

#[derive(Debug)]
pub enum CreateMerchantMemberErrorBody {
    BadRequest,
    NotFound,
    TooManyRequests,
}

#[derive(Debug)]
pub enum DeleteMerchantMemberErrorBody {
    NotFound,
}

#[derive(Debug)]
pub enum GetMerchantMemberErrorBody {
    NotFound,
}

#[derive(Debug)]
pub enum UpdateMerchantMemberErrorBody {
    BadRequest,
    Forbidden,
    NotFound,
    Conflict,
}

/// Client for the Members API endpoints.
#[derive(Debug)]
pub struct MembersClient<'a> {
    client: &'a Client,
}

impl<'a> MembersClient<'a> {
    /// The client these endpoints are called through.
    pub closed spec fn bound_client(&self) -> &'a Client {
        self.client
    }

    pub(crate) fn new(client: &'a Client) -> (r: Self)
        ensures
            r.bound_client() == client,
    {
        Self { client }
    }

    /// Returns a reference to the underlying client.
    pub fn client(&self) -> (r: &Client)
        ensures
            r == self.bound_client(),
    {
        self.client
    }

    /// List members: the request that this endpoint sends.
    pub fn list_request(&self, merchant_code: &str, params: ListMerchantMembersParams) -> (r: ApiRequest)
        ensures
            r.method == HttpMethod::Get,
            r.path@ == "/v0.1/merchants/"@ + merchant_code@ + "/members"@,
            r.url@ == self.bound_client().base_url_view() + r.path@,
            query_view(r.query@) == integer_entry("offset"@, params.offset) + integer_entry("limit"@, params.limit) + flag_entry("scroll"@, params.scroll) + text_entry("email"@, opt_text(params.email)) + text_entry("user.id"@, opt_text(params.user_id)) + text_entry("status"@, opt_wire_name(params.status)) + texts_entry("roles"@, opt_texts(params.roles)),
            r.responses@ == seq![
                (StatusOutcome { status: 200u16, outcome: Outcome::Success { variant: None, body: BodyRead::Json("ListMerchantMembersResponse") } }),
                (StatusOutcome { status: 404u16, outcome: Outcome::Api { variant: "ListMerchantMembersErrorBody::NotFound", body: BodyRead::Ignored } }),
            ],
            r.otherwise == (Outcome::Unexpected { body: BodyRead::Bytes }),
            r.runtime_headers == false,
            r.body == RequestBody::Empty,
    {
        let mut path = String::from_str("/v0.1/merchants/");
        path.append(merchant_code);
        path.append("/members");
        let mut url = self.client.base_url().to_owned();
        url.append(path.as_str());
        let mut query: Vec<QueryParam> = Vec::new();
        assert(query_view(query@) =~= seq![]);
        push_integer(&mut query, "offset", params.offset);
        push_integer(&mut query, "limit", params.limit);
        push_flag(&mut query, "scroll", params.scroll);
        push_text(&mut query, "email", params.email);
        push_text(&mut query, "user.id", params.user_id);
        push_text(&mut query, "status", into_wire_opt(params.status));
        push_texts(&mut query, "roles", params.roles);
        ApiRequest {
            method: HttpMethod::Get,
            path,
            url,
            query,
            responses: vec![
                StatusOutcome { status: 200, outcome: Outcome::Success { variant: None, body: BodyRead::Json("ListMerchantMembersResponse") } },
                StatusOutcome { status: 404, outcome: Outcome::Api { variant: "ListMerchantMembersErrorBody::NotFound", body: BodyRead::Ignored } },
            ],
            otherwise: Outcome::Unexpected { body: BodyRead::Bytes },
            runtime_headers: false,
            body: RequestBody::Empty,
        }
    }

    /// Create a member: the request that this endpoint sends.
    pub fn create_request(&self, merchant_code: &str) -> (r: ApiRequest)
        ensures
            r.method == HttpMethod::Post,
            r.path@ == "/v0.1/merchants/"@ + merchant_code@ + "/members"@,
            r.url@ == self.bound_client().base_url_view() + r.path@,
            r.query@.len() == 0,
            r.responses@ == seq![
                (StatusOutcome { status: 201u16, outcome: Outcome::Success { variant: None, body: BodyRead::Json("Member") } }),
                (StatusOutcome { status: 400u16, outcome: Outcome::Api { variant: "CreateMerchantMemberErrorBody::BadRequest", body: BodyRead::Ignored } }),
                (StatusOutcome { status: 404u16, outcome: Outcome::Api { variant: "CreateMerchantMemberErrorBody::NotFound", body: BodyRead::Ignored } }),
                (StatusOutcome { status: 429u16, outcome: Outcome::Api { variant: "CreateMerchantMemberErrorBody::TooManyRequests", body: BodyRead::Ignored } }),
            ],
            r.otherwise == (Outcome::Unexpected { body: BodyRead::Bytes }),
            r.runtime_headers == false,
            r.body == (RequestBody::Json("CreateMerchantMemberBody")),
    {
        let mut path = String::from_str("/v0.1/merchants/");
        path.append(merchant_code);
        path.append("/members");
        let mut url = self.client.base_url().to_owned();
        url.append(path.as_str());
        let mut query: Vec<QueryParam> = Vec::new();
        assert(query_view(query@) =~= seq![]);
        ApiRequest {
            method: HttpMethod::Post,
            path,
            url,
            query,
            responses: vec![
                StatusOutcome { status: 201, outcome: Outcome::Success { variant: None, body: BodyRead::Json("Member") } },
                StatusOutcome { status: 400, outcome: Outcome::Api { variant: "CreateMerchantMemberErrorBody::BadRequest", body: BodyRead::Ignored } },
                StatusOutcome { status: 404, outcome: Outcome::Api { variant: "CreateMerchantMemberErrorBody::NotFound", body: BodyRead::Ignored } },
                StatusOutcome { status: 429, outcome: Outcome::Api { variant: "CreateMerchantMemberErrorBody::TooManyRequests", body: BodyRead::Ignored } },
            ],
            otherwise: Outcome::Unexpected { body: BodyRead::Bytes },
            runtime_headers: false,
            body: RequestBody::Json("CreateMerchantMemberBody"),
        }
    }

    /// Delete a member: the request that this endpoint sends.
    pub fn delete_request(&self, merchant_code: &str, member_id: &str) -> (r: ApiRequest)
        ensures
            r.method == HttpMethod::Delete,
            r.path@ == "/v0.1/merchants/"@ + merchant_code@ + "/members/"@ + member_id@,
            r.url@ == self.bound_client().base_url_view() + r.path@,
            r.query@.len() == 0,
            r.responses@ == seq![
                (StatusOutcome { status: 200u16, outcome: Outcome::Success { variant: None, body: BodyRead::Ignored } }),
                (StatusOutcome { status: 404u16, outcome: Outcome::Api { variant: "DeleteMerchantMemberErrorBody::NotFound", body: BodyRead::Ignored } }),
            ],
            r.otherwise == (Outcome::Unexpected { body: BodyRead::Bytes }),
            r.runtime_headers == false,
            r.body == RequestBody::Empty,
    {
        let mut path = String::from_str("/v0.1/merchants/");
        path.append(merchant_code);
        path.append("/members/");
        path.append(member_id);
        let mut url = self.client.base_url().to_owned();
        url.append(path.as_str());
        let mut query: Vec<QueryParam> = Vec::new();
        assert(query_view(query@) =~= seq![]);
        ApiRequest {
            method: HttpMethod::Delete,
            path,
            url,
            query,
            responses: vec![
                StatusOutcome { status: 200, outcome: Outcome::Success { variant: None, body: BodyRead::Ignored } },
                StatusOutcome { status: 404, outcome: Outcome::Api { variant: "DeleteMerchantMemberErrorBody::NotFound", body: BodyRead::Ignored } },
            ],
            otherwise: Outcome::Unexpected { body: BodyRead::Bytes },
            runtime_headers: false,
            body: RequestBody::Empty,
        }
    }

    /// Retrieve a member: the request that this endpoint sends.
    pub fn get_request(&self, merchant_code: &str, member_id: &str) -> (r: ApiRequest)
        ensures
            r.method == HttpMethod::Get,
            r.path@ == "/v0.1/merchants/"@ + merchant_code@ + "/members/"@ + member_id@,
            r.url@ == self.bound_client().base_url_view() + r.path@,
            r.query@.len() == 0,
            r.responses@ == seq![
                (StatusOutcome { status: 200u16, outcome: Outcome::Success { variant: None, body: BodyRead::Json("Member") } }),
                (StatusOutcome { status: 404u16, outcome: Outcome::Api { variant: "GetMerchantMemberErrorBody::NotFound", body: BodyRead::Ignored } }),
            ],
            r.otherwise == (Outcome::Unexpected { body: BodyRead::Bytes }),
            r.runtime_headers == false,
            r.body == RequestBody::Empty,
    {
        let mut path = String::from_str("/v0.1/merchants/");
        path.append(merchant_code);
        path.append("/members/");
        path.append(member_id);
        let mut url = self.client.base_url().to_owned();
        url.append(path.as_str());
        let mut query: Vec<QueryParam> = Vec::new();
        assert(query_view(query@) =~= seq![]);
        ApiRequest {
            method: HttpMethod::Get,
            path,
            url,
            query,
            responses: vec![
                StatusOutcome { status: 200, outcome: Outcome::Success { variant: None, body: BodyRead::Json("Member") } },
                StatusOutcome { status: 404, outcome: Outcome::Api { variant: "GetMerchantMemberErrorBody::NotFound", body: BodyRead::Ignored } },
            ],
            otherwise: Outcome::Unexpected { body: BodyRead::Bytes },
            runtime_headers: false,
            body: RequestBody::Empty,
        }
    }

    /// Update a member: the request that this endpoint sends.
    pub fn update_request(&self, merchant_code: &str, member_id: &str) -> (r: ApiRequest)
        ensures
            r.method == HttpMethod::Put,
            r.path@ == "/v0.1/merchants/"@ + merchant_code@ + "/members/"@ + member_id@,
            r.url@ == self.bound_client().base_url_view() + r.path@,
            r.query@.len() == 0,
            r.responses@ == seq![
                (StatusOutcome { status: 200u16, outcome: Outcome::Success { variant: None, body: BodyRead::Json("Member") } }),
                (StatusOutcome { status: 400u16, outcome: Outcome::Api { variant: "UpdateMerchantMemberErrorBody::BadRequest", body: BodyRead::Ignored } }),
                (StatusOutcome { status: 403u16, outcome: Outcome::Api { variant: "UpdateMerchantMemberErrorBody::Forbidden", body: BodyRead::Ignored } }),
                (StatusOutcome { status: 404u16, outcome: Outcome::Api { variant: "UpdateMerchantMemberErrorBody::NotFound", body: BodyRead::Ignored } }),
                (StatusOutcome { status: 409u16, outcome: Outcome::Api { variant: "UpdateMerchantMemberErrorBody::Conflict", body: BodyRead::Ignored } }),
            ],
            r.otherwise == (Outcome::Unexpected { body: BodyRead::Bytes }),
            r.runtime_headers == false,
            r.body == (RequestBody::Json("UpdateMerchantMemberBody")),
    {
        let mut path = String::from_str("/v0.1/merchants/");
        path.append(merchant_code);
        path.append("/members/");
        path.append(member_id);
        let mut url = self.client.base_url().to_owned();
        url.append(path.as_str());
        let mut query: Vec<QueryParam> = Vec::new();
        assert(query_view(query@) =~= seq![]);
        ApiRequest {
            method: HttpMethod::Put,
            path,
            url,
            query,
            responses: vec![
                StatusOutcome { status: 200, outcome: Outcome::Success { variant: None, body: BodyRead::Json("Member") } },
                StatusOutcome { status: 400, outcome: Outcome::Api { variant: "UpdateMerchantMemberErrorBody::BadRequest", body: BodyRead::Ignored } },
                StatusOutcome { status: 403, outcome: Outcome::Api { variant: "UpdateMerchantMemberErrorBody::Forbidden", body: BodyRead::Ignored } },
                StatusOutcome { status: 404, outcome: Outcome::Api { variant: "UpdateMerchantMemberErrorBody::NotFound", body: BodyRead::Ignored } },
                StatusOutcome { status: 409, outcome: Outcome::Api { variant: "UpdateMerchantMemberErrorBody::Conflict", body: BodyRead::Ignored } },
            ],
            otherwise: Outcome::Unexpected { body: BodyRead::Bytes },
            runtime_headers: false,
            body: RequestBody::Json("UpdateMerchantMemberBody"),
        }
    }
}

} // verus!
