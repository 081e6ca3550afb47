//! The memberships of the current user in merchant accounts: the data model
//! and the request that the endpoint sends.
use super::common::{MembershipStatus};
use crate::client::Client;
use crate::http::{ApiRequest, BodyRead, HttpMethod, Outcome, QueryParam, RequestBody, StatusOutcome, flag_entry, integer_entry, into_wire_opt, opt_text, opt_texts, opt_wire_name, push_flag, push_integer, push_text, push_texts, query_view, text_entry, texts_entry};
use vstd::prelude::*;

verus! {

pub type ResourceType = String;

#[derive(Debug, Clone, Default)]
pub struct ListMembershipsParams {
    /// Offset of the first member to return.
    pub offset: Option<i64>,
    /// Maximum number of members to return.
    pub limit: Option<i64>,
    /// Filter memberships by resource kind.
    pub kind: Option<ResourceType>,
    /// Filter the returned memberships by the membership status.
    pub status: Option<MembershipStatus>,
    /// Filter memberships by resource kind.
    pub resource_type: Option<ResourceType>,
    /// Filter memberships by the sandbox status of the resource the membership is in.
    pub resource_attributes_sandbox: Option<bool>,
    /// Filter memberships by the name of the resource the membership is in.
    pub resource_name: Option<String>,
    /// Filter memberships by the parent of the resource the membership is in.
    /// When filtering by parent both `resource.parent.id` and `resource.parent.type` must be present.
    pub resource_parent_id: Option<String>,
    /// Filter memberships by the parent of the resource the membership is in.
    /// When filtering by parent both `resource.parent.id` and `resource.parent.type` must be present.
    pub resource_parent_type: Option<ResourceType>,
    /// Filter the returned memberships by role.
    pub roles: Option<Vec<String>>,
}

/// Client for the Memberships API endpoints.
#[derive(Debug)]
pub struct MembershipsClient<'a> {
    client: &'a Client,
}

impl<'a> MembershipsClient<'a> {
    /// The client these endpoints are called through.
    pub closed spec fn bound_client(&self) -> &'a Client {
        self.client
    }

    pub(crate) fn new(client: &'a Client) -> (r: Self)
        ensures
            r.bound_client() == client,
    {
        Self { client }
    }

    /// Returns a reference to the underlying client.
    pub fn client(&self) -> (r: &Client)
        ensures
            r == self.bound_client(),
    {
        self.client
    }

    /// List memberships: the request that this endpoint sends.
    pub fn list_request(&self, params: ListMembershipsParams) -> (r: ApiRequest)
        ensures
            r.method == HttpMethod::Get,
            r.path@ == "/v0.1/memberships"@,
            r.url@ == self.bound_client().base_url_view() + r.path@,
            query_view(r.query@) == integer_entry("offset"@, params.offset) + integer_entry("limit"@, params.limit) + text_entry("kind"@, opt_text(params.kind)) + text_entry("status"@, opt_wire_name(params.status)) + text_entry("resource.type"@, opt_text(params.resource_type)) + flag_entry("resource.attributes.sandbox"@, params.resource_attributes_sandbox) + text_entry("resource.name"@, opt_text(params.resource_name)) + text_entry("resource.parent.id"@, opt_text(params.resource_parent_id)) + text_entry("resource.parent.type"@, opt_text(params.resource_parent_type)) + texts_entry("roles"@, opt_texts(params.roles)),
            r.responses@ == seq![
                (StatusOutcome { status: 200u16, outcome: Outcome::Success { variant: None, body: BodyRead::Json("ListMembershipsResponse") } }),
            ],
            r.otherwise == (Outcome::Unexpected { body: BodyRead::Bytes }),
            r.runtime_headers == false,
            r.body == RequestBody::Empty,
    {
        let mut path = String::from_str("/v0.1/memberships");
        let mut url = self.client.base_url().to_owned();
        url.append(path.as_str());
        let mut query: Vec<QueryParam> = Vec::new();
        assert(query_view(query@) =~= seq![]);
        push_integer(&mut query, "offset", params.offset);
        push_integer(&mut query, "limit", params.limit);
        push_text(&mut query, "kind", params.kind);
        push_text(&mut query, "status", into_wire_opt(params.status));
        push_text(&mut query, "resource.type", params.resource_type);
        push_flag(&mut query, "resource.attributes.sandbox", params.resource_attributes_sandbox);
        push_text(&mut query, "resource.name", params.resource_name);
        push_text(&mut query, "resource.parent.id", params.resource_parent_id);
        push_text(&mut query, "resource.parent.type", params.resource_parent_type);
        push_texts(&mut query, "roles", params.roles);
        ApiRequest {
            method: HttpMethod::Get,
            path,
            url,
            query,
            responses: vec![
                StatusOutcome { status: 200, outcome: Outcome::Success { variant: None, body: BodyRead::Json("ListMembershipsResponse") } },
            ],
            otherwise: Outcome::Unexpected { body: BodyRead::Bytes },
            runtime_headers: false,
            body: RequestBody::Empty,
        }
    }
}

} // verus!
