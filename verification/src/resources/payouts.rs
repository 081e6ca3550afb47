//! The Payouts model will allow you to track funds you’ve received from SumUp.
//!
//! You can receive a detailed payouts list with information like dates, fees, references and statuses, using the `List payouts` endpoint.
use crate::client::Client;
use crate::datetime::{Date};
use crate::http::{ApiRequest, BodyRead, HttpMethod, Outcome, QueryParam, QueryValue, QueryValueView, RequestBody, StatusOutcome, WireName, integer_entry, into_wire_opt, opt_wire_name, push_integer, push_param, push_text, query_view, text_entry};
use vstd::prelude::*;

verus! {

/// High-level payout record category.
///
/// Example: `PAYOUT`
#[derive(Debug, Clone)]
pub enum FinancialPayoutType {
    Payout,
    ChargeBackDeduction,
    RefundDeduction,
    DdReturnDeduction,
    BalanceDeduction,
    Other(String),
}

/// Merchant-facing outcome of the payout record.
///
/// Example: `SUCCESSFUL`
#[derive(Debug, Clone)]
pub enum FinancialPayoutStatus {
    Successful,
    Failed,
    Other(String),
}

#[derive(Debug, Clone)]
pub enum ListParamsFormat {
    Json,
    Csv,
    Other(String),
}

impl WireName for ListParamsFormat {
    open spec fn wire_name(&self) -> Seq<char> {
        match self {
            ListParamsFormat::Json => "json"@,
            ListParamsFormat::Csv => "csv"@,
            ListParamsFormat::Other(s) => s@,
        }
    }

    fn into_wire(self) -> (r: String) {
        match self {
            ListParamsFormat::Json => String::from_str("json"),
            ListParamsFormat::Csv => String::from_str("csv"),
            ListParamsFormat::Other(s) => s,
        }
    }
}

/// The wire names of the named variants of `ListParamsFormat` are their serde names,
/// and no two named variants share a wire name.
pub proof fn lemma_list_params_format_wire_names()
    ensures
        ListParamsFormat::Json.wire_name() == "json"@,
        ListParamsFormat::Csv.wire_name() == "csv"@,
        forall|a: ListParamsFormat, b: ListParamsFormat|
            !(a is Other) && !(b is Other) && #[trigger] a.wire_name() == #[trigger] b.wire_name() ==> a == b,
{
    assert forall|a: ListParamsFormat, b: ListParamsFormat|
        !(a is Other) && !(b is Other) && #[trigger] a.wire_name() == #[trigger] b.wire_name() implies a == b by {
        reveal_strlit("csv");
        reveal_strlit("json");
        match a {
            ListParamsFormat::Json => {
                match b {
                    ListParamsFormat::Json => {},
                    ListParamsFormat::Csv => { assert("json"@[0] != "csv"@[0]); },
                    ListParamsFormat::Other(_) => {},
                }
            },
            ListParamsFormat::Csv => {
                match b {
                    ListParamsFormat::Json => { assert("csv"@[0] != "json"@[0]); },
                    ListParamsFormat::Csv => {},
                    ListParamsFormat::Other(_) => {},
                }
            },
            ListParamsFormat::Other(_) => {},
        }
    }
}

#[derive(Debug, Clone)]
pub enum ListParamsOrder {
    Asc,
    Desc,
    Other(String),
}

impl WireName for ListParamsOrder {
    open spec fn wire_name(&self) -> Seq<char> {
        match self {
            ListParamsOrder::Asc => "asc"@,
            ListParamsOrder::Desc => "desc"@,
            ListParamsOrder::Other(s) => s@,
        }
    }

    fn into_wire(self) -> (r: String) {
        match self {
            ListParamsOrder::Asc => String::from_str("asc"),
            ListParamsOrder::Desc => String::from_str("desc"),
            ListParamsOrder::Other(s) => s,
        }
    }
}

/// The wire names of the named variants of `ListParamsOrder` are their serde names,
/// and no two named variants share a wire name.
pub proof fn lemma_list_params_order_wire_names()
    ensures
        ListParamsOrder::Asc.wire_name() == "asc"@,
        ListParamsOrder::Desc.wire_name() == "desc"@,
        forall|a: ListParamsOrder, b: ListParamsOrder|
            !(a is Other) && !(b is Other) && #[trigger] a.wire_name() == #[trigger] b.wire_name() ==> a == b,
{
    assert forall|a: ListParamsOrder, b: ListParamsOrder|
        !(a is Other) && !(b is Other) && #[trigger] a.wire_name() == #[trigger] b.wire_name() implies a == b by {
        reveal_strlit("asc");
        reveal_strlit("desc");
        match a {
            ListParamsOrder::Asc => {
                match b {
                    ListParamsOrder::Asc => {},
                    ListParamsOrder::Desc => { assert("asc"@[0] != "desc"@[0]); },
                    ListParamsOrder::Other(_) => {},
                }
            },
            ListParamsOrder::Desc => {
                match b {
                    ListParamsOrder::Asc => { assert("desc"@[0] != "asc"@[0]); },
                    ListParamsOrder::Desc => {},
                    ListParamsOrder::Other(_) => {},
                }
            },
            ListParamsOrder::Other(_) => {},
        }
    }
}

#[derive(Debug, Clone, Default)]
pub struct ListParams {
    /// Start date of the payout period filter, inclusive, in [ISO8601](https://en.wikipedia.org/wiki/ISO_8601) `date` format (`YYYY-MM-DD`).
    ///
    /// Example: `2024-02-01`
    pub start_date: Date,
    /// End date of the payout period filter, inclusive, in [ISO8601](https://en.wikipedia.org/wiki/ISO_8601) `date` format (`YYYY-MM-DD`). Must be greater than or equal to `start_date`.
    ///
    /// Example: `2024-02-29`
    pub end_date: Date,
    /// Response format for the payout list.
    ///
    /// Example: `json`
    pub format: Option<ListParamsFormat>,
    /// Maximum number of payout records to return.
    ///
    /// Constraints:
    /// - value >= 1
    /// - value <= 9999
    ///
    /// Example: `10`
    pub limit: Option<i64>,
    /// Sort direction for the returned payouts.
    ///
    /// Example: `desc`
    pub order: Option<ListParamsOrder>,
}

/// Client for the Payouts API endpoints.
#[derive(Debug)]
pub struct PayoutsClient<'a> {
    client: &'a Client,
}

impl<'a> PayoutsClient<'a> {
    /// The client these endpoints are called through.
    pub closed spec fn bound_client(&self) -> &'a Client {
        self.client
    }

    pub(crate) fn new(client: &'a Client) -> (r: Self)
        ensures
            r.bound_client() == client,
    {
        Self { client }
    }

    /// Returns a reference to the underlying client.
    pub fn client(&self) -> (r: &Client)
        ensures
            r == self.bound_client(),
    {
        self.client
    }

    /// List payouts: the request that this endpoint sends.
    pub fn list_request(&self, merchant_code: &str, params: ListParams) -> (r: ApiRequest)
        ensures
            r.method == HttpMethod::Get,
            r.path@ == "/v1.0/merchants/"@ + merchant_code@ + "/payouts"@,
            r.url@ == self.bound_client().base_url_view() + r.path@,
            query_view(r.query@) == seq![("start_date"@, QueryValueView::Text(params.start_date@))] + seq![("end_date"@, QueryValueView::Text(params.end_date@))] + text_entry("format"@, opt_wire_name(params.format)) + integer_entry("limit"@, params.limit) + text_entry("order"@, opt_wire_name(params.order)),
            r.responses@ == seq![
                (StatusOutcome { status: 200u16, outcome: Outcome::Success { variant: None, body: BodyRead::Json("FinancialPayouts") } }),
                (StatusOutcome { status: 400u16, outcome: Outcome::Api { variant: "ListErrorBody::BadRequest", body: BodyRead::Bytes } }),
                (StatusOutcome { status: 401u16, outcome: Outcome::Api { variant: "ListErrorBody::Unauthorized", body: BodyRead::Json("Problem") } }),
            ],
            r.otherwise == (Outcome::Unexpected { body: BodyRead::Bytes }),
            r.runtime_headers == true,
            r.body == RequestBody::Empty,
    {
        let mut path = String::from_str("/v1.0/merchants/");
        path.append(merchant_code);
        path.append("/payouts");
        let mut url = self.client.base_url().to_owned();
        url.append(path.as_str());
        let mut query: Vec<QueryParam> = Vec::new();
        assert(query_view(query@) =~= seq![]);
        push_param(&mut query, "start_date", QueryValue::Text(params.start_date));
        push_param(&mut query, "end_date", QueryValue::Text(params.end_date));
        push_text(&mut query, "format", into_wire_opt(params.format));
        push_integer(&mut query, "limit", params.limit);
        push_text(&mut query, "order", into_wire_opt(params.order));
        ApiRequest {
            method: HttpMethod::Get,
            path,
            url,
            query,
            responses: vec![
                StatusOutcome { status: 200, outcome: Outcome::Success { variant: None, body: BodyRead::Json("FinancialPayouts") } },
                StatusOutcome { status: 400, outcome: Outcome::Api { variant: "ListErrorBody::BadRequest", body: BodyRead::Bytes } },
                StatusOutcome { status: 401, outcome: Outcome::Api { variant: "ListErrorBody::Unauthorized", body: BodyRead::Json("Problem") } },
            ],
            otherwise: Outcome::Unexpected { body: BodyRead::Bytes },
            runtime_headers: true,
            body: RequestBody::Empty,
        }
    }
}

} // verus!
