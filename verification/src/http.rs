//! The requests that the API clients send, described as plain values: the
//! method, the full URL and the query parameters in the order they are
//! appended. Sending them, and reading the answers, is left to the HTTP layer.
use crate::client::Client;
use crate::version::{user_agent, VERSION};
use vstd::prelude::*;

verus! {

/// HTTP methods used by the API.
#[derive(Debug, Clone, Copy, PartialEq, Eq, Structural)]
pub enum HttpMethod {
    Get,
    Post,
    Put,
    Patch,
    Delete,
}

/// The value of one query parameter, before it is URL-encoded.
#[derive(Debug, Clone)]
pub enum QueryValue {
    Text(String),
    Integer(i64),
    Flag(bool),
    /// A list value, handed to the URL encoder as a sequence.
    Texts(Vec<String>),
}

/// The value of a query parameter, as a mathematical value.
pub enum QueryValueView {
    Text(Seq<char>),
    Integer(i64),
    Flag(bool),
    Texts(Seq<Seq<char>>),
}

/// The texts of a list of strings.
pub open spec fn texts_view(v: Seq<String>) -> Seq<Seq<char>> {
    v.map_values(|s: String| s@)
}

impl QueryValue {
    pub open spec fn view(self) -> QueryValueView {
        match self {
            QueryValue::Text(s) => QueryValueView::Text(s@),
            QueryValue::Integer(i) => QueryValueView::Integer(i),
            QueryValue::Flag(b) => QueryValueView::Flag(b),
            QueryValue::Texts(v) => QueryValueView::Texts(texts_view(v@)),
        }
    }
}

/// Enumerations that have a text form on the wire (their serde name; the
/// catch-all variant carries its own text).
pub trait WireName: Sized {
    /// The text form of the value.
    spec fn wire_name(&self) -> Seq<char>;

    /// Turns the value into its text form.
    fn into_wire(self) -> (r: String)
        ensures
            r@ == self.wire_name(),
    ;
}

/// The text forms of a list of values.
pub open spec fn wire_names<T: WireName>(v: Seq<T>) -> Seq<Seq<char>> {
    v.map_values(|x: T| x.wire_name())
}

/// The text forms of an optional list of values.
pub open spec fn opt_wire_names<T: WireName>(v: Option<Vec<T>>) -> Option<Seq<Seq<char>>> {
    match v {
        Some(v) => Some(wire_names(v@)),
        None => None,
    }
}

/// The text form of an optional value.
pub open spec fn opt_wire_name<T: WireName>(v: Option<T>) -> Option<Seq<char>> {
    match v {
        Some(x) => Some(x.wire_name()),
        None => None,
    }
}

/// Turns each value of a list into its text form.
pub fn into_wire_list<T: WireName>(v: Vec<T>) -> (r: Vec<String>)
    ensures
        texts_view(r@) == wire_names(v@),
{
    let mut v = v;
    let ghost orig = v@;
    let mut r: Vec<String> = Vec::new();
    while v.len() > 0
        invariant
            r@.len() + v@.len() == orig.len(),
            v@ == orig.subrange(r@.len() as int, orig.len() as int),
            texts_view(r@) == wire_names(orig.subrange(0, r@.len() as int)),
        decreases v@.len(),
    {
        let x = v.remove(0);
        let ghost k = r@.len();
        let ghost old_r = r@;
        let w = x.into_wire();
        r.push(w);
        proof {
            assert(x == orig[k as int]);
            assert(texts_view(r@) =~= texts_view(old_r).push(w@));
            assert(wire_names(orig.subrange(0, k as int + 1)) =~= wire_names(orig.subrange(0, k as int)).push(orig[k as int].wire_name()));
            assert(texts_view(r@) =~= wire_names(orig.subrange(0, r@.len() as int)));
            assert(v@ =~= orig.subrange(r@.len() as int, orig.len() as int));
        }
    }
    assert(orig.subrange(0, orig.len() as int) =~= orig);
    r
}

/// Turns an optional value into its text form.
pub fn into_wire_opt<T: WireName>(v: Option<T>) -> (r: Option<String>)
    ensures
        opt_text(r) == opt_wire_name(v),
{
    match v {
        Some(x) => Some(x.into_wire()),
        None => None,
    }
}

/// Turns an optional list of values into their text forms.
pub fn into_wire_list_opt<T: WireName>(v: Option<Vec<T>>) -> (r: Option<Vec<String>>)
    ensures
        opt_texts(r) == opt_wire_names(v),
{
    match v {
        Some(x) => Some(into_wire_list(x)),
        None => None,
    }
}

/// One query parameter.
#[derive(Debug, Clone)]
pub struct QueryParam {
    pub name: String,
    pub value: QueryValue,
}

/// The name and value of each query parameter, in order.
pub open spec fn query_view(q: Seq<QueryParam>) -> Seq<(Seq<char>, QueryValueView)> {
    q.map_values(|p: QueryParam| (p.name@, p.value.view()))
}

/// How the body of an answer is read.
#[derive(Debug, Clone, Copy, PartialEq, Eq)]
pub enum BodyRead {
    /// The body is not read.
    Ignored,
    /// The body is decoded as JSON into the named type of the data model.
    Json(&'static str),
    /// The body is kept as raw bytes.
    Bytes,
    /// The body is kept as text.
    Text,
}

/// What an answer becomes, as the endpoint decides it from the status code.
#[derive(Debug, Clone, Copy, PartialEq, Eq)]
pub enum Outcome {
    /// The call succeeds with the body read as stated; `variant` names the
    /// variant of the result type when the endpoint has one per status.
    Success { variant: Option<&'static str>, body: BodyRead },
    /// An API error: the named variant of the endpoint's error-body type,
    /// holding the body read as stated (`Ignored` for a variant without data).
    Api { variant: &'static str, body: BodyRead },
    /// An API error that keeps the status beside the decoded body, wrapped in
    /// the named variant of the error-body type when there is one.
    ApiParsed { variant: Option<&'static str>, body: BodyRead },
    /// An API error that keeps the status and the body as text.
    ApiRaw,
    /// An answer the endpoint does not document: the status and the body,
    /// kept as stated.
    Unexpected { body: BodyRead },
    /// An error that is the decoded body itself.
    Boxed { body: BodyRead },
    /// An error message: `Request failed with status <status>: <body text>`.
    Failed,
}

/// The outcome of one status code.
#[derive(Debug, Clone, Copy, PartialEq, Eq)]
pub struct StatusOutcome {
    pub status: u16,
    pub outcome: Outcome,
}

/// Whether a request carries a JSON body.
#[derive(Debug, Clone, Copy, PartialEq, Eq)]
pub enum RequestBody {
    /// The request carries no body.
    Empty,
    /// The request always carries the named type of the data model as JSON.
    Json(&'static str),
    /// The request carries the named type as JSON when the caller gives one,
    /// and no body otherwise.
    OptionalJson(&'static str),
}

/// Whether a request whose body is described by `body` may be sent with a
/// body (`given`) or without one.
pub open spec fn body_fits(body: RequestBody, given: bool) -> bool {
    match body {
        RequestBody::Empty => !given,
        RequestBody::Json(_) => given,
        RequestBody::OptionalJson(_) => true,
    }
}

/// A request to the API: method, path, full URL and query parameters, what
/// each status code of the answer makes of it, whether the request carries
/// the runtime headers, and whether it carries a JSON body.
#[derive(Debug, Clone)]
pub struct ApiRequest {
    pub method: HttpMethod,
    /// The path of the endpoint, with its parameters filled in.
    pub path: String,
    pub url: String,
    pub query: Vec<QueryParam>,
    /// The status codes the endpoint names, in the order it checks them.
    pub responses: Vec<StatusOutcome>,
    /// What an answer with any other status becomes.
    pub otherwise: Outcome,
    /// Whether the request also carries the runtime headers that describe
    /// the SDK and the platform (see `runtime_info`).
    pub runtime_headers: bool,
    /// Whether the request carries a JSON body, and of which type.
    pub body: RequestBody,
}

/// The outcome of an answer with `status`: that of the first entry naming
/// the status, else `otherwise`.
pub open spec fn outcome_for(responses: Seq<StatusOutcome>, otherwise: Outcome, status: u16) -> Outcome
    decreases responses.len(),
{
    if responses.len() == 0 {
        otherwise
    } else if responses[0].status == status {
        responses[0].outcome
    } else {
        outcome_for(responses.drop_first(), otherwise, status)
    }
}

impl ApiRequest {
    /// Whether the request may be sent with a body (`given`) or without one:
    /// a request without a body takes none, a request with a body needs one.
    pub fn fits_body(&self, given: bool) -> (r: bool)
        ensures
            r == body_fits(self.body, given),
    {
        match self.body {
            RequestBody::Empty => !given,
            RequestBody::Json(_) => given,
            RequestBody::OptionalJson(_) => true,
        }
    }

    /// Decides, from the status code of the answer, what the answer becomes
    /// and how its body is read.
    pub fn outcome(&self, status: u16) -> (r: Outcome)
        ensures
            r == outcome_for(self.responses@, self.otherwise, status),
    {
        let mut i: usize = 0;
        assert(self.responses@.skip(0) =~= self.responses@);
        while i < self.responses.len()
            invariant
                i <= self.responses@.len(),
                outcome_for(self.responses@, self.otherwise, status) == outcome_for(
                    self.responses@.skip(i as int),
                    self.otherwise,
                    status,
                ),
            decreases self.responses@.len() - i,
        {
            if self.responses[i].status == status {
                return self.responses[i].outcome;
            }
            assert(self.responses@.skip(i as int).drop_first() =~= self.responses@.skip(i + 1));
            i = i + 1;
        }
        self.otherwise
    }
}

/// The query entry for an optional text parameter: one entry when present.
pub open spec fn text_entry(name: Seq<char>, value: Option<Seq<char>>) -> Seq<(Seq<char>, QueryValueView)> {
    match value {
        Some(v) => seq![(name, QueryValueView::Text(v))],
        None => seq![],
    }
}

/// The query entry for an optional integer parameter.
pub open spec fn integer_entry(name: Seq<char>, value: Option<i64>) -> Seq<(Seq<char>, QueryValueView)> {
    match value {
        Some(v) => seq![(name, QueryValueView::Integer(v))],
        None => seq![],
    }
}

/// The query entry for an optional boolean parameter.
pub open spec fn flag_entry(name: Seq<char>, value: Option<bool>) -> Seq<(Seq<char>, QueryValueView)> {
    match value {
        Some(v) => seq![(name, QueryValueView::Flag(v))],
        None => seq![],
    }
}

/// The query entry for an optional list parameter.
pub open spec fn texts_entry(name: Seq<char>, value: Option<Seq<Seq<char>>>) -> Seq<(Seq<char>, QueryValueView)> {
    match value {
        Some(v) => seq![(name, QueryValueView::Texts(v))],
        None => seq![],
    }
}

/// The text of an optional string.
pub open spec fn opt_text(value: Option<String>) -> Option<Seq<char>> {
    match value {
        Some(s) => Some(s@),
        None => None,
    }
}

/// The texts of an optional list of strings.
pub open spec fn opt_texts(value: Option<Vec<String>>) -> Option<Seq<Seq<char>>> {
    match value {
        Some(v) => Some(texts_view(v@)),
        None => None,
    }
}

proof fn lemma_query_view_push(q: Seq<QueryParam>, p: QueryParam)
    ensures
        query_view(q.push(p)) == query_view(q).push((p.name@, p.value.view())),
{
    assert(query_view(q.push(p)) =~= query_view(q).push((p.name@, p.value.view())));
}

/// Appends a parameter.
pub fn push_param(query: &mut Vec<QueryParam>, name: &str, value: QueryValue)
    ensures
        query_view(final(query)@) == query_view(old(query)@) + seq![(name@, value.view())],
{
    let p = QueryParam { name: name.to_owned(), value };
    proof { lemma_query_view_push(query@, p); }
    query.push(p);
    assert(query_view(old(query)@) + seq![(name@, value.view())] =~= query_view(old(query)@).push((name@, value.view())));
}

/// Appends a text parameter when it is present.
pub fn push_text(query: &mut Vec<QueryParam>, name: &str, value: Option<String>)
    ensures
        query_view(final(query)@) == query_view(old(query)@) + text_entry(name@, opt_text(value)),
{
    match value {
        Some(v) => push_param(query, name, QueryValue::Text(v)),
        None => {
            assert(query_view(old(query)@) + text_entry(name@, opt_text(value)) =~= query_view(old(query)@));
        },
    }
}

/// Appends an integer parameter when it is present.
pub fn push_integer(query: &mut Vec<QueryParam>, name: &str, value: Option<i64>)
    ensures
        query_view(final(query)@) == query_view(old(query)@) + integer_entry(name@, value),
{
    match value {
        Some(v) => push_param(query, name, QueryValue::Integer(v)),
        None => {
            assert(query_view(old(query)@) + integer_entry(name@, value) =~= query_view(old(query)@));
        },
    }
}

/// Appends a boolean parameter when it is present.
pub fn push_flag(query: &mut Vec<QueryParam>, name: &str, value: Option<bool>)
    ensures
        query_view(final(query)@) == query_view(old(query)@) + flag_entry(name@, value),
{
    match value {
        Some(v) => push_param(query, name, QueryValue::Flag(v)),
        None => {
            assert(query_view(old(query)@) + flag_entry(name@, value) =~= query_view(old(query)@));
        },
    }
}

/// Appends a list parameter when it is present.
pub fn push_texts(query: &mut Vec<QueryParam>, name: &str, value: Option<Vec<String>>)
    ensures
        query_view(final(query)@) == query_view(old(query)@) + texts_entry(name@, opt_texts(value)),
{
    match value {
        Some(v) => push_param(query, name, QueryValue::Texts(v)),
        None => {
            assert(query_view(old(query)@) + texts_entry(name@, opt_texts(value)) =~= query_view(old(query)@));
        },
    }
}

/// The headers that every request carries: the user agent and, when the
/// client has credentials, the bearer token.
pub open spec fn request_headers_view(client: &Client) -> Seq<(Seq<char>, Seq<char>)> {
    seq![("User-Agent"@, "sumup-rs/v"@ + VERSION@)] + match client.authorization_view() {
        Some(t) => seq![("Authorization"@, "Bearer "@ + t)],
        None => seq![],
    }
}

/// The headers that every request carries.
pub fn request_headers(client: &Client) -> (r: Vec<(String, String)>)
    ensures
        r@.map_values(|h: (String, String)| (h.0@, h.1@)) == request_headers_view(client),
{
    let mut r: Vec<(String, String)> = Vec::new();
    r.push((String::from_str("User-Agent"), user_agent()));
    match client.authorization() {
        Some(token) => {
            let mut value = String::from_str("Bearer ");
            value.append(token);
            r.push((String::from_str("Authorization"), value));
        },
        None => {},
    }
    assert(r@.map_values(|h: (String, String)| (h.0@, h.1@)) =~= request_headers_view(client));
    r
}

} // verus!
