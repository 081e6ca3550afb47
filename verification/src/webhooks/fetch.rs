//! Resolving the object that a webhook notification refers to: the URL check
//! that comes before the object is requested from the API.
use super::events::Object;
use crate::http::{ApiRequest, BodyRead, HttpMethod, Outcome, QueryParam, RequestBody, StatusOutcome};
use vstd::prelude::*;

verus! {

/// Whether `reqwest::Url::parse` (the `url` crate's parser) accepts `text` as
/// an absolute URL.
pub uninterp spec fn url_parses(text: Seq<char>) -> bool;

/// Runs `reqwest::Url::parse` on `text` and reports whether it succeeded.
///
/// Trusted: the answer is stated only through the name `url_parses`, a
/// function of the text alone; the URL grammar the parser follows is not
/// written out here.
#[verifier::external_body]
fn parses_as_url(text: &str) -> (r: bool)
    ensures
        r == url_parses(text@),
{
    reqwest::Url::parse(text).is_ok()
}

/// Errors returned when resolving a webhook object from the API. `E` is the
/// error of the HTTP layer that performs the request.
#[derive(Debug)]
pub enum WebhookFetchError<E> {
    /// The webhook object URL was not a valid absolute URL.
    InvalidObjectUrl(String),
    /// The API request failed or returned a non-success response.
    Sdk(E),
}

impl<E> WebhookFetchError<E> {
    /// The error of the HTTP layer underneath, when the request failed.
    pub fn source(&self) -> (r: Option<&E>)
        ensures
            match self {
                WebhookFetchError::Sdk(err) => r == Some(err),
                WebhookFetchError::InvalidObjectUrl(_) => r is None,
            },
    {
        match self {
            WebhookFetchError::Sdk(err) => Some(err),
            WebhookFetchError::InvalidObjectUrl(_) => None,
        }
    }
}

impl<E> From<E> for WebhookFetchError<E> {
    fn from(value: E) -> (r: Self)
        ensures
            r == WebhookFetchError::<E>::Sdk(value),
    {
        WebhookFetchError::Sdk(value)
    }
}

impl<E> vstd::std_specs::convert::FromSpecImpl<E> for WebhookFetchError<E> {
    open spec fn obeys_from_spec() -> bool {
        true
    }

    open spec fn from_spec(v: E) -> Self {
        WebhookFetchError::Sdk(v)
    }
}

impl Object {
    /// The URL to request the object from, once it has been checked to be an
    /// absolute URL; otherwise the error that names the URL.
    pub fn fetch_url<E>(&self) -> (r: Result<&str, WebhookFetchError<E>>)
        ensures
            match r {
                Ok(u) => url_parses(self.url@) && u@ == self.url@,
                Err(e) => !url_parses(self.url@) && (e matches WebhookFetchError::InvalidObjectUrl(u)
                    && u@ == self.url@),
            },
    {
        if parses_as_url(self.url.as_str()) {
            Ok(self.url.as_str())
        } else {
            Err(WebhookFetchError::InvalidObjectUrl(self.url.clone()))
        }
    }

    /// The request that fetches the object: a plain GET of its URL, whose
    /// success answer (200) is the object; or the error that names the URL
    /// when it is not an absolute URL.
    pub fn fetch_request<E>(&self) -> (r: Result<ApiRequest, WebhookFetchError<E>>)
        ensures
            match r {
                Ok(req) => {
                    &&& url_parses(self.url@)
                    &&& req.method == HttpMethod::Get
                    &&& req.path@ == self.url@
                    &&& req.url@ == self.url@
                    &&& req.query@.len() == 0
                    &&& req.responses@ == seq![
                        (StatusOutcome { status: 200u16, outcome: Outcome::Success { variant: None, body: BodyRead::Json("Object") } }),
                    ]
                    &&& req.otherwise == (Outcome::Unexpected { body: BodyRead::Bytes })
                    &&& req.runtime_headers
                    &&& req.body == RequestBody::Empty
                },
                Err(e) => !url_parses(self.url@) && (e matches WebhookFetchError::InvalidObjectUrl(u)
                    && u@ == self.url@),
            },
    {
        match self.fetch_url() {
            Ok(url) => {
                let query: Vec<QueryParam> = Vec::new();
                Ok(
                    ApiRequest {
                        method: HttpMethod::Get,
                        path: url.to_owned(),
                        url: url.to_owned(),
                        query,
                        responses: vec![
                            StatusOutcome { status: 200, outcome: Outcome::Success { variant: None, body: BodyRead::Json("Object") } },
                        ],
                        otherwise: Outcome::Unexpected { body: BodyRead::Bytes },
                        runtime_headers: true,
                        body: RequestBody::Empty,
                    },
                )
            },
            Err(e) => Err(e),
        }
    }
}

} // verus!
