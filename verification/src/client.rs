//! The client configuration that the resource clients and webhook helpers
//! are bound to.
use crate::resources::checkouts::CheckoutsClient;
use crate::resources::customers::CustomersClient;
use crate::resources::members::MembersClient;
use crate::resources::memberships::MembershipsClient;
use crate::resources::merchant::MerchantClient;
use crate::resources::merchants::MerchantsClient;
use crate::resources::payouts::PayoutsClient;
use crate::resources::readers::ReadersClient;
use crate::resources::receipts::ReceiptsClient;
use crate::resources::roles::RolesClient;
use crate::resources::subaccounts::SubaccountsClient;
use crate::resources::transactions::TransactionsClient;
use crate::webhooks::error::WebhookError;
use crate::webhooks::events::{decoded_notification, parse_event_notification, EventNotification, RawEvent};
use crate::webhooks::handler::{verified_notification, WebhookHandler};
use crate::text::trim;
use crate::webhooks::signature::{header_tag, DEFAULT_TOLERANCE_SECS};
use vstd::prelude::*;

verus! {

/// The API host that a client talks to unless told otherwise.
pub const DEFAULT_BASE_URL: &'static str = "https://api.sumup.com";

/// Credentials sent as a bearer token.
#[derive(Debug, Clone)]
pub struct Authorization {
    token: String,
}

impl Authorization {
    /// The token sent with each request.
    pub closed spec fn token_view(&self) -> Seq<char> {
        self.token@
    }

    /// An API key used as the bearer token.
    pub fn api_key(token: &str) -> (r: Self)
        ensures
            r.token_view() == token@,
    {
        Authorization { token: token.to_owned() }
    }
}

/// Configuration of a SumUp API client: the host it talks to and the bearer
/// token it sends, if any.
#[derive(Debug, Clone)]
pub struct Client {
    base_url: String,
    authorization: Option<String>,
}

impl Client {
    /// The host the client talks to.
    pub closed spec fn base_url_view(&self) -> Seq<char> {
        self.base_url@
    }

    /// The bearer token the client sends, if any.
    pub closed spec fn authorization_view(&self) -> Option<Seq<char>> {
        match self.authorization {
            Some(t) => Some(t@),
            None => None,
        }
    }

    /// A client for the default host that sends `api_key`, when there is
    /// one, as its bearer token (the key is read from `SUMUP_API_KEY` by the
    /// caller).
    pub fn new(api_key: Option<&str>) -> (r: Self)
        ensures
            r.base_url_view() == DEFAULT_BASE_URL@,
            r.authorization_view() == match api_key {
                Some(k) => Some(k@),
                None => None::<Seq<char>>,
            },
    {
        let authorization = match api_key {
            Some(k) => Some(k.to_owned()),
            None => None,
        };
        Client { base_url: DEFAULT_BASE_URL.to_owned(), authorization }
    }

    /// Returns the host the client talks to.
    pub fn base_url(&self) -> (r: &str)
        ensures
            r@ == self.base_url_view(),
    {
        self.base_url.as_str()
    }

    /// Returns the client with another host.
    pub fn with_base_url(self, base_url: &str) -> (r: Self)
        ensures
            r.base_url_view() == base_url@,
            r.authorization_view() == self.authorization_view(),
    {
        Client { base_url: base_url.to_owned(), authorization: self.authorization }
    }

    /// Returns the bearer token the client sends, if any.
    pub fn authorization(&self) -> (r: Option<&str>)
        ensures
            match self.authorization_view() {
                Some(t) => r matches Some(s) && s@ == t,
                None => r is None,
            },
    {
        match &self.authorization {
            Some(t) => Some(t.as_str()),
            None => None,
        }
    }

    /// Returns the client with the given credentials.
    pub fn with_authorization(self, authorization: Authorization) -> (r: Self)
        ensures
            r.base_url_view() == self.base_url_view(),
            r.authorization_view() == Some(authorization.token_view()),
    {
        Client { base_url: self.base_url, authorization: Some(authorization.token) }
    }

    /// The checkouts API endpoints, called through this client.
    pub fn checkouts(&self) -> (r: CheckoutsClient<'_>)
        ensures
            r.bound_client() == self,
    {
        CheckoutsClient::new(self)
    }

    /// The customers API endpoints, called through this client.
    pub fn customers(&self) -> (r: CustomersClient<'_>)
        ensures
            r.bound_client() == self,
    {
        CustomersClient::new(self)
    }

    /// The members API endpoints, called through this client.
    pub fn members(&self) -> (r: MembersClient<'_>)
        ensures
            r.bound_client() == self,
    {
        MembersClient::new(self)
    }

    /// The memberships API endpoints, called through this client.
    pub fn memberships(&self) -> (r: MembershipsClient<'_>)
        ensures
            r.bound_client() == self,
    {
        MembershipsClient::new(self)
    }

    /// The merchant API endpoints, called through this client.
    pub fn merchant(&self) -> (r: MerchantClient<'_>)
        ensures
            r.bound_client() == self,
    {
        MerchantClient::new(self)
    }

    /// The merchants API endpoints, called through this client.
    pub fn merchants(&self) -> (r: MerchantsClient<'_>)
        ensures
            r.bound_client() == self,
    {
        MerchantsClient::new(self)
    }

    /// The payouts API endpoints, called through this client.
    pub fn payouts(&self) -> (r: PayoutsClient<'_>)
        ensures
            r.bound_client() == self,
    {
        PayoutsClient::new(self)
    }

    /// The readers API endpoints, called through this client.
    pub fn readers(&self) -> (r: ReadersClient<'_>)
        ensures
            r.bound_client() == self,
    {
        ReadersClient::new(self)
    }

    /// The receipts API endpoints, called through this client.
    pub fn receipts(&self) -> (r: ReceiptsClient<'_>)
        ensures
            r.bound_client() == self,
    {
        ReceiptsClient::new(self)
    }

    /// The roles API endpoints, called through this client.
    pub fn roles(&self) -> (r: RolesClient<'_>)
        ensures
            r.bound_client() == self,
    {
        RolesClient::new(self)
    }

    /// The subaccounts API endpoints, called through this client.
    pub fn subaccounts(&self) -> (r: SubaccountsClient<'_>)
        ensures
            r.bound_client() == self,
    {
        SubaccountsClient::new(self)
    }

    /// The transactions API endpoints, called through this client.
    pub fn transactions(&self) -> (r: TransactionsClient<'_>)
        ensures
            r.bound_client() == self,
    {
        TransactionsClient::new(self)
    }

    /// Creates a webhook handler bound to this client and a signing secret.
    pub fn webhook_handler(&self, secret: &[u8]) -> (r: WebhookHandler<'_>)
        ensures
            r.bound_client() == self,
            r.signing_secret() == secret@,
            r.tolerance() == DEFAULT_TOLERANCE_SECS,
    {
        WebhookHandler::new(self, secret)
    }

    /// Classifies a decoded webhook body into a typed event.
    pub fn parse_event_notification(&self, decoded: Result<RawEvent, serde_json::Error>) -> (r: Result<EventNotification, WebhookError>)
        ensures
            r == decoded_notification(decoded),
    {
        parse_event_notification(decoded)
    }

    /// Verifies a webhook signature with `secret` and the default tolerance,
    /// then classifies the decoded body.
    pub fn verify_and_parse_event_notification(
        &self,
        secret: &[u8],
        payload: &[u8],
        signature_header: &str,
        timestamp_header: &str,
        decoded: Result<RawEvent, serde_json::Error>,
    ) -> (r: Result<EventNotification, WebhookError>)
        ensures
            exists|clock: Option<u64>|
                r == #[trigger] verified_notification(
                    secret@,
                    payload@,
                    signature_header@,
                    timestamp_header@,
                    DEFAULT_TOLERANCE_SECS,
                    clock,
                    decoded,
                ),
            header_tag(trim(signature_header@)) matches Some(tag) && tag.len() != 32 ==> r is Err,
    {
        self.webhook_handler(secret).verify_and_parse(payload, signature_header, timestamp_header, decoded)
    }
}

impl Default for Client {
    /// A client for the default host, without credentials.
    fn default() -> (r: Self)
        ensures
            r.base_url_view() == DEFAULT_BASE_URL@,
            r.authorization_view() is None,
    {
        Client { base_url: DEFAULT_BASE_URL.to_owned(), authorization: None }
    }
}

} // verus!
