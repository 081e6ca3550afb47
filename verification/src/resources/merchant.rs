//! The merchant account of the authenticated user (profiles, settings and
//! bank accounts): the data model and the request that each endpoint sends.
use super::common::{Currency, Error, ErrorForbidden};
use crate::client::Client;
use crate::http::{ApiRequest, BodyRead, HttpMethod, Outcome, QueryParam, RequestBody, StatusOutcome, flag_entry, opt_texts, push_flag, push_texts, query_view, texts_entry};
use vstd::prelude::*;

verus! {

/// The list that the endpoint answers with.
pub type ListBankAccountsResponse = Vec<BankAccount>;
/// The list that the endpoint answers with.
pub type ListBankAccountsV11Response = Vec<BankAccount>;

/// Profile information.
#[derive(Debug, Clone, Default)]
pub struct AccountLegacy {
    /// Username of the user profile.
    pub username: Option<String>,
    /// The role of the user.
    pub type_: Option<String>,
}

#[derive(Debug, Clone, Default)]
pub struct BankAccount {
    /// Bank code
    pub bank_code: Option<String>,
    /// Branch code
    pub branch_code: Option<String>,
    /// SWIFT code
    pub swift: Option<String>,
    /// Account number
    pub account_number: Option<String>,
    /// IBAN
    pub iban: Option<String>,
    /// Type of the account
    pub account_type: Option<String>,
    /// Account category - business or personal
    pub account_category: Option<String>,
    pub account_holder_name: Option<String>,
    /// Status in the verification process
    pub status: Option<String>,
    /// The primary bank account is the one used for payouts
    pub primary: Option<bool>,
    /// Creation date of the bank account
    pub created_at: Option<String>,
    /// Bank name
    pub bank_name: Option<String>,
}

/// Country Details
#[derive(Debug, Clone, Default)]
pub struct CountryDetails {
    /// Currency ISO 4217 code
    pub currency: Option<String>,
    /// Country ISO code
    pub iso_code: Option<String>,
    /// Country EN name
    pub en_name: Option<String>,
    /// Country native name
    pub native_name: Option<String>,
}

/// Merchant settings &#40;like \"payout_type\", \"payout_period\"&#41;
#[derive(Debug, Clone, Default)]
pub struct MerchantSettings {
    /// Whether to show tax in receipts &#40;saved per transaction&#41;
    pub tax_enabled: Option<bool>,
    /// Payout type
    pub payout_type: Option<String>,
    /// Payout frequency
    pub payout_period: Option<String>,
    /// Whether merchant can edit payouts on demand
    pub payout_on_demand_available: Option<bool>,
    /// Whether merchant will receive payouts on demand
    pub payout_on_demand: Option<bool>,
    /// Whether to show printers in mobile app
    pub printers_enabled: Option<bool>,
    /// Payout Instrument
    pub payout_instrument: Option<String>,
    /// Whether merchant can make MOTO payments
    pub moto_payment: Option<String>,
    /// Stone merchant code
    pub stone_merchant_code: Option<String>,
    /// Whether merchant will receive daily payout emails
    pub daily_payout_email: Option<bool>,
    /// Whether merchant will receive monthly payout emails
    pub monthly_payout_email: Option<bool>,
    /// Whether merchant has gross settlement enabled
    pub gross_settlement: Option<bool>,
}

/// User permissions
#[derive(Debug, Clone, Default)]
pub struct PermissionsLegacy {
    /// Create MOTO payments
    pub create_moto_payments: Option<bool>,
    /// Can view full merchant transaction history
    pub full_transaction_history_view: Option<bool>,
    /// Refund transactions
    pub refund_transactions: Option<bool>,
    /// Create referral
    pub create_referral: Option<bool>,
}

#[derive(Debug, Clone, Default)]
pub struct GetAccountParams {
    /// A list of additional information you want to receive for the user. By default only personal and merchant profile information will be returned.
    pub include_: Option<Vec<String>>,
}

#[derive(Debug, Clone, Default)]
pub struct ListBankAccountsParams {
    /// If true only the primary bank account (the one used for payouts) will be returned.
    pub primary: Option<bool>,
}

#[derive(Debug, Clone, Default)]
pub struct ListBankAccountsV11Params {
    /// If true only the primary bank account (the one used for payouts) will be returned.
    pub primary: Option<bool>,
}

#[derive(Debug)]
pub enum GetMerchantProfileErrorBody {
    Status401(Error),
    Status403(ErrorForbidden),
}

#[derive(Debug)]
pub enum ListBankAccountsErrorBody {
    Status401(Error),
    Status403(ErrorForbidden),
}

#[derive(Debug)]
pub enum GetSettingsErrorBody {
    Status401(Error),
    Status403(ErrorForbidden),
}

#[derive(Debug)]
pub enum ListBankAccountsV11ErrorBody {
    Status401(Error),
    Status403(ErrorForbidden),
}

/// Client for the Merchant API endpoints.
#[derive(Debug)]
pub struct MerchantClient<'a> {
    client: &'a Client,
}

impl<'a> MerchantClient<'a> {
    /// The client these endpoints are called through.
    pub closed spec fn bound_client(&self) -> &'a Client {
        self.client
    }

    pub(crate) fn new(client: &'a Client) -> (r: Self)
        ensures
            r.bound_client() == client,
    {
        Self { client }
    }

    /// Returns a reference to the underlying client.
    pub fn client(&self) -> (r: &Client)
        ensures
            r == self.bound_client(),
    {
        self.client
    }

    /// Retrieve a profile: the request that this endpoint sends.
    pub fn get_request(&self, params: GetAccountParams) -> (r: ApiRequest)
        ensures
            r.method == HttpMethod::Get,
            r.path@ == "/v0.1/me"@,
            r.url@ == self.bound_client().base_url_view() + r.path@,
            query_view(r.query@) == texts_entry("include[]"@, opt_texts(params.include_)),
            r.responses@ == seq![
                (StatusOutcome { status: 200u16, outcome: Outcome::Success { variant: None, body: BodyRead::Json("MerchantAccount") } }),
                (StatusOutcome { status: 401u16, outcome: Outcome::ApiParsed { variant: None, body: BodyRead::Json("Error") } }),
            ],
            r.otherwise == Outcome::ApiRaw,
            r.runtime_headers == false,
            r.body == RequestBody::Empty,
    {
        let mut path = String::from_str("/v0.1/me");
        let mut url = self.client.base_url().to_owned();
        url.append(path.as_str());
        let mut query: Vec<QueryParam> = Vec::new();
        assert(query_view(query@) =~= seq![]);
        push_texts(&mut query, "include[]", params.include_);
        ApiRequest {
            method: HttpMethod::Get,
            path,
            url,
            query,
            responses: vec![
                StatusOutcome { status: 200, outcome: Outcome::Success { variant: None, body: BodyRead::Json("MerchantAccount") } },
                StatusOutcome { status: 401, outcome: Outcome::ApiParsed { variant: None, body: BodyRead::Json("Error") } },
            ],
            otherwise: Outcome::ApiRaw,
            runtime_headers: false,
            body: RequestBody::Empty,
        }
    }

    /// Retrieve a merchant profile: the request that this endpoint sends.
    pub fn get_merchant_profile_request(&self) -> (r: ApiRequest)
        ensures
            r.method == HttpMethod::Get,
            r.path@ == "/v0.1/me/merchant-profile"@,
            r.url@ == self.bound_client().base_url_view() + r.path@,
            r.query@.len() == 0,
            r.responses@ == seq![
                (StatusOutcome { status: 200u16, outcome: Outcome::Success { variant: None, body: BodyRead::Json("MerchantProfileLegacy") } }),
                (StatusOutcome { status: 401u16, outcome: Outcome::ApiParsed { variant: Some("GetMerchantProfileErrorBody::Status401"), body: BodyRead::Json("Error") } }),
                (StatusOutcome { status: 403u16, outcome: Outcome::ApiParsed { variant: Some("GetMerchantProfileErrorBody::Status403"), body: BodyRead::Json("ErrorForbidden") } }),
            ],
            r.otherwise == Outcome::ApiRaw,
            r.runtime_headers == false,
            r.body == RequestBody::Empty,
    {
        let mut path = String::from_str("/v0.1/me/merchant-profile");
        let mut url = self.client.base_url().to_owned();
        url.append(path.as_str());
        let mut query: Vec<QueryParam> = Vec::new();
        assert(query_view(query@) =~= seq![]);
        ApiRequest {
            method: HttpMethod::Get,
            path,
            url,
            query,
            responses: vec![
                StatusOutcome { status: 200, outcome: Outcome::Success { variant: None, body: BodyRead::Json("MerchantProfileLegacy") } },
                StatusOutcome { status: 401, outcome: Outcome::ApiParsed { variant: Some("GetMerchantProfileErrorBody::Status401"), body: BodyRead::Json("Error") } },
                StatusOutcome { status: 403, outcome: Outcome::ApiParsed { variant: Some("GetMerchantProfileErrorBody::Status403"), body: BodyRead::Json("ErrorForbidden") } },
            ],
            otherwise: Outcome::ApiRaw,
            runtime_headers: false,
            body: RequestBody::Empty,
        }
    }

    /// List bank accounts: the request that this endpoint sends.
    pub fn list_bank_accounts_deprecated_request(&self, params: ListBankAccountsParams) -> (r: ApiRequest)
        ensures
            r.method == HttpMethod::Get,
            r.path@ == "/v0.1/me/merchant-profile/bank-accounts"@,
            r.url@ == self.bound_client().base_url_view() + r.path@,
            query_view(r.query@) == flag_entry("primary"@, params.primary),
            r.responses@ == seq![
                (StatusOutcome { status: 200u16, outcome: Outcome::Success { variant: None, body: BodyRead::Json("ListBankAccountsResponse") } }),
                (StatusOutcome { status: 401u16, outcome: Outcome::ApiParsed { variant: Some("ListBankAccountsErrorBody::Status401"), body: BodyRead::Json("Error") } }),
                (StatusOutcome { status: 403u16, outcome: Outcome::ApiParsed { variant: Some("ListBankAccountsErrorBody::Status403"), body: BodyRead::Json("ErrorForbidden") } }),
            ],
            r.otherwise == Outcome::ApiRaw,
            r.runtime_headers == false,
            r.body == RequestBody::Empty,
    {
        let mut path = String::from_str("/v0.1/me/merchant-profile/bank-accounts");
        let mut url = self.client.base_url().to_owned();
        url.append(path.as_str());
        let mut query: Vec<QueryParam> = Vec::new();
        assert(query_view(query@) =~= seq![]);
        push_flag(&mut query, "primary", params.primary);
        ApiRequest {
            method: HttpMethod::Get,
            path,
            url,
            query,
            responses: vec![
                StatusOutcome { status: 200, outcome: Outcome::Success { variant: None, body: BodyRead::Json("ListBankAccountsResponse") } },
                StatusOutcome { status: 401, outcome: Outcome::ApiParsed { variant: Some("ListBankAccountsErrorBody::Status401"), body: BodyRead::Json("Error") } },
                StatusOutcome { status: 403, outcome: Outcome::ApiParsed { variant: Some("ListBankAccountsErrorBody::Status403"), body: BodyRead::Json("ErrorForbidden") } },
            ],
            otherwise: Outcome::ApiRaw,
            runtime_headers: false,
            body: RequestBody::Empty,
        }
    }

    /// Retrieve DBA: the request that this endpoint sends.
    pub fn get_doing_business_as_request(&self) -> (r: ApiRequest)
        ensures
            r.method == HttpMethod::Get,
            r.path@ == "/v0.1/me/merchant-profile/doing-business-as"@,
            r.url@ == self.bound_client().base_url_view() + r.path@,
            r.query@.len() == 0,
            r.responses@ == seq![
                (StatusOutcome { status: 200u16, outcome: Outcome::Success { variant: None, body: BodyRead::Json("DoingBusinessAsLegacy") } }),
                (StatusOutcome { status: 401u16, outcome: Outcome::ApiParsed { variant: None, body: BodyRead::Json("Error") } }),
            ],
            r.otherwise == Outcome::ApiRaw,
            r.runtime_headers == false,
            r.body == RequestBody::Empty,
    {
        let mut path = String::from_str("/v0.1/me/merchant-profile/doing-business-as");
        let mut url = self.client.base_url().to_owned();
        url.append(path.as_str());
        let mut query: Vec<QueryParam> = Vec::new();
        assert(query_view(query@) =~= seq![]);
        ApiRequest {
            method: HttpMethod::Get,
            path,
            url,
            query,
            responses: vec![
                StatusOutcome { status: 200, outcome: Outcome::Success { variant: None, body: BodyRead::Json("DoingBusinessAsLegacy") } },
                StatusOutcome { status: 401, outcome: Outcome::ApiParsed { variant: None, body: BodyRead::Json("Error") } },
            ],
            otherwise: Outcome::ApiRaw,
            runtime_headers: false,
            body: RequestBody::Empty,
        }
    }

    /// Get settings: the request that this endpoint sends.
    pub fn get_settings_request(&self) -> (r: ApiRequest)
        ensures
            r.method == HttpMethod::Get,
            r.path@ == "/v0.1/me/merchant-profile/settings"@,
            r.url@ == self.bound_client().base_url_view() + r.path@,
            r.query@.len() == 0,
            r.responses@ == seq![
                (StatusOutcome { status: 200u16, outcome: Outcome::Success { variant: None, body: BodyRead::Json("MerchantSettings") } }),
                (StatusOutcome { status: 401u16, outcome: Outcome::ApiParsed { variant: Some("GetSettingsErrorBody::Status401"), body: BodyRead::Json("Error") } }),
                (StatusOutcome { status: 403u16, outcome: Outcome::ApiParsed { variant: Some("GetSettingsErrorBody::Status403"), body: BodyRead::Json("ErrorForbidden") } }),
            ],
            r.otherwise == Outcome::ApiRaw,
            r.runtime_headers == false,
            r.body == RequestBody::Empty,
    {
        let mut path = String::from_str("/v0.1/me/merchant-profile/settings");
        let mut url = self.client.base_url().to_owned();
        url.append(path.as_str());
        let mut query: Vec<QueryParam> = Vec::new();
        assert(query_view(query@) =~= seq![]);
        ApiRequest {
            method: HttpMethod::Get,
            path,
            url,
            query,
            responses: vec![
                StatusOutcome { status: 200, outcome: Outcome::Success { variant: None, body: BodyRead::Json("MerchantSettings") } },
                StatusOutcome { status: 401, outcome: Outcome::ApiParsed { variant: Some("GetSettingsErrorBody::Status401"), body: BodyRead::Json("Error") } },
                StatusOutcome { status: 403, outcome: Outcome::ApiParsed { variant: Some("GetSettingsErrorBody::Status403"), body: BodyRead::Json("ErrorForbidden") } },
            ],
            otherwise: Outcome::ApiRaw,
            runtime_headers: false,
            body: RequestBody::Empty,
        }
    }

    /// Retrieve a personal profile: the request that this endpoint sends.
    pub fn get_personal_profile_request(&self) -> (r: ApiRequest)
        ensures
            r.method == HttpMethod::Get,
            r.path@ == "/v0.1/me/personal-profile"@,
            r.url@ == self.bound_client().base_url_view() + r.path@,
            r.query@.len() == 0,
            r.responses@ == seq![
                (StatusOutcome { status: 200u16, outcome: Outcome::Success { variant: None, body: BodyRead::Json("PersonalProfileLegacy") } }),
                (StatusOutcome { status: 401u16, outcome: Outcome::ApiParsed { variant: None, body: BodyRead::Json("Error") } }),
            ],
            r.otherwise == Outcome::ApiRaw,
            r.runtime_headers == false,
            r.body == RequestBody::Empty,
    {
        let mut path = String::from_str("/v0.1/me/personal-profile");
        let mut url = self.client.base_url().to_owned();
        url.append(path.as_str());
        let mut query: Vec<QueryParam> = Vec::new();
        assert(query_view(query@) =~= seq![]);
        ApiRequest {
            method: HttpMethod::Get,
            path,
            url,
            query,
            responses: vec![
                StatusOutcome { status: 200, outcome: Outcome::Success { variant: None, body: BodyRead::Json("PersonalProfileLegacy") } },
                StatusOutcome { status: 401, outcome: Outcome::ApiParsed { variant: None, body: BodyRead::Json("Error") } },
            ],
            otherwise: Outcome::ApiRaw,
            runtime_headers: false,
            body: RequestBody::Empty,
        }
    }

    /// List bank accounts: the request that this endpoint sends.
    pub fn list_bank_accounts_request(&self, merchant_code: &str, params: ListBankAccountsV11Params) -> (r: ApiRequest)
        ensures
            r.method == HttpMethod::Get,
            r.path@ == "/v1.1/merchants/"@ + merchant_code@ + "/bank-accounts"@,
            r.url@ == self.bound_client().base_url_view() + r.path@,
            query_view(r.query@) == flag_entry("primary"@, params.primary),
            r.responses@ == seq![
                (StatusOutcome { status: 200u16, outcome: Outcome::Success { variant: None, body: BodyRead::Json("ListBankAccountsV11Response") } }),
                (StatusOutcome { status: 401u16, outcome: Outcome::ApiParsed { variant: Some("ListBankAccountsV11ErrorBody::Status401"), body: BodyRead::Json("Error") } }),
                (StatusOutcome { status: 403u16, outcome: Outcome::ApiParsed { variant: Some("ListBankAccountsV11ErrorBody::Status403"), body: BodyRead::Json("ErrorForbidden") } }),
            ],
            r.otherwise == Outcome::ApiRaw,
            r.runtime_headers == false,
            r.body == RequestBody::Empty,
    {
        let mut path = String::from_str("/v1.1/merchants/");
        path.append(merchant_code);
        path.append("/bank-accounts");
        let mut url = self.client.base_url().to_owned();
        url.append(path.as_str());
        let mut query: Vec<QueryParam> = Vec::new();
        assert(query_view(query@) =~= seq![]);
        push_flag(&mut query, "primary", params.primary);
        ApiRequest {
            method: HttpMethod::Get,
            path,
            url,
            query,
            responses: vec![
                StatusOutcome { status: 200, outcome: Outcome::Success { variant: None, body: BodyRead::Json("ListBankAccountsV11Response") } },
                StatusOutcome { status: 401, outcome: Outcome::ApiParsed { variant: Some("ListBankAccountsV11ErrorBody::Status401"), body: BodyRead::Json("Error") } },
                StatusOutcome { status: 403, outcome: Outcome::ApiParsed { variant: Some("ListBankAccountsV11ErrorBody::Status403"), body: BodyRead::Json("ErrorForbidden") } },
            ],
            otherwise: Outcome::ApiRaw,
            runtime_headers: false,
            body: RequestBody::Empty,
        }
    }
}

} // verus!
