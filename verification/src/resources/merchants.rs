//! Merchant accounts and the persons associated with them: the data model
//! and the request that each endpoint sends.
use crate::client::Client;
use crate::datetime::{Date, DateTime};
use crate::http::{ApiRequest, BodyRead, HttpMethod, Outcome, QueryParam, RequestBody, StatusOutcome, opt_text, push_text, query_view, text_entry};
use vstd::prelude::*;

verus! {

pub type CompanyIdentifiers = Vec<CompanyIdentifier>;
pub type LegalType = String;

pub type ChangeStatus = String;
pub type CountryCode = String;
pub type PhoneNumber = String;
pub type Version = String;

/// An address somewhere in the world. The address fields used depend on the country conventions. For example, in Great Britain, `city` is `post_town`. In the United States, the top-level administrative unit used in addresses is `state`, whereas in Chile it's `region`.
/// Whether an address is valid or not depends on whether the locally required fields are present. Fields not supported in a country will be ignored.
#[derive(Debug, Clone)]
pub struct Address {
    pub street_address: Option<Vec<String>>,
    /// The postal code (aka. zip code) of the address.
    pub post_code: Option<String>,
    pub country: CountryCode,
    /// The city of the address.
    pub city: Option<String>,
    /// The province where the address is located. This may not be relevant in some countries.
    pub province: Option<String>,
    /// The region where the address is located. This may not be relevant in some countries.
    pub region: Option<String>,
    /// A county is a geographic region of a country used for administrative or other purposes in some nations. Used in countries such as Ireland, Romania, etc.
    pub county: Option<String>,
    /// In Spain, an autonomous community is the first sub-national level of political and administrative division.
    pub autonomous_community: Option<String>,
    /// A post town is a required part of all postal addresses in the United Kingdom and Ireland, and a basic unit of the postal delivery system.
    pub post_town: Option<String>,
    /// Most often, a country has a single state, with various administrative divisions. The term "state" is sometimes used to refer to the federated polities that make up the federation. Used in countries such as the United States and Brazil.
    pub state: Option<String>,
    /// Locality level of the address. Used in countries such as Brazil or Chile.
    pub neighborhood: Option<String>,
    /// In many countries, terms cognate with "commune" are used, referring to the community living in the area and the common interest. Used in countries such as Chile.
    pub commune: Option<String>,
    /// A department (French: département, Spanish: departamento) is an administrative or political division in several countries. Used in countries such as Colombia.
    pub department: Option<String>,
    /// A municipality is usually a single administrative division having corporate status and powers of self-government or jurisdiction as granted by national and regional laws to which it is subordinate. Used in countries such as Colombia.
    pub municipality: Option<String>,
    /// A district is a type of administrative division that in some countries is managed by the local government. Used in countries such as Portugal.
    pub district: Option<String>,
    /// A US system of postal codes used by the United States Postal Service (USPS).
    pub zip_code: Option<String>,
    /// A postal address in Ireland.
    pub eircode: Option<String>,
}

#[derive(Debug, Clone, Default)]
pub struct BaseError {
    /// A unique identifier for the error instance. This can be used to trace the error back to the server logs.
    pub instance: Option<String>,
    /// A human-readable message describing the error that occurred.
    pub message: Option<String>,
}

/// Base schema for a person associated with a merchant. This can be a legal representative, business owner (ultimate beneficial owner), or an officer. A legal representative is the person who registered the merchant with SumUp. They should always have a `user_id`.
#[derive(Debug, Clone)]
pub struct BasePerson {
    /// The unique identifier for the person. This is a [typeid](https://github.com/sumup/typeid).
    pub id: String,
    /// A corresponding identity user ID for the person, if they have a user account.
    pub user_id: Option<String>,
    /// The date of birth of the individual, represented as an ISO 8601:2004 [ISO8601‑2004] YYYY-MM-DD format.
    pub birthdate: Option<Date>,
    /// The first name(s) of the individual.
    pub given_name: Option<String>,
    /// The last name(s) of the individual.
    pub family_name: Option<String>,
    /// Middle name(s) of the End-User. Note that in some cultures, people can have multiple middle names; all can be present, with the names being separated by space characters. Also note that in some cultures, middle names are not used.
    pub middle_name: Option<String>,
    pub phone_number: Option<PhoneNumber>,
    /// A list of roles the person has in the merchant or towards SumUp. A merchant must have at least one person with the relationship `representative`.
    pub relationships: Option<Vec<String>>,
    pub ownership: Option<Ownership>,
    pub address: Option<Address>,
    /// A list of country-specific personal identifiers.
    pub identifiers: Option<Vec<PersonalIdentifier>>,
    pub citizenship: Option<CountryCode>,
    /// The persons nationality. May be an [ISO3166-1 alpha-2](https://en.wikipedia.org/wiki/ISO_3166-1_alpha-2) country code, but legacy data may not conform to this standard.
    pub nationality: Option<String>,
    /// An [ISO3166-1 alpha-2](https://en.wikipedia.org/wiki/ISO_3166-1_alpha-2) country code representing the country where the person resides.
    pub country_of_residence: Option<String>,
    pub version: Option<Version>,
    pub change_status: Option<ChangeStatus>,
}

/// Settings used to apply the Merchant's branding to email receipts, invoices, checkouts, and other products.
#[derive(Debug, Clone, Default)]
pub struct Branding {
    /// An icon for the merchant. Must be square.
    pub icon: Option<String>,
    /// A logo for the merchant that will be used in place of the icon and without the merchant's name next to it if there's sufficient space.
    pub logo: Option<String>,
    /// Data-URL encoded hero image for the merchant business.
    pub hero: Option<String>,
    /// A hex color value representing the primary branding color of this merchant (your brand color).
    pub primary_color: Option<String>,
    /// A hex color value representing the color of the text displayed on branding color of this merchant.
    pub primary_color_fg: Option<String>,
    /// A hex color value representing the secondary branding color of this merchant (accent color used for buttons).
    pub secondary_color: Option<String>,
    /// A hex color value representing the color of the text displayed on secondary branding color of this merchant.
    pub secondary_color_fg: Option<String>,
    /// A hex color value representing the preferred background color of this merchant.
    pub background_color: Option<String>,
}

/// Business information about the merchant. This information will be visible to the merchant's customers.
#[derive(Debug, Clone, Default)]
pub struct BusinessProfile {
    /// The customer-facing business name.
    pub name: Option<String>,
    /// The descriptor is the text that your customer sees on their bank account statement.
    /// The more recognisable your descriptor is, the less risk you have of receiving disputes (e.g. chargebacks).
    pub dynamic_descriptor: Option<String>,
    /// The business's publicly available website.
    pub website: Option<String>,
    /// A publicly available email address.
    pub email: Option<String>,
    pub phone_number: Option<PhoneNumber>,
    pub address: Option<Address>,
    pub branding: Option<Branding>,
}

#[derive(Debug, Clone)]
pub struct ClassicMerchantIdentifiers {
    /// Classic (serial) merchant ID.
    /// Deprecated.
    pub id: i64,
}

#[derive(Debug, Clone)]
pub struct CompanyIdentifier {
    /// The unique reference for the company identifier type as defined in the country SDK.
    pub ref_: String,
    /// The company identifier value.
    pub value: String,
}

/// The category of the error.
#[derive(Debug, Clone)]
pub enum ErrorCategoryClient {
    ClientError,
}

/// The category of the error.
#[derive(Debug, Clone)]
pub enum ErrorCategoryServer {
    ServerError,
}

/// An error code specifying the exact error that occurred.
#[derive(Debug, Clone)]
pub enum ErrorCodeInternalServerError {
    InternalError,
}

/// An error code specifying the exact error that occurred.
#[derive(Debug, Clone)]
pub enum ErrorCodeNotFound {
    NotFound,
}

#[derive(Debug, Clone, Default)]
pub struct ListPersonsResponseBody {
    pub items: Vec<Person>,
}

/// A set of key-value pairs that you can attach to an object. This can be useful for storing additional information about the object in a structured format.
///
/// **Warning**: Updating Meta will overwrite the existing data. Make sure to always include the complete JSON object.
#[derive(Debug, Clone, Default)]
pub struct Meta {}

#[derive(Debug, Clone)]
pub struct Ownership {
    /// The percent of ownership shares held by the person expressed in percent mille (1/100000). Only persons with the relationship `owner` can have ownership.
    pub share: i32,
}

#[derive(Debug, Clone)]
pub struct Person {
    /// The unique identifier for the person. This is a [typeid](https://github.com/sumup/typeid).
    pub id: String,
    /// A corresponding identity user ID for the person, if they have a user account.
    pub user_id: Option<String>,
    /// The date of birth of the individual, represented as an ISO 8601:2004 [ISO8601‑2004] YYYY-MM-DD format.
    pub birthdate: Option<Date>,
    /// The first name(s) of the individual.
    pub given_name: Option<String>,
    /// The last name(s) of the individual.
    pub family_name: Option<String>,
    /// Middle name(s) of the End-User. Note that in some cultures, people can have multiple middle names; all can be present, with the names being separated by space characters. Also note that in some cultures, middle names are not used.
    pub middle_name: Option<String>,
    pub phone_number: Option<PhoneNumber>,
    /// A list of roles the person has in the merchant or towards SumUp. A merchant must have at least one person with the relationship `representative`.
    pub relationships: Option<Vec<String>>,
    pub ownership: Option<Ownership>,
    pub address: Option<Address>,
    /// A list of country-specific personal identifiers.
    pub identifiers: Option<Vec<PersonalIdentifier>>,
    pub citizenship: Option<CountryCode>,
    /// The persons nationality. May be an [ISO3166-1 alpha-2](https://en.wikipedia.org/wiki/ISO_3166-1_alpha-2) country code, but legacy data may not conform to this standard.
    pub nationality: Option<String>,
    /// An [ISO3166-1 alpha-2](https://en.wikipedia.org/wiki/ISO_3166-1_alpha-2) country code representing the country where the person resides.
    pub country_of_residence: Option<String>,
    pub version: Option<Version>,
    pub change_status: Option<ChangeStatus>,
}

#[derive(Debug, Clone)]
pub struct PersonalIdentifier {
    /// The unique reference for the personal identifier type.
    pub ref_: String,
    /// The company identifier value.
    pub value: String,
}

#[derive(Debug, Clone)]
pub struct Timestamps {
    /// The date and time when the resource was created. This is a string as defined in [RFC 3339, section 5.6](https://datatracker.ietf.org/doc/html/rfc3339#section-5.6).
    pub created_at: DateTime,
    /// The date and time when the resource was last updated. This is a string as defined in [RFC 3339, section 5.6](https://datatracker.ietf.org/doc/html/rfc3339#section-5.6).
    pub updated_at: DateTime,
}

#[derive(Debug, Clone, Default)]
pub struct GetMerchantParams {
    /// The version of the resource. At the moment, the only supported value is `latest`. When provided and the requested resource's `change_status` is pending, the resource will be returned with all pending changes applied. When no changes are pending the resource is returned as is. The `change_status` in the response body will reflect the current state of the resource.
    pub version: Option<String>,
}

#[derive(Debug, Clone, Default)]
pub struct ListPersonsParams {
    /// The version of the resource. At the moment, the only supported value is `latest`. When provided and the requested resource's `change_status` is pending, the resource will be returned with all pending changes applied. When no changes are pending the resource is returned as is. The `change_status` in the response body will reflect the current state of the resource.
    pub version: Option<String>,
}

#[derive(Debug, Clone, Default)]
pub struct GetPersonParams {
    /// The version of the resource. At the moment, the only supported value is `latest`. When provided and the requested resource's `change_status` is pending, the resource will be returned with all pending changes applied. When no changes are pending the resource is returned as is. The `change_status` in the response body will reflect the current state of the resource.
    pub version: Option<String>,
}

#[derive(Debug)]
pub enum GetMerchantErrorBody {
    NotFound,
}

#[derive(Debug)]
pub enum ListPersonsErrorBody {
    NotFound,
    InternalServerError,
}

#[derive(Debug)]
pub enum GetPersonErrorBody {
    NotFound,
    InternalServerError,
}

/// Client for the Merchants API endpoints.
#[derive(Debug)]
pub struct MerchantsClient<'a> {
    client: &'a Client,
}

impl<'a> MerchantsClient<'a> {
    /// The client these endpoints are called through.
    pub closed spec fn bound_client(&self) -> &'a Client {
        self.client
    }

    pub(crate) fn new(client: &'a Client) -> (r: Self)
        ensures
            r.bound_client() == client,
    {
        Self { client }
    }

    /// Returns a reference to the underlying client.
    pub fn client(&self) -> (r: &Client)
        ensures
            r == self.bound_client(),
    {
        self.client
    }

    /// Retrieve a Merchant: the request that this endpoint sends.
    pub fn get_request(&self, merchant_code: &str, params: GetMerchantParams) -> (r: ApiRequest)
        ensures
            r.method == HttpMethod::Get,
            r.path@ == "/v1/merchants/"@ + merchant_code@,
            r.url@ == self.bound_client().base_url_view() + r.path@,
            query_view(r.query@) == text_entry("version"@, opt_text(params.version)),
            r.responses@ == seq![
                (StatusOutcome { status: 200u16, outcome: Outcome::Success { variant: None, body: BodyRead::Json("Merchant") } }),
                (StatusOutcome { status: 404u16, outcome: Outcome::Api { variant: "GetMerchantErrorBody::NotFound", body: BodyRead::Ignored } }),
            ],
            r.otherwise == (Outcome::Unexpected { body: BodyRead::Bytes }),
            r.runtime_headers == false,
            r.body == RequestBody::Empty,
    {
        let mut path = String::from_str("/v1/merchants/");
        path.append(merchant_code);
        let mut url = self.client.base_url().to_owned();
        url.append(path.as_str());
        let mut query: Vec<QueryParam> = Vec::new();
        assert(query_view(query@) =~= seq![]);
        push_text(&mut query, "version", params.version);
        ApiRequest {
            method: HttpMethod::Get,
            path,
            url,
            query,
            responses: vec![
                StatusOutcome { status: 200, outcome: Outcome::Success { variant: None, body: BodyRead::Json("Merchant") } },
                StatusOutcome { status: 404, outcome: Outcome::Api { variant: "GetMerchantErrorBody::NotFound", body: BodyRead::Ignored } },
            ],
            otherwise: Outcome::Unexpected { body: BodyRead::Bytes },
            runtime_headers: false,
            body: RequestBody::Empty,
        }
    }

    /// List Persons: the request that this endpoint sends.
    pub fn list_persons_request(&self, merchant_code: &str, params: ListPersonsParams) -> (r: ApiRequest)
        ensures
            r.method == HttpMethod::Get,
            r.path@ == "/v1/merchants/"@ + merchant_code@ + "/persons"@,
            r.url@ == self.bound_client().base_url_view() + r.path@,
            query_view(r.query@) == text_entry("version"@, opt_text(params.version)),
            r.responses@ == seq![
                (StatusOutcome { status: 200u16, outcome: Outcome::Success { variant: None, body: BodyRead::Json("ListPersonsResponseBody") } }),
                (StatusOutcome { status: 404u16, outcome: Outcome::Api { variant: "ListPersonsErrorBody::NotFound", body: BodyRead::Ignored } }),
                (StatusOutcome { status: 500u16, outcome: Outcome::Api { variant: "ListPersonsErrorBody::InternalServerError", body: BodyRead::Ignored } }),
            ],
            r.otherwise == (Outcome::Unexpected { body: BodyRead::Bytes }),
            r.runtime_headers == false,
            r.body == RequestBody::Empty,
    {
        let mut path = String::from_str("/v1/merchants/");
        path.append(merchant_code);
        path.append("/persons");
        let mut url = self.client.base_url().to_owned();
        url.append(path.as_str());
        let mut query: Vec<QueryParam> = Vec::new();
        assert(query_view(query@) =~= seq![]);
        push_text(&mut query, "version", params.version);
        ApiRequest {
            method: HttpMethod::Get,
            path,
            url,
            query,
            responses: vec![
                StatusOutcome { status: 200, outcome: Outcome::Success { variant: None, body: BodyRead::Json("ListPersonsResponseBody") } },
                StatusOutcome { status: 404, outcome: Outcome::Api { variant: "ListPersonsErrorBody::NotFound", body: BodyRead::Ignored } },
                StatusOutcome { status: 500, outcome: Outcome::Api { variant: "ListPersonsErrorBody::InternalServerError", body: BodyRead::Ignored } },
            ],
            otherwise: Outcome::Unexpected { body: BodyRead::Bytes },
            runtime_headers: false,
            body: RequestBody::Empty,
        }
    }

    /// Retrieve a Person: the request that this endpoint sends.
    pub fn get_person_request(&self, merchant_code: &str, person_id: &str, params: GetPersonParams) -> (r: ApiRequest)
        ensures
            r.method == HttpMethod::Get,
            r.path@ == "/v1/merchants/"@ + merchant_code@ + "/persons/"@ + person_id@,
            r.url@ == self.bound_client().base_url_view() + r.path@,
            query_view(r.query@) == text_entry("version"@, opt_text(params.version)),
            r.responses@ == seq![
                (StatusOutcome { status: 200u16, outcome: Outcome::Success { variant: None, body: BodyRead::Json("Person") } }),
                (StatusOutcome { status: 404u16, outcome: Outcome::Api { variant: "GetPersonErrorBody::NotFound", body: BodyRead::Ignored } }),
                (StatusOutcome { status: 500u16, outcome: Outcome::Api { variant: "GetPersonErrorBody::InternalServerError", body: BodyRead::Ignored } }),
            ],
            r.otherwise == (Outcome::Unexpected { body: BodyRead::Bytes }),
            r.runtime_headers == false,
            r.body == RequestBody::Empty,
    {
        let mut path = String::from_str("/v1/merchants/");
        path.append(merchant_code);
        path.append("/persons/");
        path.append(person_id);
        let mut url = self.client.base_url().to_owned();
        url.append(path.as_str());
        let mut query: Vec<QueryParam> = Vec::new();
        assert(query_view(query@) =~= seq![]);
        push_text(&mut query, "version", params.version);
        ApiRequest {
            method: HttpMethod::Get,
            path,
            url,
            query,
            responses: vec![
                StatusOutcome { status: 200, outcome: Outcome::Success { variant: None, body: BodyRead::Json("Person") } },
                StatusOutcome { status: 404, outcome: Outcome::Api { variant: "GetPersonErrorBody::NotFound", body: BodyRead::Ignored } },
                StatusOutcome { status: 500, outcome: Outcome::Api { variant: "GetPersonErrorBody::InternalServerError", body: BodyRead::Ignored } },
            ],
            otherwise: Outcome::Unexpected { body: BodyRead::Bytes },
            runtime_headers: false,
            body: RequestBody::Empty,
        }
    }
}

} // verus!
