//! Types shared by several API resources.
use crate::datetime::{Date, DateTime};
use crate::http::WireName;
use vstd::prelude::*;

verus! {

pub type EventId = i64;
pub type TransactionId = String;

/// Profile's personal address information.
#[derive(Debug, Clone, Default)]
pub struct AddressLegacy {
    /// City name from the address.
    ///
    /// Example: `Berlin`
    pub city: Option<String>,
    /// Two letter country code formatted according to [ISO3166-1 alpha-2](https://en.wikipedia.org/wiki/ISO_3166-1_alpha-2).
    ///
    /// Example: `DE`
    pub country: Option<String>,
    /// First line of the address with details of the street name and number.
    ///
    /// Example: `Sample street`
    pub line_1: Option<String>,
    /// Second line of the address with details of the building, unit, apartment, and floor numbers.
    ///
    /// Example: `ap. 5`
    pub line_2: Option<String>,
    /// Postal code from the address.
    ///
    /// Example: `10115`
    pub postal_code: Option<String>,
    /// State name or abbreviation from the address.
    ///
    /// Example: `Berlin`
    pub state: Option<String>,
}

/// Issuing card network of the payment card used for the transaction.
#[derive(Debug, Clone)]
pub enum CardType {
    Alelo,
    Amex,
    Conecs,
    Cup,
    Diners,
    Discover,
    Eftpos,
    Elo,
    Elv,
    Girocard,
    Hipercard,
    Interac,
    Jcb,
    Maestro,
    Mastercard,
    Pluxee,
    Swile,
    Ticket,
    Visa,
    VisaElectron,
    VisaVpay,
    Vpay,
    Vr,
    Unknown,
    Other(String),
}

/// Three-letter [ISO4217](https://en.wikipedia.org/wiki/ISO_4217) code of the currency for the amount. Currently supported currency values are enumerated above.
///
/// Example: `EUR`
#[derive(Debug, Clone)]
pub enum Currency {
    BGN,
    BRL,
    CHF,
    CLP,
    COP,
    CZK,
    DKK,
    EUR,
    GBP,
    HRK,
    HUF,
    NOK,
    PLN,
    RON,
    SEK,
    USD,
    Other(String),
}

/// Entry mode of the payment details.
#[derive(Debug, Clone)]
pub enum EntryMode {
    Boleto,
    Sofort,
    Ideal,
    Bancontact,
    Eps,
    Mybank,
    Satispay,
    Blik,
    P24,
    Giropay,
    Pix,
    QrCodePix,
    ApplePay,
    GooglePay,
    Paypal,
    Twint,
    #[allow(non_camel_case_types)]
    None_,
    Chip,
    ManualEntry,
    CustomerEntry,
    MagstripeFallback,
    Magstripe,
    DirectDebit,
    Contactless,
    Moto,
    ContactlessMagstripe,
    NA,
    Other(String),
}

impl WireName for EntryMode {
    open spec fn wire_name(&self) -> Seq<char> {
        match self {
            EntryMode::Boleto => "BOLETO"@,
            EntryMode::Sofort => "SOFORT"@,
            EntryMode::Ideal => "IDEAL"@,
            EntryMode::Bancontact => "BANCONTACT"@,
            EntryMode::Eps => "EPS"@,
            EntryMode::Mybank => "MYBANK"@,
            EntryMode::Satispay => "SATISPAY"@,
            EntryMode::Blik => "BLIK"@,
            EntryMode::P24 => "P24"@,
            EntryMode::Giropay => "GIROPAY"@,
            EntryMode::Pix => "PIX"@,
            EntryMode::QrCodePix => "QR_CODE_PIX"@,
            EntryMode::ApplePay => "APPLE_PAY"@,
            EntryMode::GooglePay => "GOOGLE_PAY"@,
            EntryMode::Paypal => "PAYPAL"@,
            EntryMode::Twint => "TWINT"@,
            EntryMode::None_ => "NONE"@,
            EntryMode::Chip => "CHIP"@,
            EntryMode::ManualEntry => "MANUAL_ENTRY"@,
            EntryMode::CustomerEntry => "CUSTOMER_ENTRY"@,
            EntryMode::MagstripeFallback => "MAGSTRIPE_FALLBACK"@,
            EntryMode::Magstripe => "MAGSTRIPE"@,
            EntryMode::DirectDebit => "DIRECT_DEBIT"@,
            EntryMode::Contactless => "CONTACTLESS"@,
            EntryMode::Moto => "MOTO"@,
            EntryMode::ContactlessMagstripe => "CONTACTLESS_MAGSTRIPE"@,
            EntryMode::NA => "N/A"@,
            EntryMode::Other(s) => s@,
        }
    }

    fn into_wire(self) -> (r: String) {
        match self {
            EntryMode::Boleto => String::from_str("BOLETO"),
            EntryMode::Sofort => String::from_str("SOFORT"),
            EntryMode::Ideal => String::from_str("IDEAL"),
            EntryMode::Bancontact => String::from_str("BANCONTACT"),
            EntryMode::Eps => String::from_str("EPS"),
            EntryMode::Mybank => String::from_str("MYBANK"),
            EntryMode::Satispay => String::from_str("SATISPAY"),
            EntryMode::Blik => String::from_str("BLIK"),
            EntryMode::P24 => String::from_str("P24"),
            EntryMode::Giropay => String::from_str("GIROPAY"),
            EntryMode::Pix => String::from_str("PIX"),
            EntryMode::QrCodePix => String::from_str("QR_CODE_PIX"),
            EntryMode::ApplePay => String::from_str("APPLE_PAY"),
            EntryMode::GooglePay => String::from_str("GOOGLE_PAY"),
            EntryMode::Paypal => String::from_str("PAYPAL"),
            EntryMode::Twint => String::from_str("TWINT"),
            EntryMode::None_ => String::from_str("NONE"),
            EntryMode::Chip => String::from_str("CHIP"),
            EntryMode::ManualEntry => String::from_str("MANUAL_ENTRY"),
            EntryMode::CustomerEntry => String::from_str("CUSTOMER_ENTRY"),
            EntryMode::MagstripeFallback => String::from_str("MAGSTRIPE_FALLBACK"),
            EntryMode::Magstripe => String::from_str("MAGSTRIPE"),
            EntryMode::DirectDebit => String::from_str("DIRECT_DEBIT"),
            EntryMode::Contactless => String::from_str("CONTACTLESS"),
            EntryMode::Moto => String::from_str("MOTO"),
            EntryMode::ContactlessMagstripe => String::from_str("CONTACTLESS_MAGSTRIPE"),
            EntryMode::NA => String::from_str("N/A"),
            EntryMode::Other(s) => s,
        }
    }
}

/// The wire names of the named variants of `EntryMode` are their serde names,
/// and no two named variants share a wire name.
pub proof fn lemma_entry_mode_wire_names()
    ensures
        EntryMode::Boleto.wire_name() == "BOLETO"@,
        EntryMode::Sofort.wire_name() == "SOFORT"@,
        EntryMode::Ideal.wire_name() == "IDEAL"@,
        EntryMode::Bancontact.wire_name() == "BANCONTACT"@,
        EntryMode::Eps.wire_name() == "EPS"@,
        EntryMode::Mybank.wire_name() == "MYBANK"@,
        EntryMode::Satispay.wire_name() == "SATISPAY"@,
        EntryMode::Blik.wire_name() == "BLIK"@,
        EntryMode::P24.wire_name() == "P24"@,
        EntryMode::Giropay.wire_name() == "GIROPAY"@,
        EntryMode::Pix.wire_name() == "PIX"@,
        EntryMode::QrCodePix.wire_name() == "QR_CODE_PIX"@,
        EntryMode::ApplePay.wire_name() == "APPLE_PAY"@,
        EntryMode::GooglePay.wire_name() == "GOOGLE_PAY"@,
        EntryMode::Paypal.wire_name() == "PAYPAL"@,
        EntryMode::Twint.wire_name() == "TWINT"@,
        EntryMode::None_.wire_name() == "NONE"@,
        EntryMode::Chip.wire_name() == "CHIP"@,
        EntryMode::ManualEntry.wire_name() == "MANUAL_ENTRY"@,
        EntryMode::CustomerEntry.wire_name() == "CUSTOMER_ENTRY"@,
        EntryMode::MagstripeFallback.wire_name() == "MAGSTRIPE_FALLBACK"@,
        EntryMode::Magstripe.wire_name() == "MAGSTRIPE"@,
        EntryMode::DirectDebit.wire_name() == "DIRECT_DEBIT"@,
        EntryMode::Contactless.wire_name() == "CONTACTLESS"@,
        EntryMode::Moto.wire_name() == "MOTO"@,
        EntryMode::ContactlessMagstripe.wire_name() == "CONTACTLESS_MAGSTRIPE"@,
        EntryMode::NA.wire_name() == "N/A"@,
        forall|a: EntryMode, b: EntryMode|
            !(a is Other) && !(b is Other) && #[trigger] a.wire_name() == #[trigger] b.wire_name() ==> a == b,
{
    assert forall|a: EntryMode, b: EntryMode|
        !(a is Other) && !(b is Other) && #[trigger] a.wire_name() == #[trigger] b.wire_name() implies a == b by {
        reveal_strlit("APPLE_PAY");
        reveal_strlit("BANCONTACT");
        reveal_strlit("BLIK");
        reveal_strlit("BOLETO");
        reveal_strlit("CHIP");
        reveal_strlit("CONTACTLESS");
        reveal_strlit("CONTACTLESS_MAGSTRIPE");
        reveal_strlit("CUSTOMER_ENTRY");
        reveal_strlit("DIRECT_DEBIT");
        reveal_strlit("EPS");
        reveal_strlit("GIROPAY");
        reveal_strlit("GOOGLE_PAY");
        reveal_strlit("IDEAL");
        reveal_strlit("MAGSTRIPE");
        reveal_strlit("MAGSTRIPE_FALLBACK");
        reveal_strlit("MANUAL_ENTRY");
        reveal_strlit("MOTO");
        reveal_strlit("MYBANK");
        reveal_strlit("N/A");
        reveal_strlit("NONE");
        reveal_strlit("P24");
        reveal_strlit("PAYPAL");
        reveal_strlit("PIX");
        reveal_strlit("QR_CODE_PIX");
        reveal_strlit("SATISPAY");
        reveal_strlit("SOFORT");
        reveal_strlit("TWINT");
        match a {
            EntryMode::Boleto => {
                match b {
                    EntryMode::Boleto => {},
                    EntryMode::Sofort => { assert("BOLETO"@[0] != "SOFORT"@[0]); },
                    EntryMode::Ideal => { assert("BOLETO"@[0] != "IDEAL"@[0]); },
                    EntryMode::Bancontact => { assert("BOLETO"@[1] != "BANCONTACT"@[1]); },
                    EntryMode::Eps => { assert("BOLETO"@[0] != "EPS"@[0]); },
                    EntryMode::Mybank => { assert("BOLETO"@[0] != "MYBANK"@[0]); },
                    EntryMode::Satispay => { assert("BOLETO"@[0] != "SATISPAY"@[0]); },
                    EntryMode::Blik => { assert("BOLETO"@[1] != "BLIK"@[1]); },
                    EntryMode::P24 => { assert("BOLETO"@[0] != "P24"@[0]); },
                    EntryMode::Giropay => { assert("BOLETO"@[0] != "GIROPAY"@[0]); },
                    EntryMode::Pix => { assert("BOLETO"@[0] != "PIX"@[0]); },
                    EntryMode::QrCodePix => { assert("BOLETO"@[0] != "QR_CODE_PIX"@[0]); },
                    EntryMode::ApplePay => { assert("BOLETO"@[0] != "APPLE_PAY"@[0]); },
                    EntryMode::GooglePay => { assert("BOLETO"@[0] != "GOOGLE_PAY"@[0]); },
                    EntryMode::Paypal => { assert("BOLETO"@[0] != "PAYPAL"@[0]); },
                    EntryMode::Twint => { assert("BOLETO"@[0] != "TWINT"@[0]); },
                    EntryMode::None_ => { assert("BOLETO"@[0] != "NONE"@[0]); },
                    EntryMode::Chip => { assert("BOLETO"@[0] != "CHIP"@[0]); },
                    EntryMode::ManualEntry => { assert("BOLETO"@[0] != "MANUAL_ENTRY"@[0]); },
                    EntryMode::CustomerEntry => { assert("BOLETO"@[0] != "CUSTOMER_ENTRY"@[0]); },
                    EntryMode::MagstripeFallback => { assert("BOLETO"@[0] != "MAGSTRIPE_FALLBACK"@[0]); },
                    EntryMode::Magstripe => { assert("BOLETO"@[0] != "MAGSTRIPE"@[0]); },
                    EntryMode::DirectDebit => { assert("BOLETO"@[0] != "DIRECT_DEBIT"@[0]); },
                    EntryMode::Contactless => { assert("BOLETO"@[0] != "CONTACTLESS"@[0]); },
                    EntryMode::Moto => { assert("BOLETO"@[0] != "MOTO"@[0]); },
                    EntryMode::ContactlessMagstripe => { assert("BOLETO"@[0] != "CONTACTLESS_MAGSTRIPE"@[0]); },
                    EntryMode::NA => { assert("BOLETO"@[0] != "N/A"@[0]); },
                    EntryMode::Other(_) => {},
                }
            },
            EntryMode::Sofort => {
                match b {
                    EntryMode::Boleto => { assert("SOFORT"@[0] != "BOLETO"@[0]); },
                    EntryMode::Sofort => {},
                    EntryMode::Ideal => { assert("SOFORT"@[0] != "IDEAL"@[0]); },
                    EntryMode::Bancontact => { assert("SOFORT"@[0] != "BANCONTACT"@[0]); },
                    EntryMode::Eps => { assert("SOFORT"@[0] != "EPS"@[0]); },
                    EntryMode::Mybank => { assert("SOFORT"@[0] != "MYBANK"@[0]); },
                    EntryMode::Satispay => { assert("SOFORT"@[1] != "SATISPAY"@[1]); },
                    EntryMode::Blik => { assert("SOFORT"@[0] != "BLIK"@[0]); },
                    EntryMode::P24 => { assert("SOFORT"@[0] != "P24"@[0]); },
                    EntryMode::Giropay => { assert("SOFORT"@[0] != "GIROPAY"@[0]); },
                    EntryMode::Pix => { assert("SOFORT"@[0] != "PIX"@[0]); },
                    EntryMode::QrCodePix => { assert("SOFORT"@[0] != "QR_CODE_PIX"@[0]); },
                    EntryMode::ApplePay => { assert("SOFORT"@[0] != "APPLE_PAY"@[0]); },
                    EntryMode::GooglePay => { assert("SOFORT"@[0] != "GOOGLE_PAY"@[0]); },
                    EntryMode::Paypal => { assert("SOFORT"@[0] != "PAYPAL"@[0]); },
                    EntryMode::Twint => { assert("SOFORT"@[0] != "TWINT"@[0]); },
                    EntryMode::None_ => { assert("SOFORT"@[0] != "NONE"@[0]); },
                    EntryMode::Chip => { assert("SOFORT"@[0] != "CHIP"@[0]); },
                    EntryMode::ManualEntry => { assert("SOFORT"@[0] != "MANUAL_ENTRY"@[0]); },
                    EntryMode::CustomerEntry => { assert("SOFORT"@[0] != "CUSTOMER_ENTRY"@[0]); },
                    EntryMode::MagstripeFallback => { assert("SOFORT"@[0] != "MAGSTRIPE_FALLBACK"@[0]); },
                    EntryMode::Magstripe => { assert("SOFORT"@[0] != "MAGSTRIPE"@[0]); },
                    EntryMode::DirectDebit => { assert("SOFORT"@[0] != "DIRECT_DEBIT"@[0]); },
                    EntryMode::Contactless => { assert("SOFORT"@[0] != "CONTACTLESS"@[0]); },
                    EntryMode::Moto => { assert("SOFORT"@[0] != "MOTO"@[0]); },
                    EntryMode::ContactlessMagstripe => { assert("SOFORT"@[0] != "CONTACTLESS_MAGSTRIPE"@[0]); },
                    EntryMode::NA => { assert("SOFORT"@[0] != "N/A"@[0]); },
                    EntryMode::Other(_) => {},
                }
            },
            EntryMode::Ideal => {
                match b {
                    EntryMode::Boleto => { assert("IDEAL"@[0] != "BOLETO"@[0]); },
                    EntryMode::Sofort => { assert("IDEAL"@[0] != "SOFORT"@[0]); },
                    EntryMode::Ideal => {},
                    EntryMode::Bancontact => { assert("IDEAL"@[0] != "BANCONTACT"@[0]); },
                    EntryMode::Eps => { assert("IDEAL"@[0] != "EPS"@[0]); },
                    EntryMode::Mybank => { assert("IDEAL"@[0] != "MYBANK"@[0]); },
                    EntryMode::Satispay => { assert("IDEAL"@[0] != "SATISPAY"@[0]); },
                    EntryMode::Blik => { assert("IDEAL"@[0] != "BLIK"@[0]); },
                    EntryMode::P24 => { assert("IDEAL"@[0] != "P24"@[0]); },
                    EntryMode::Giropay => { assert("IDEAL"@[0] != "GIROPAY"@[0]); },
                    EntryMode::Pix => { assert("IDEAL"@[0] != "PIX"@[0]); },
                    EntryMode::QrCodePix => { assert("IDEAL"@[0] != "QR_CODE_PIX"@[0]); },
                    EntryMode::ApplePay => { assert("IDEAL"@[0] != "APPLE_PAY"@[0]); },
                    EntryMode::GooglePay => { assert("IDEAL"@[0] != "GOOGLE_PAY"@[0]); },
                    EntryMode::Paypal => { assert("IDEAL"@[0] != "PAYPAL"@[0]); },
                    EntryMode::Twint => { assert("IDEAL"@[0] != "TWINT"@[0]); },
                    EntryMode::None_ => { assert("IDEAL"@[0] != "NONE"@[0]); },
                    EntryMode::Chip => { assert("IDEAL"@[0] != "CHIP"@[0]); },
                    EntryMode::ManualEntry => { assert("IDEAL"@[0] != "MANUAL_ENTRY"@[0]); },
                    EntryMode::CustomerEntry => { assert("IDEAL"@[0] != "CUSTOMER_ENTRY"@[0]); },
                    EntryMode::MagstripeFallback => { assert("IDEAL"@[0] != "MAGSTRIPE_FALLBACK"@[0]); },
                    EntryMode::Magstripe => { assert("IDEAL"@[0] != "MAGSTRIPE"@[0]); },
                    EntryMode::DirectDebit => { assert("IDEAL"@[0] != "DIRECT_DEBIT"@[0]); },
                    EntryMode::Contactless => { assert("IDEAL"@[0] != "CONTACTLESS"@[0]); },
                    EntryMode::Moto => { assert("IDEAL"@[0] != "MOTO"@[0]); },
                    EntryMode::ContactlessMagstripe => { assert("IDEAL"@[0] != "CONTACTLESS_MAGSTRIPE"@[0]); },
                    EntryMode::NA => { assert("IDEAL"@[0] != "N/A"@[0]); },
                    EntryMode::Other(_) => {},
                }
            },
            EntryMode::Bancontact => {
                match b {
                    EntryMode::Boleto => { assert("BANCONTACT"@[1] != "BOLETO"@[1]); },
                    EntryMode::Sofort => { assert("BANCONTACT"@[0] != "SOFORT"@[0]); },
                    EntryMode::Ideal => { assert("BANCONTACT"@[0] != "IDEAL"@[0]); },
                    EntryMode::Bancontact => {},
                    EntryMode::Eps => { assert("BANCONTACT"@[0] != "EPS"@[0]); },
                    EntryMode::Mybank => { assert("BANCONTACT"@[0] != "MYBANK"@[0]); },
                    EntryMode::Satispay => { assert("BANCONTACT"@[0] != "SATISPAY"@[0]); },
                    EntryMode::Blik => { assert("BANCONTACT"@[1] != "BLIK"@[1]); },
                    EntryMode::P24 => { assert("BANCONTACT"@[0] != "P24"@[0]); },
                    EntryMode::Giropay => { assert("BANCONTACT"@[0] != "GIROPAY"@[0]); },
                    EntryMode::Pix => { assert("BANCONTACT"@[0] != "PIX"@[0]); },
                    EntryMode::QrCodePix => { assert("BANCONTACT"@[0] != "QR_CODE_PIX"@[0]); },
                    EntryMode::ApplePay => { assert("BANCONTACT"@[0] != "APPLE_PAY"@[0]); },
                    EntryMode::GooglePay => { assert("BANCONTACT"@[0] != "GOOGLE_PAY"@[0]); },
                    EntryMode::Paypal => { assert("BANCONTACT"@[0] != "PAYPAL"@[0]); },
                    EntryMode::Twint => { assert("BANCONTACT"@[0] != "TWINT"@[0]); },
                    EntryMode::None_ => { assert("BANCONTACT"@[0] != "NONE"@[0]); },
                    EntryMode::Chip => { assert("BANCONTACT"@[0] != "CHIP"@[0]); },
                    EntryMode::ManualEntry => { assert("BANCONTACT"@[0] != "MANUAL_ENTRY"@[0]); },
                    EntryMode::CustomerEntry => { assert("BANCONTACT"@[0] != "CUSTOMER_ENTRY"@[0]); },
                    EntryMode::MagstripeFallback => { assert("BANCONTACT"@[0] != "MAGSTRIPE_FALLBACK"@[0]); },
                    EntryMode::Magstripe => { assert("BANCONTACT"@[0] != "MAGSTRIPE"@[0]); },
                    EntryMode::DirectDebit => { assert("BANCONTACT"@[0] != "DIRECT_DEBIT"@[0]); },
                    EntryMode::Contactless => { assert("BANCONTACT"@[0] != "CONTACTLESS"@[0]); },
                    EntryMode::Moto => { assert("BANCONTACT"@[0] != "MOTO"@[0]); },
                    EntryMode::ContactlessMagstripe => { assert("BANCONTACT"@[0] != "CONTACTLESS_MAGSTRIPE"@[0]); },
                    EntryMode::NA => { assert("BANCONTACT"@[0] != "N/A"@[0]); },
                    EntryMode::Other(_) => {},
                }
            },
            EntryMode::Eps => {
                match b {
                    EntryMode::Boleto => { assert("EPS"@[0] != "BOLETO"@[0]); },
                    EntryMode::Sofort => { assert("EPS"@[0] != "SOFORT"@[0]); },
                    EntryMode::Ideal => { assert("EPS"@[0] != "IDEAL"@[0]); },
                    EntryMode::Bancontact => { assert("EPS"@[0] != "BANCONTACT"@[0]); },
                    EntryMode::Eps => {},
                    EntryMode::Mybank => { assert("EPS"@[0] != "MYBANK"@[0]); },
                    EntryMode::Satispay => { assert("EPS"@[0] != "SATISPAY"@[0]); },
                    EntryMode::Blik => { assert("EPS"@[0] != "BLIK"@[0]); },
                    EntryMode::P24 => { assert("EPS"@[0] != "P24"@[0]); },
                    EntryMode::Giropay => { assert("EPS"@[0] != "GIROPAY"@[0]); },
                    EntryMode::Pix => { assert("EPS"@[0] != "PIX"@[0]); },
                    EntryMode::QrCodePix => { assert("EPS"@[0] != "QR_CODE_PIX"@[0]); },
                    EntryMode::ApplePay => { assert("EPS"@[0] != "APPLE_PAY"@[0]); },
                    EntryMode::GooglePay => { assert("EPS"@[0] != "GOOGLE_PAY"@[0]); },
                    EntryMode::Paypal => { assert("EPS"@[0] != "PAYPAL"@[0]); },
                    EntryMode::Twint => { assert("EPS"@[0] != "TWINT"@[0]); },
                    EntryMode::None_ => { assert("EPS"@[0] != "NONE"@[0]); },
                    EntryMode::Chip => { assert("EPS"@[0] != "CHIP"@[0]); },
                    EntryMode::ManualEntry => { assert("EPS"@[0] != "MANUAL_ENTRY"@[0]); },
                    EntryMode::CustomerEntry => { assert("EPS"@[0] != "CUSTOMER_ENTRY"@[0]); },
                    EntryMode::MagstripeFallback => { assert("EPS"@[0] != "MAGSTRIPE_FALLBACK"@[0]); },
                    EntryMode::Magstripe => { assert("EPS"@[0] != "MAGSTRIPE"@[0]); },
                    EntryMode::DirectDebit => { assert("EPS"@[0] != "DIRECT_DEBIT"@[0]); },
                    EntryMode::Contactless => { assert("EPS"@[0] != "CONTACTLESS"@[0]); },
                    EntryMode::Moto => { assert("EPS"@[0] != "MOTO"@[0]); },
                    EntryMode::ContactlessMagstripe => { assert("EPS"@[0] != "CONTACTLESS_MAGSTRIPE"@[0]); },
                    EntryMode::NA => { assert("EPS"@[0] != "N/A"@[0]); },
                    EntryMode::Other(_) => {},
                }
            },
            EntryMode::Mybank => {
                match b {
                    EntryMode::Boleto => { assert("MYBANK"@[0] != "BOLETO"@[0]); },
                    EntryMode::Sofort => { assert("MYBANK"@[0] != "SOFORT"@[0]); },
                    EntryMode::Ideal => { assert("MYBANK"@[0] != "IDEAL"@[0]); },
                    EntryMode::Bancontact => { assert("MYBANK"@[0] != "BANCONTACT"@[0]); },
                    EntryMode::Eps => { assert("MYBANK"@[0] != "EPS"@[0]); },
                    EntryMode::Mybank => {},
                    EntryMode::Satispay => { assert("MYBANK"@[0] != "SATISPAY"@[0]); },
                    EntryMode::Blik => { assert("MYBANK"@[0] != "BLIK"@[0]); },
                    EntryMode::P24 => { assert("MYBANK"@[0] != "P24"@[0]); },
                    EntryMode::Giropay => { assert("MYBANK"@[0] != "GIROPAY"@[0]); },
                    EntryMode::Pix => { assert("MYBANK"@[0] != "PIX"@[0]); },
                    EntryMode::QrCodePix => { assert("MYBANK"@[0] != "QR_CODE_PIX"@[0]); },
                    EntryMode::ApplePay => { assert("MYBANK"@[0] != "APPLE_PAY"@[0]); },
                    EntryMode::GooglePay => { assert("MYBANK"@[0] != "GOOGLE_PAY"@[0]); },
                    EntryMode::Paypal => { assert("MYBANK"@[0] != "PAYPAL"@[0]); },
                    EntryMode::Twint => { assert("MYBANK"@[0] != "TWINT"@[0]); },
                    EntryMode::None_ => { assert("MYBANK"@[0] != "NONE"@[0]); },
                    EntryMode::Chip => { assert("MYBANK"@[0] != "CHIP"@[0]); },
                    EntryMode::ManualEntry => { assert("MYBANK"@[1] != "MANUAL_ENTRY"@[1]); },
                    EntryMode::CustomerEntry => { assert("MYBANK"@[0] != "CUSTOMER_ENTRY"@[0]); },
                    EntryMode::MagstripeFallback => { assert("MYBANK"@[1] != "MAGSTRIPE_FALLBACK"@[1]); },
                    EntryMode::Magstripe => { assert("MYBANK"@[1] != "MAGSTRIPE"@[1]); },
                    EntryMode::DirectDebit => { assert("MYBANK"@[0] != "DIRECT_DEBIT"@[0]); },
                    EntryMode::Contactless => { assert("MYBANK"@[0] != "CONTACTLESS"@[0]); },
                    EntryMode::Moto => { assert("MYBANK"@[1] != "MOTO"@[1]); },
                    EntryMode::ContactlessMagstripe => { assert("MYBANK"@[0] != "CONTACTLESS_MAGSTRIPE"@[0]); },
                    EntryMode::NA => { assert("MYBANK"@[0] != "N/A"@[0]); },
                    EntryMode::Other(_) => {},
                }
            },
            EntryMode::Satispay => {
                match b {
                    EntryMode::Boleto => { assert("SATISPAY"@[0] != "BOLETO"@[0]); },
                    EntryMode::Sofort => { assert("SATISPAY"@[1] != "SOFORT"@[1]); },
                    EntryMode::Ideal => { assert("SATISPAY"@[0] != "IDEAL"@[0]); },
                    EntryMode::Bancontact => { assert("SATISPAY"@[0] != "BANCONTACT"@[0]); },
                    EntryMode::Eps => { assert("SATISPAY"@[0] != "EPS"@[0]); },
                    EntryMode::Mybank => { assert("SATISPAY"@[0] != "MYBANK"@[0]); },
                    EntryMode::Satispay => {},
                    EntryMode::Blik => { assert("SATISPAY"@[0] != "BLIK"@[0]); },
                    EntryMode::P24 => { assert("SATISPAY"@[0] != "P24"@[0]); },
                    EntryMode::Giropay => { assert("SATISPAY"@[0] != "GIROPAY"@[0]); },
                    EntryMode::Pix => { assert("SATISPAY"@[0] != "PIX"@[0]); },
                    EntryMode::QrCodePix => { assert("SATISPAY"@[0] != "QR_CODE_PIX"@[0]); },
                    EntryMode::ApplePay => { assert("SATISPAY"@[0] != "APPLE_PAY"@[0]); },
                    EntryMode::GooglePay => { assert("SATISPAY"@[0] != "GOOGLE_PAY"@[0]); },
                    EntryMode::Paypal => { assert("SATISPAY"@[0] != "PAYPAL"@[0]); },
                    EntryMode::Twint => { assert("SATISPAY"@[0] != "TWINT"@[0]); },
                    EntryMode::None_ => { assert("SATISPAY"@[0] != "NONE"@[0]); },
                    EntryMode::Chip => { assert("SATISPAY"@[0] != "CHIP"@[0]); },
                    EntryMode::ManualEntry => { assert("SATISPAY"@[0] != "MANUAL_ENTRY"@[0]); },
                    EntryMode::CustomerEntry => { assert("SATISPAY"@[0] != "CUSTOMER_ENTRY"@[0]); },
                    EntryMode::MagstripeFallback => { assert("SATISPAY"@[0] != "MAGSTRIPE_FALLBACK"@[0]); },
                    EntryMode::Magstripe => { assert("SATISPAY"@[0] != "MAGSTRIPE"@[0]); },
                    EntryMode::DirectDebit => { assert("SATISPAY"@[0] != "DIRECT_DEBIT"@[0]); },
                    EntryMode::Contactless => { assert("SATISPAY"@[0] != "CONTACTLESS"@[0]); },
                    EntryMode::Moto => { assert("SATISPAY"@[0] != "MOTO"@[0]); },
                    EntryMode::ContactlessMagstripe => { assert("SATISPAY"@[0] != "CONTACTLESS_MAGSTRIPE"@[0]); },
                    EntryMode::NA => { assert("SATISPAY"@[0] != "N/A"@[0]); },
                    EntryMode::Other(_) => {},
                }
            },
            EntryMode::Blik => {
                match b {
                    EntryMode::Boleto => { assert("BLIK"@[1] != "BOLETO"@[1]); },
                    EntryMode::Sofort => { assert("BLIK"@[0] != "SOFORT"@[0]); },
                    EntryMode::Ideal => { assert("BLIK"@[0] != "IDEAL"@[0]); },
                    EntryMode::Bancontact => { assert("BLIK"@[1] != "BANCONTACT"@[1]); },
                    EntryMode::Eps => { assert("BLIK"@[0] != "EPS"@[0]); },
                    EntryMode::Mybank => { assert("BLIK"@[0] != "MYBANK"@[0]); },
                    EntryMode::Satispay => { assert("BLIK"@[0] != "SATISPAY"@[0]); },
                    EntryMode::Blik => {},
                    EntryMode::P24 => { assert("BLIK"@[0] != "P24"@[0]); },
                    EntryMode::Giropay => { assert("BLIK"@[0] != "GIROPAY"@[0]); },
                    EntryMode::Pix => { assert("BLIK"@[0] != "PIX"@[0]); },
                    EntryMode::QrCodePix => { assert("BLIK"@[0] != "QR_CODE_PIX"@[0]); },
                    EntryMode::ApplePay => { assert("BLIK"@[0] != "APPLE_PAY"@[0]); },
                    EntryMode::GooglePay => { assert("BLIK"@[0] != "GOOGLE_PAY"@[0]); },
                    EntryMode::Paypal => { assert("BLIK"@[0] != "PAYPAL"@[0]); },
                    EntryMode::Twint => { assert("BLIK"@[0] != "TWINT"@[0]); },
                    EntryMode::None_ => { assert("BLIK"@[0] != "NONE"@[0]); },
                    EntryMode::Chip => { assert("BLIK"@[0] != "CHIP"@[0]); },
                    EntryMode::ManualEntry => { assert("BLIK"@[0] != "MANUAL_ENTRY"@[0]); },
                    EntryMode::CustomerEntry => { assert("BLIK"@[0] != "CUSTOMER_ENTRY"@[0]); },
                    EntryMode::MagstripeFallback => { assert("BLIK"@[0] != "MAGSTRIPE_FALLBACK"@[0]); },
                    EntryMode::Magstripe => { assert("BLIK"@[0] != "MAGSTRIPE"@[0]); },
                    EntryMode::DirectDebit => { assert("BLIK"@[0] != "DIRECT_DEBIT"@[0]); },
                    EntryMode::Contactless => { assert("BLIK"@[0] != "CONTACTLESS"@[0]); },
                    EntryMode::Moto => { assert("BLIK"@[0] != "MOTO"@[0]); },
                    EntryMode::ContactlessMagstripe => { assert("BLIK"@[0] != "CONTACTLESS_MAGSTRIPE"@[0]); },
                    EntryMode::NA => { assert("BLIK"@[0] != "N/A"@[0]); },
                    EntryMode::Other(_) => {},
                }
            },
            EntryMode::P24 => {
                match b {
                    EntryMode::Boleto => { assert("P24"@[0] != "BOLETO"@[0]); },
                    EntryMode::Sofort => { assert("P24"@[0] != "SOFORT"@[0]); },
                    EntryMode::Ideal => { assert("P24"@[0] != "IDEAL"@[0]); },
                    EntryMode::Bancontact => { assert("P24"@[0] != "BANCONTACT"@[0]); },
                    EntryMode::Eps => { assert("P24"@[0] != "EPS"@[0]); },
                    EntryMode::Mybank => { assert("P24"@[0] != "MYBANK"@[0]); },
                    EntryMode::Satispay => { assert("P24"@[0] != "SATISPAY"@[0]); },
                    EntryMode::Blik => { assert("P24"@[0] != "BLIK"@[0]); },
                    EntryMode::P24 => {},
                    EntryMode::Giropay => { assert("P24"@[0] != "GIROPAY"@[0]); },
                    EntryMode::Pix => { assert("P24"@[1] != "PIX"@[1]); },
                    EntryMode::QrCodePix => { assert("P24"@[0] != "QR_CODE_PIX"@[0]); },
                    EntryMode::ApplePay => { assert("P24"@[0] != "APPLE_PAY"@[0]); },
                    EntryMode::GooglePay => { assert("P24"@[0] != "GOOGLE_PAY"@[0]); },
                    EntryMode::Paypal => { assert("P24"@[1] != "PAYPAL"@[1]); },
                    EntryMode::Twint => { assert("P24"@[0] != "TWINT"@[0]); },
                    EntryMode::None_ => { assert("P24"@[0] != "NONE"@[0]); },
                    EntryMode::Chip => { assert("P24"@[0] != "CHIP"@[0]); },
                    EntryMode::ManualEntry => { assert("P24"@[0] != "MANUAL_ENTRY"@[0]); },
                    EntryMode::CustomerEntry => { assert("P24"@[0] != "CUSTOMER_ENTRY"@[0]); },
                    EntryMode::MagstripeFallback => { assert("P24"@[0] != "MAGSTRIPE_FALLBACK"@[0]); },
                    EntryMode::Magstripe => { assert("P24"@[0] != "MAGSTRIPE"@[0]); },
                    EntryMode::DirectDebit => { assert("P24"@[0] != "DIRECT_DEBIT"@[0]); },
                    EntryMode::Contactless => { assert("P24"@[0] != "CONTACTLESS"@[0]); },
                    EntryMode::Moto => { assert("P24"@[0] != "MOTO"@[0]); },
                    EntryMode::ContactlessMagstripe => { assert("P24"@[0] != "CONTACTLESS_MAGSTRIPE"@[0]); },
                    EntryMode::NA => { assert("P24"@[0] != "N/A"@[0]); },
                    EntryMode::Other(_) => {},
                }
            },
            EntryMode::Giropay => {
                match b {
                    EntryMode::Boleto => { assert("GIROPAY"@[0] != "BOLETO"@[0]); },
                    EntryMode::Sofort => { assert("GIROPAY"@[0] != "SOFORT"@[0]); },
                    EntryMode::Ideal => { assert("GIROPAY"@[0] != "IDEAL"@[0]); },
                    EntryMode::Bancontact => { assert("GIROPAY"@[0] != "BANCONTACT"@[0]); },
                    EntryMode::Eps => { assert("GIROPAY"@[0] != "EPS"@[0]); },
                    EntryMode::Mybank => { assert("GIROPAY"@[0] != "MYBANK"@[0]); },
                    EntryMode::Satispay => { assert("GIROPAY"@[0] != "SATISPAY"@[0]); },
                    EntryMode::Blik => { assert("GIROPAY"@[0] != "BLIK"@[0]); },
                    EntryMode::P24 => { assert("GIROPAY"@[0] != "P24"@[0]); },
                    EntryMode::Giropay => {},
                    EntryMode::Pix => { assert("GIROPAY"@[0] != "PIX"@[0]); },
                    EntryMode::QrCodePix => { assert("GIROPAY"@[0] != "QR_CODE_PIX"@[0]); },
                    EntryMode::ApplePay => { assert("GIROPAY"@[0] != "APPLE_PAY"@[0]); },
                    EntryMode::GooglePay => { assert("GIROPAY"@[1] != "GOOGLE_PAY"@[1]); },
                    EntryMode::Paypal => { assert("GIROPAY"@[0] != "PAYPAL"@[0]); },
                    EntryMode::Twint => { assert("GIROPAY"@[0] != "TWINT"@[0]); },
                    EntryMode::None_ => { assert("GIROPAY"@[0] != "NONE"@[0]); },
                    EntryMode::Chip => { assert("GIROPAY"@[0] != "CHIP"@[0]); },
                    EntryMode::ManualEntry => { assert("GIROPAY"@[0] != "MANUAL_ENTRY"@[0]); },
                    EntryMode::CustomerEntry => { assert("GIROPAY"@[0] != "CUSTOMER_ENTRY"@[0]); },
                    EntryMode::MagstripeFallback => { assert("GIROPAY"@[0] != "MAGSTRIPE_FALLBACK"@[0]); },
                    EntryMode::Magstripe => { assert("GIROPAY"@[0] != "MAGSTRIPE"@[0]); },
                    EntryMode::DirectDebit => { assert("GIROPAY"@[0] != "DIRECT_DEBIT"@[0]); },
                    EntryMode::Contactless => { assert("GIROPAY"@[0] != "CONTACTLESS"@[0]); },
                    EntryMode::Moto => { assert("GIROPAY"@[0] != "MOTO"@[0]); },
                    EntryMode::ContactlessMagstripe => { assert("GIROPAY"@[0] != "CONTACTLESS_MAGSTRIPE"@[0]); },
                    EntryMode::NA => { assert("GIROPAY"@[0] != "N/A"@[0]); },
                    EntryMode::Other(_) => {},
                }
            },
            EntryMode::Pix => {
                match b {
                    EntryMode::Boleto => { assert("PIX"@[0] != "BOLETO"@[0]); },
                    EntryMode::Sofort => { assert("PIX"@[0] != "SOFORT"@[0]); },
                    EntryMode::Ideal => { assert("PIX"@[0] != "IDEAL"@[0]); },
                    EntryMode::Bancontact => { assert("PIX"@[0] != "BANCONTACT"@[0]); },
                    EntryMode::Eps => { assert("PIX"@[0] != "EPS"@[0]); },
                    EntryMode::Mybank => { assert("PIX"@[0] != "MYBANK"@[0]); },
                    EntryMode::Satispay => { assert("PIX"@[0] != "SATISPAY"@[0]); },
                    EntryMode::Blik => { assert("PIX"@[0] != "BLIK"@[0]); },
                    EntryMode::P24 => { assert("PIX"@[1] != "P24"@[1]); },
                    EntryMode::Giropay => { assert("PIX"@[0] != "GIROPAY"@[0]); },
                    EntryMode::Pix => {},
                    EntryMode::QrCodePix => { assert("PIX"@[0] != "QR_CODE_PIX"@[0]); },
                    EntryMode::ApplePay => { assert("PIX"@[0] != "APPLE_PAY"@[0]); },
                    EntryMode::GooglePay => { assert("PIX"@[0] != "GOOGLE_PAY"@[0]); },
                    EntryMode::Paypal => { assert("PIX"@[1] != "PAYPAL"@[1]); },
                    EntryMode::Twint => { assert("PIX"@[0] != "TWINT"@[0]); },
                    EntryMode::None_ => { assert("PIX"@[0] != "NONE"@[0]); },
                    EntryMode::Chip => { assert("PIX"@[0] != "CHIP"@[0]); },
                    EntryMode::ManualEntry => { assert("PIX"@[0] != "MANUAL_ENTRY"@[0]); },
                    EntryMode::CustomerEntry => { assert("PIX"@[0] != "CUSTOMER_ENTRY"@[0]); },
                    EntryMode::MagstripeFallback => { assert("PIX"@[0] != "MAGSTRIPE_FALLBACK"@[0]); },
                    EntryMode::Magstripe => { assert("PIX"@[0] != "MAGSTRIPE"@[0]); },
                    EntryMode::DirectDebit => { assert("PIX"@[0] != "DIRECT_DEBIT"@[0]); },
                    EntryMode::Contactless => { assert("PIX"@[0] != "CONTACTLESS"@[0]); },
                    EntryMode::Moto => { assert("PIX"@[0] != "MOTO"@[0]); },
                    EntryMode::ContactlessMagstripe => { assert("PIX"@[0] != "CONTACTLESS_MAGSTRIPE"@[0]); },
                    EntryMode::NA => { assert("PIX"@[0] != "N/A"@[0]); },
                    EntryMode::Other(_) => {},
                }
            },
            EntryMode::QrCodePix => {
                match b {
                    EntryMode::Boleto => { assert("QR_CODE_PIX"@[0] != "BOLETO"@[0]); },
                    EntryMode::Sofort => { assert("QR_CODE_PIX"@[0] != "SOFORT"@[0]); },
                    EntryMode::Ideal => { assert("QR_CODE_PIX"@[0] != "IDEAL"@[0]); },
                    EntryMode::Bancontact => { assert("QR_CODE_PIX"@[0] != "BANCONTACT"@[0]); },
                    EntryMode::Eps => { assert("QR_CODE_PIX"@[0] != "EPS"@[0]); },
                    EntryMode::Mybank => { assert("QR_CODE_PIX"@[0] != "MYBANK"@[0]); },
                    EntryMode::Satispay => { assert("QR_CODE_PIX"@[0] != "SATISPAY"@[0]); },
                    EntryMode::Blik => { assert("QR_CODE_PIX"@[0] != "BLIK"@[0]); },
                    EntryMode::P24 => { assert("QR_CODE_PIX"@[0] != "P24"@[0]); },
                    EntryMode::Giropay => { assert("QR_CODE_PIX"@[0] != "GIROPAY"@[0]); },
                    EntryMode::Pix => { assert("QR_CODE_PIX"@[0] != "PIX"@[0]); },
                    EntryMode::QrCodePix => {},
                    EntryMode::ApplePay => { assert("QR_CODE_PIX"@[0] != "APPLE_PAY"@[0]); },
                    EntryMode::GooglePay => { assert("QR_CODE_PIX"@[0] != "GOOGLE_PAY"@[0]); },
                    EntryMode::Paypal => { assert("QR_CODE_PIX"@[0] != "PAYPAL"@[0]); },
                    EntryMode::Twint => { assert("QR_CODE_PIX"@[0] != "TWINT"@[0]); },
                    EntryMode::None_ => { assert("QR_CODE_PIX"@[0] != "NONE"@[0]); },
                    EntryMode::Chip => { assert("QR_CODE_PIX"@[0] != "CHIP"@[0]); },
                    EntryMode::ManualEntry => { assert("QR_CODE_PIX"@[0] != "MANUAL_ENTRY"@[0]); },
                    EntryMode::CustomerEntry => { assert("QR_CODE_PIX"@[0] != "CUSTOMER_ENTRY"@[0]); },
                    EntryMode::MagstripeFallback => { assert("QR_CODE_PIX"@[0] != "MAGSTRIPE_FALLBACK"@[0]); },
                    EntryMode::Magstripe => { assert("QR_CODE_PIX"@[0] != "MAGSTRIPE"@[0]); },
                    EntryMode::DirectDebit => { assert("QR_CODE_PIX"@[0] != "DIRECT_DEBIT"@[0]); },
                    EntryMode::Contactless => { assert("QR_CODE_PIX"@[0] != "CONTACTLESS"@[0]); },
                    EntryMode::Moto => { assert("QR_CODE_PIX"@[0] != "MOTO"@[0]); },
                    EntryMode::ContactlessMagstripe => { assert("QR_CODE_PIX"@[0] != "CONTACTLESS_MAGSTRIPE"@[0]); },
                    EntryMode::NA => { assert("QR_CODE_PIX"@[0] != "N/A"@[0]); },
                    EntryMode::Other(_) => {},
                }
            },
            EntryMode::ApplePay => {
                match b {
                    EntryMode::Boleto => { assert("APPLE_PAY"@[0] != "BOLETO"@[0]); },
                    EntryMode::Sofort => { assert("APPLE_PAY"@[0] != "SOFORT"@[0]); },
                    EntryMode::Ideal => { assert("APPLE_PAY"@[0] != "IDEAL"@[0]); },
                    EntryMode::Bancontact => { assert("APPLE_PAY"@[0] != "BANCONTACT"@[0]); },
                    EntryMode::Eps => { assert("APPLE_PAY"@[0] != "EPS"@[0]); },
                    EntryMode::Mybank => { assert("APPLE_PAY"@[0] != "MYBANK"@[0]); },
                    EntryMode::Satispay => { assert("APPLE_PAY"@[0] != "SATISPAY"@[0]); },
                    EntryMode::Blik => { assert("APPLE_PAY"@[0] != "BLIK"@[0]); },
                    EntryMode::P24 => { assert("APPLE_PAY"@[0] != "P24"@[0]); },
                    EntryMode::Giropay => { assert("APPLE_PAY"@[0] != "GIROPAY"@[0]); },
                    EntryMode::Pix => { assert("APPLE_PAY"@[0] != "PIX"@[0]); },
                    EntryMode::QrCodePix => { assert("APPLE_PAY"@[0] != "QR_CODE_PIX"@[0]); },
                    EntryMode::ApplePay => {},
                    EntryMode::GooglePay => { assert("APPLE_PAY"@[0] != "GOOGLE_PAY"@[0]); },
                    EntryMode::Paypal => { assert("APPLE_PAY"@[0] != "PAYPAL"@[0]); },
                    EntryMode::Twint => { assert("APPLE_PAY"@[0] != "TWINT"@[0]); },
                    EntryMode::None_ => { assert("APPLE_PAY"@[0] != "NONE"@[0]); },
                    EntryMode::Chip => { assert("APPLE_PAY"@[0] != "CHIP"@[0]); },
                    EntryMode::ManualEntry => { assert("APPLE_PAY"@[0] != "MANUAL_ENTRY"@[0]); },
                    EntryMode::CustomerEntry => { assert("APPLE_PAY"@[0] != "CUSTOMER_ENTRY"@[0]); },
                    EntryMode::MagstripeFallback => { assert("APPLE_PAY"@[0] != "MAGSTRIPE_FALLBACK"@[0]); },
                    EntryMode::Magstripe => { assert("APPLE_PAY"@[0] != "MAGSTRIPE"@[0]); },
                    EntryMode::DirectDebit => { assert("APPLE_PAY"@[0] != "DIRECT_DEBIT"@[0]); },
                    EntryMode::Contactless => { assert("APPLE_PAY"@[0] != "CONTACTLESS"@[0]); },
                    EntryMode::Moto => { assert("APPLE_PAY"@[0] != "MOTO"@[0]); },
                    EntryMode::ContactlessMagstripe => { assert("APPLE_PAY"@[0] != "CONTACTLESS_MAGSTRIPE"@[0]); },
                    EntryMode::NA => { assert("APPLE_PAY"@[0] != "N/A"@[0]); },
                    EntryMode::Other(_) => {},
                }
            },
            EntryMode::GooglePay => {
                match b {
                    EntryMode::Boleto => { assert("GOOGLE_PAY"@[0] != "BOLETO"@[0]); },
                    EntryMode::Sofort => { assert("GOOGLE_PAY"@[0] != "SOFORT"@[0]); },
                    EntryMode::Ideal => { assert("GOOGLE_PAY"@[0] != "IDEAL"@[0]); },
                    EntryMode::Bancontact => { assert("GOOGLE_PAY"@[0] != "BANCONTACT"@[0]); },
                    EntryMode::Eps => { assert("GOOGLE_PAY"@[0] != "EPS"@[0]); },
                    EntryMode::Mybank => { assert("GOOGLE_PAY"@[0] != "MYBANK"@[0]); },
                    EntryMode::Satispay => { assert("GOOGLE_PAY"@[0] != "SATISPAY"@[0]); },
                    EntryMode::Blik => { assert("GOOGLE_PAY"@[0] != "BLIK"@[0]); },
                    EntryMode::P24 => { assert("GOOGLE_PAY"@[0] != "P24"@[0]); },
                    EntryMode::Giropay => { assert("GOOGLE_PAY"@[1] != "GIROPAY"@[1]); },
                    EntryMode::Pix => { assert("GOOGLE_PAY"@[0] != "PIX"@[0]); },
                    EntryMode::QrCodePix => { assert("GOOGLE_PAY"@[0] != "QR_CODE_PIX"@[0]); },
                    EntryMode::ApplePay => { assert("GOOGLE_PAY"@[0] != "APPLE_PAY"@[0]); },
                    EntryMode::GooglePay => {},
                    EntryMode::Paypal => { assert("GOOGLE_PAY"@[0] != "PAYPAL"@[0]); },
                    EntryMode::Twint => { assert("GOOGLE_PAY"@[0] != "TWINT"@[0]); },
                    EntryMode::None_ => { assert("GOOGLE_PAY"@[0] != "NONE"@[0]); },
                    EntryMode::Chip => { assert("GOOGLE_PAY"@[0] != "CHIP"@[0]); },
                    EntryMode::ManualEntry => { assert("GOOGLE_PAY"@[0] != "MANUAL_ENTRY"@[0]); },
                    EntryMode::CustomerEntry => { assert("GOOGLE_PAY"@[0] != "CUSTOMER_ENTRY"@[0]); },
                    EntryMode::MagstripeFallback => { assert("GOOGLE_PAY"@[0] != "MAGSTRIPE_FALLBACK"@[0]); },
                    EntryMode::Magstripe => { assert("GOOGLE_PAY"@[0] != "MAGSTRIPE"@[0]); },
                    EntryMode::DirectDebit => { assert("GOOGLE_PAY"@[0] != "DIRECT_DEBIT"@[0]); },
                    EntryMode::Contactless => { assert("GOOGLE_PAY"@[0] != "CONTACTLESS"@[0]); },
                    EntryMode::Moto => { assert("GOOGLE_PAY"@[0] != "MOTO"@[0]); },
                    EntryMode::ContactlessMagstripe => { assert("GOOGLE_PAY"@[0] != "CONTACTLESS_MAGSTRIPE"@[0]); },
                    EntryMode::NA => { assert("GOOGLE_PAY"@[0] != "N/A"@[0]); },
                    EntryMode::Other(_) => {},
                }
            },
            EntryMode::Paypal => {
                match b {
                    EntryMode::Boleto => { assert("PAYPAL"@[0] != "BOLETO"@[0]); },
                    EntryMode::Sofort => { assert("PAYPAL"@[0] != "SOFORT"@[0]); },
                    EntryMode::Ideal => { assert("PAYPAL"@[0] != "IDEAL"@[0]); },
                    EntryMode::Bancontact => { assert("PAYPAL"@[0] != "BANCONTACT"@[0]); },
                    EntryMode::Eps => { assert("PAYPAL"@[0] != "EPS"@[0]); },
                    EntryMode::Mybank => { assert("PAYPAL"@[0] != "MYBANK"@[0]); },
                    EntryMode::Satispay => { assert("PAYPAL"@[0] != "SATISPAY"@[0]); },
                    EntryMode::Blik => { assert("PAYPAL"@[0] != "BLIK"@[0]); },
                    EntryMode::P24 => { assert("PAYPAL"@[1] != "P24"@[1]); },
                    EntryMode::Giropay => { assert("PAYPAL"@[0] != "GIROPAY"@[0]); },
                    EntryMode::Pix => { assert("PAYPAL"@[1] != "PIX"@[1]); },
                    EntryMode::QrCodePix => { assert("PAYPAL"@[0] != "QR_CODE_PIX"@[0]); },
                    EntryMode::ApplePay => { assert("PAYPAL"@[0] != "APPLE_PAY"@[0]); },
                    EntryMode::GooglePay => { assert("PAYPAL"@[0] != "GOOGLE_PAY"@[0]); },
                    EntryMode::Paypal => {},
                    EntryMode::Twint => { assert("PAYPAL"@[0] != "TWINT"@[0]); },
                    EntryMode::None_ => { assert("PAYPAL"@[0] != "NONE"@[0]); },
                    EntryMode::Chip => { assert("PAYPAL"@[0] != "CHIP"@[0]); },
                    EntryMode::ManualEntry => { assert("PAYPAL"@[0] != "MANUAL_ENTRY"@[0]); },
                    EntryMode::CustomerEntry => { assert("PAYPAL"@[0] != "CUSTOMER_ENTRY"@[0]); },
                    EntryMode::MagstripeFallback => { assert("PAYPAL"@[0] != "MAGSTRIPE_FALLBACK"@[0]); },
                    EntryMode::Magstripe => { assert("PAYPAL"@[0] != "MAGSTRIPE"@[0]); },
                    EntryMode::DirectDebit => { assert("PAYPAL"@[0] != "DIRECT_DEBIT"@[0]); },
                    EntryMode::Contactless => { assert("PAYPAL"@[0] != "CONTACTLESS"@[0]); },
                    EntryMode::Moto => { assert("PAYPAL"@[0] != "MOTO"@[0]); },
                    EntryMode::ContactlessMagstripe => { assert("PAYPAL"@[0] != "CONTACTLESS_MAGSTRIPE"@[0]); },
                    EntryMode::NA => { assert("PAYPAL"@[0] != "N/A"@[0]); },
                    EntryMode::Other(_) => {},
                }
            },
            EntryMode::Twint => {
                match b {
                    EntryMode::Boleto => { assert("TWINT"@[0] != "BOLETO"@[0]); },
                    EntryMode::Sofort => { assert("TWINT"@[0] != "SOFORT"@[0]); },
                    EntryMode::Ideal => { assert("TWINT"@[0] != "IDEAL"@[0]); },
                    EntryMode::Bancontact => { assert("TWINT"@[0] != "BANCONTACT"@[0]); },
                    EntryMode::Eps => { assert("TWINT"@[0] != "EPS"@[0]); },
                    EntryMode::Mybank => { assert("TWINT"@[0] != "MYBANK"@[0]); },
                    EntryMode::Satispay => { assert("TWINT"@[0] != "SATISPAY"@[0]); },
                    EntryMode::Blik => { assert("TWINT"@[0] != "BLIK"@[0]); },
                    EntryMode::P24 => { assert("TWINT"@[0] != "P24"@[0]); },
                    EntryMode::Giropay => { assert("TWINT"@[0] != "GIROPAY"@[0]); },
                    EntryMode::Pix => { assert("TWINT"@[0] != "PIX"@[0]); },
                    EntryMode::QrCodePix => { assert("TWINT"@[0] != "QR_CODE_PIX"@[0]); },
                    EntryMode::ApplePay => { assert("TWINT"@[0] != "APPLE_PAY"@[0]); },
                    EntryMode::GooglePay => { assert("TWINT"@[0] != "GOOGLE_PAY"@[0]); },
                    EntryMode::Paypal => { assert("TWINT"@[0] != "PAYPAL"@[0]); },
                    EntryMode::Twint => {},
                    EntryMode::None_ => { assert("TWINT"@[0] != "NONE"@[0]); },
                    EntryMode::Chip => { assert("TWINT"@[0] != "CHIP"@[0]); },
                    EntryMode::ManualEntry => { assert("TWINT"@[0] != "MANUAL_ENTRY"@[0]); },
                    EntryMode::CustomerEntry => { assert("TWINT"@[0] != "CUSTOMER_ENTRY"@[0]); },
                    EntryMode::MagstripeFallback => { assert("TWINT"@[0] != "MAGSTRIPE_FALLBACK"@[0]); },
                    EntryMode::Magstripe => { assert("TWINT"@[0] != "MAGSTRIPE"@[0]); },
                    EntryMode::DirectDebit => { assert("TWINT"@[0] != "DIRECT_DEBIT"@[0]); },
                    EntryMode::Contactless => { assert("TWINT"@[0] != "CONTACTLESS"@[0]); },
                    EntryMode::Moto => { assert("TWINT"@[0] != "MOTO"@[0]); },
                    EntryMode::ContactlessMagstripe => { assert("TWINT"@[0] != "CONTACTLESS_MAGSTRIPE"@[0]); },
                    EntryMode::NA => { assert("TWINT"@[0] != "N/A"@[0]); },
                    EntryMode::Other(_) => {},
                }
            },
            EntryMode::None_ => {
                match b {
                    EntryMode::Boleto => { assert("NONE"@[0] != "BOLETO"@[0]); },
                    EntryMode::Sofort => { assert("NONE"@[0] != "SOFORT"@[0]); },
                    EntryMode::Ideal => { assert("NONE"@[0] != "IDEAL"@[0]); },
                    EntryMode::Bancontact => { assert("NONE"@[0] != "BANCONTACT"@[0]); },
                    EntryMode::Eps => { assert("NONE"@[0] != "EPS"@[0]); },
                    EntryMode::Mybank => { assert("NONE"@[0] != "MYBANK"@[0]); },
                    EntryMode::Satispay => { assert("NONE"@[0] != "SATISPAY"@[0]); },
                    EntryMode::Blik => { assert("NONE"@[0] != "BLIK"@[0]); },
                    EntryMode::P24 => { assert("NONE"@[0] != "P24"@[0]); },
                    EntryMode::Giropay => { assert("NONE"@[0] != "GIROPAY"@[0]); },
                    EntryMode::Pix => { assert("NONE"@[0] != "PIX"@[0]); },
                    EntryMode::QrCodePix => { assert("NONE"@[0] != "QR_CODE_PIX"@[0]); },
                    EntryMode::ApplePay => { assert("NONE"@[0] != "APPLE_PAY"@[0]); },
                    EntryMode::GooglePay => { assert("NONE"@[0] != "GOOGLE_PAY"@[0]); },
                    EntryMode::Paypal => { assert("NONE"@[0] != "PAYPAL"@[0]); },
                    EntryMode::Twint => { assert("NONE"@[0] != "TWINT"@[0]); },
                    EntryMode::None_ => {},
                    EntryMode::Chip => { assert("NONE"@[0] != "CHIP"@[0]); },
                    EntryMode::ManualEntry => { assert("NONE"@[0] != "MANUAL_ENTRY"@[0]); },
                    EntryMode::CustomerEntry => { assert("NONE"@[0] != "CUSTOMER_ENTRY"@[0]); },
                    EntryMode::MagstripeFallback => { assert("NONE"@[0] != "MAGSTRIPE_FALLBACK"@[0]); },
                    EntryMode::Magstripe => { assert("NONE"@[0] != "MAGSTRIPE"@[0]); },
                    EntryMode::DirectDebit => { assert("NONE"@[0] != "DIRECT_DEBIT"@[0]); },
                    EntryMode::Contactless => { assert("NONE"@[0] != "CONTACTLESS"@[0]); },
                    EntryMode::Moto => { assert("NONE"@[0] != "MOTO"@[0]); },
                    EntryMode::ContactlessMagstripe => { assert("NONE"@[0] != "CONTACTLESS_MAGSTRIPE"@[0]); },
                    EntryMode::NA => { assert("NONE"@[1] != "N/A"@[1]); },
                    EntryMode::Other(_) => {},
                }
            },
            EntryMode::Chip => {
                match b {
                    EntryMode::Boleto => { assert("CHIP"@[0] != "BOLETO"@[0]); },
                    EntryMode::Sofort => { assert("CHIP"@[0] != "SOFORT"@[0]); },
                    EntryMode::Ideal => { assert("CHIP"@[0] != "IDEAL"@[0]); },
                    EntryMode::Bancontact => { assert("CHIP"@[0] != "BANCONTACT"@[0]); },
                    EntryMode::Eps => { assert("CHIP"@[0] != "EPS"@[0]); },
                    EntryMode::Mybank => { assert("CHIP"@[0] != "MYBANK"@[0]); },
                    EntryMode::Satispay => { assert("CHIP"@[0] != "SATISPAY"@[0]); },
                    EntryMode::Blik => { assert("CHIP"@[0] != "BLIK"@[0]); },
                    EntryMode::P24 => { assert("CHIP"@[0] != "P24"@[0]); },
                    EntryMode::Giropay => { assert("CHIP"@[0] != "GIROPAY"@[0]); },
                    EntryMode::Pix => { assert("CHIP"@[0] != "PIX"@[0]); },
                    EntryMode::QrCodePix => { assert("CHIP"@[0] != "QR_CODE_PIX"@[0]); },
                    EntryMode::ApplePay => { assert("CHIP"@[0] != "APPLE_PAY"@[0]); },
                    EntryMode::GooglePay => { assert("CHIP"@[0] != "GOOGLE_PAY"@[0]); },
                    EntryMode::Paypal => { assert("CHIP"@[0] != "PAYPAL"@[0]); },
                    EntryMode::Twint => { assert("CHIP"@[0] != "TWINT"@[0]); },
                    EntryMode::None_ => { assert("CHIP"@[0] != "NONE"@[0]); },
                    EntryMode::Chip => {},
                    EntryMode::ManualEntry => { assert("CHIP"@[0] != "MANUAL_ENTRY"@[0]); },
                    EntryMode::CustomerEntry => { assert("CHIP"@[1] != "CUSTOMER_ENTRY"@[1]); },
                    EntryMode::MagstripeFallback => { assert("CHIP"@[0] != "MAGSTRIPE_FALLBACK"@[0]); },
                    EntryMode::Magstripe => { assert("CHIP"@[0] != "MAGSTRIPE"@[0]); },
                    EntryMode::DirectDebit => { assert("CHIP"@[0] != "DIRECT_DEBIT"@[0]); },
                    EntryMode::Contactless => { assert("CHIP"@[1] != "CONTACTLESS"@[1]); },
                    EntryMode::Moto => { assert("CHIP"@[0] != "MOTO"@[0]); },
                    EntryMode::ContactlessMagstripe => { assert("CHIP"@[1] != "CONTACTLESS_MAGSTRIPE"@[1]); },
                    EntryMode::NA => { assert("CHIP"@[0] != "N/A"@[0]); },
                    EntryMode::Other(_) => {},
                }
            },
            EntryMode::ManualEntry => {
                match b {
                    EntryMode::Boleto => { assert("MANUAL_ENTRY"@[0] != "BOLETO"@[0]); },
                    EntryMode::Sofort => { assert("MANUAL_ENTRY"@[0] != "SOFORT"@[0]); },
                    EntryMode::Ideal => { assert("MANUAL_ENTRY"@[0] != "IDEAL"@[0]); },
                    EntryMode::Bancontact => { assert("MANUAL_ENTRY"@[0] != "BANCONTACT"@[0]); },
                    EntryMode::Eps => { assert("MANUAL_ENTRY"@[0] != "EPS"@[0]); },
                    EntryMode::Mybank => { assert("MANUAL_ENTRY"@[1] != "MYBANK"@[1]); },
                    EntryMode::Satispay => { assert("MANUAL_ENTRY"@[0] != "SATISPAY"@[0]); },
                    EntryMode::Blik => { assert("MANUAL_ENTRY"@[0] != "BLIK"@[0]); },
                    EntryMode::P24 => { assert("MANUAL_ENTRY"@[0] != "P24"@[0]); },
                    EntryMode::Giropay => { assert("MANUAL_ENTRY"@[0] != "GIROPAY"@[0]); },
                    EntryMode::Pix => { assert("MANUAL_ENTRY"@[0] != "PIX"@[0]); },
                    EntryMode::QrCodePix => { assert("MANUAL_ENTRY"@[0] != "QR_CODE_PIX"@[0]); },
                    EntryMode::ApplePay => { assert("MANUAL_ENTRY"@[0] != "APPLE_PAY"@[0]); },
                    EntryMode::GooglePay => { assert("MANUAL_ENTRY"@[0] != "GOOGLE_PAY"@[0]); },
                    EntryMode::Paypal => { assert("MANUAL_ENTRY"@[0] != "PAYPAL"@[0]); },
                    EntryMode::Twint => { assert("MANUAL_ENTRY"@[0] != "TWINT"@[0]); },
                    EntryMode::None_ => { assert("MANUAL_ENTRY"@[0] != "NONE"@[0]); },
                    EntryMode::Chip => { assert("MANUAL_ENTRY"@[0] != "CHIP"@[0]); },
                    EntryMode::ManualEntry => {},
                    EntryMode::CustomerEntry => { assert("MANUAL_ENTRY"@[0] != "CUSTOMER_ENTRY"@[0]); },
                    EntryMode::MagstripeFallback => { assert("MANUAL_ENTRY"@[2] != "MAGSTRIPE_FALLBACK"@[2]); },
                    EntryMode::Magstripe => { assert("MANUAL_ENTRY"@[2] != "MAGSTRIPE"@[2]); },
                    EntryMode::DirectDebit => { assert("MANUAL_ENTRY"@[0] != "DIRECT_DEBIT"@[0]); },
                    EntryMode::Contactless => { assert("MANUAL_ENTRY"@[0] != "CONTACTLESS"@[0]); },
                    EntryMode::Moto => { assert("MANUAL_ENTRY"@[1] != "MOTO"@[1]); },
                    EntryMode::ContactlessMagstripe => { assert("MANUAL_ENTRY"@[0] != "CONTACTLESS_MAGSTRIPE"@[0]); },
                    EntryMode::NA => { assert("MANUAL_ENTRY"@[0] != "N/A"@[0]); },
                    EntryMode::Other(_) => {},
                }
            },
            EntryMode::CustomerEntry => {
                match b {
                    EntryMode::Boleto => { assert("CUSTOMER_ENTRY"@[0] != "BOLETO"@[0]); },
                    EntryMode::Sofort => { assert("CUSTOMER_ENTRY"@[0] != "SOFORT"@[0]); },
                    EntryMode::Ideal => { assert("CUSTOMER_ENTRY"@[0] != "IDEAL"@[0]); },
                    EntryMode::Bancontact => { assert("CUSTOMER_ENTRY"@[0] != "BANCONTACT"@[0]); },
                    EntryMode::Eps => { assert("CUSTOMER_ENTRY"@[0] != "EPS"@[0]); },
                    EntryMode::Mybank => { assert("CUSTOMER_ENTRY"@[0] != "MYBANK"@[0]); },
                    EntryMode::Satispay => { assert("CUSTOMER_ENTRY"@[0] != "SATISPAY"@[0]); },
                    EntryMode::Blik => { assert("CUSTOMER_ENTRY"@[0] != "BLIK"@[0]); },
                    EntryMode::P24 => { assert("CUSTOMER_ENTRY"@[0] != "P24"@[0]); },
                    EntryMode::Giropay => { assert("CUSTOMER_ENTRY"@[0] != "GIROPAY"@[0]); },
                    EntryMode::Pix => { assert("CUSTOMER_ENTRY"@[0] != "PIX"@[0]); },
                    EntryMode::QrCodePix => { assert("CUSTOMER_ENTRY"@[0] != "QR_CODE_PIX"@[0]); },
                    EntryMode::ApplePay => { assert("CUSTOMER_ENTRY"@[0] != "APPLE_PAY"@[0]); },
                    EntryMode::GooglePay => { assert("CUSTOMER_ENTRY"@[0] != "GOOGLE_PAY"@[0]); },
                    EntryMode::Paypal => { assert("CUSTOMER_ENTRY"@[0] != "PAYPAL"@[0]); },
                    EntryMode::Twint => { assert("CUSTOMER_ENTRY"@[0] != "TWINT"@[0]); },
                    EntryMode::None_ => { assert("CUSTOMER_ENTRY"@[0] != "NONE"@[0]); },
                    EntryMode::Chip => { assert("CUSTOMER_ENTRY"@[1] != "CHIP"@[1]); },
                    EntryMode::ManualEntry => { assert("CUSTOMER_ENTRY"@[0] != "MANUAL_ENTRY"@[0]); },
                    EntryMode::CustomerEntry => {},
                    EntryMode::MagstripeFallback => { assert("CUSTOMER_ENTRY"@[0] != "MAGSTRIPE_FALLBACK"@[0]); },
                    EntryMode::Magstripe => { assert("CUSTOMER_ENTRY"@[0] != "MAGSTRIPE"@[0]); },
                    EntryMode::DirectDebit => { assert("CUSTOMER_ENTRY"@[0] != "DIRECT_DEBIT"@[0]); },
                    EntryMode::Contactless => { assert("CUSTOMER_ENTRY"@[1] != "CONTACTLESS"@[1]); },
                    EntryMode::Moto => { assert("CUSTOMER_ENTRY"@[0] != "MOTO"@[0]); },
                    EntryMode::ContactlessMagstripe => { assert("CUSTOMER_ENTRY"@[1] != "CONTACTLESS_MAGSTRIPE"@[1]); },
                    EntryMode::NA => { assert("CUSTOMER_ENTRY"@[0] != "N/A"@[0]); },
                    EntryMode::Other(_) => {},
                }
            },
            EntryMode::MagstripeFallback => {
                match b {
                    EntryMode::Boleto => { assert("MAGSTRIPE_FALLBACK"@[0] != "BOLETO"@[0]); },
                    EntryMode::Sofort => { assert("MAGSTRIPE_FALLBACK"@[0] != "SOFORT"@[0]); },
                    EntryMode::Ideal => { assert("MAGSTRIPE_FALLBACK"@[0] != "IDEAL"@[0]); },
                    EntryMode::Bancontact => { assert("MAGSTRIPE_FALLBACK"@[0] != "BANCONTACT"@[0]); },
                    EntryMode::Eps => { assert("MAGSTRIPE_FALLBACK"@[0] != "EPS"@[0]); },
                    EntryMode::Mybank => { assert("MAGSTRIPE_FALLBACK"@[1] != "MYBANK"@[1]); },
                    EntryMode::Satispay => { assert("MAGSTRIPE_FALLBACK"@[0] != "SATISPAY"@[0]); },
                    EntryMode::Blik => { assert("MAGSTRIPE_FALLBACK"@[0] != "BLIK"@[0]); },
                    EntryMode::P24 => { assert("MAGSTRIPE_FALLBACK"@[0] != "P24"@[0]); },
                    EntryMode::Giropay => { assert("MAGSTRIPE_FALLBACK"@[0] != "GIROPAY"@[0]); },
                    EntryMode::Pix => { assert("MAGSTRIPE_FALLBACK"@[0] != "PIX"@[0]); },
                    EntryMode::QrCodePix => { assert("MAGSTRIPE_FALLBACK"@[0] != "QR_CODE_PIX"@[0]); },
                    EntryMode::ApplePay => { assert("MAGSTRIPE_FALLBACK"@[0] != "APPLE_PAY"@[0]); },
                    EntryMode::GooglePay => { assert("MAGSTRIPE_FALLBACK"@[0] != "GOOGLE_PAY"@[0]); },
                    EntryMode::Paypal => { assert("MAGSTRIPE_FALLBACK"@[0] != "PAYPAL"@[0]); },
                    EntryMode::Twint => { assert("MAGSTRIPE_FALLBACK"@[0] != "TWINT"@[0]); },
                    EntryMode::None_ => { assert("MAGSTRIPE_FALLBACK"@[0] != "NONE"@[0]); },
                    EntryMode::Chip => { assert("MAGSTRIPE_FALLBACK"@[0] != "CHIP"@[0]); },
                    EntryMode::ManualEntry => { assert("MAGSTRIPE_FALLBACK"@[2] != "MANUAL_ENTRY"@[2]); },
                    EntryMode::CustomerEntry => { assert("MAGSTRIPE_FALLBACK"@[0] != "CUSTOMER_ENTRY"@[0]); },
                    EntryMode::MagstripeFallback => {},
                    EntryMode::Magstripe => { assert("MAGSTRIPE_FALLBACK"@.len() != "MAGSTRIPE"@.len()); },
                    EntryMode::DirectDebit => { assert("MAGSTRIPE_FALLBACK"@[0] != "DIRECT_DEBIT"@[0]); },
                    EntryMode::Contactless => { assert("MAGSTRIPE_FALLBACK"@[0] != "CONTACTLESS"@[0]); },
                    EntryMode::Moto => { assert("MAGSTRIPE_FALLBACK"@[1] != "MOTO"@[1]); },
                    EntryMode::ContactlessMagstripe => { assert("MAGSTRIPE_FALLBACK"@[0] != "CONTACTLESS_MAGSTRIPE"@[0]); },
                    EntryMode::NA => { assert("MAGSTRIPE_FALLBACK"@[0] != "N/A"@[0]); },
                    EntryMode::Other(_) => {},
                }
            },
            EntryMode::Magstripe => {
                match b {
                    EntryMode::Boleto => { assert("MAGSTRIPE"@[0] != "BOLETO"@[0]); },
                    EntryMode::Sofort => { assert("MAGSTRIPE"@[0] != "SOFORT"@[0]); },
                    EntryMode::Ideal => { assert("MAGSTRIPE"@[0] != "IDEAL"@[0]); },
                    EntryMode::Bancontact => { assert("MAGSTRIPE"@[0] != "BANCONTACT"@[0]); },
                    EntryMode::Eps => { assert("MAGSTRIPE"@[0] != "EPS"@[0]); },
                    EntryMode::Mybank => { assert("MAGSTRIPE"@[1] != "MYBANK"@[1]); },
                    EntryMode::Satispay => { assert("MAGSTRIPE"@[0] != "SATISPAY"@[0]); },
                    EntryMode::Blik => { assert("MAGSTRIPE"@[0] != "BLIK"@[0]); },
                    EntryMode::P24 => { assert("MAGSTRIPE"@[0] != "P24"@[0]); },
                    EntryMode::Giropay => { assert("MAGSTRIPE"@[0] != "GIROPAY"@[0]); },
                    EntryMode::Pix => { assert("MAGSTRIPE"@[0] != "PIX"@[0]); },
                    EntryMode::QrCodePix => { assert("MAGSTRIPE"@[0] != "QR_CODE_PIX"@[0]); },
                    EntryMode::ApplePay => { assert("MAGSTRIPE"@[0] != "APPLE_PAY"@[0]); },
                    EntryMode::GooglePay => { assert("MAGSTRIPE"@[0] != "GOOGLE_PAY"@[0]); },
                    EntryMode::Paypal => { assert("MAGSTRIPE"@[0] != "PAYPAL"@[0]); },
                    EntryMode::Twint => { assert("MAGSTRIPE"@[0] != "TWINT"@[0]); },
                    EntryMode::None_ => { assert("MAGSTRIPE"@[0] != "NONE"@[0]); },
                    EntryMode::Chip => { assert("MAGSTRIPE"@[0] != "CHIP"@[0]); },
                    EntryMode::ManualEntry => { assert("MAGSTRIPE"@[2] != "MANUAL_ENTRY"@[2]); },
                    EntryMode::CustomerEntry => { assert("MAGSTRIPE"@[0] != "CUSTOMER_ENTRY"@[0]); },
                    EntryMode::MagstripeFallback => { assert("MAGSTRIPE"@.len() != "MAGSTRIPE_FALLBACK"@.len()); },
                    EntryMode::Magstripe => {},
                    EntryMode::DirectDebit => { assert("MAGSTRIPE"@[0] != "DIRECT_DEBIT"@[0]); },
                    EntryMode::Contactless => { assert("MAGSTRIPE"@[0] != "CONTACTLESS"@[0]); },
                    EntryMode::Moto => { assert("MAGSTRIPE"@[1] != "MOTO"@[1]); },
                    EntryMode::ContactlessMagstripe => { assert("MAGSTRIPE"@[0] != "CONTACTLESS_MAGSTRIPE"@[0]); },
                    EntryMode::NA => { assert("MAGSTRIPE"@[0] != "N/A"@[0]); },
                    EntryMode::Other(_) => {},
                }
            },
            EntryMode::DirectDebit => {
                match b {
                    EntryMode::Boleto => { assert("DIRECT_DEBIT"@[0] != "BOLETO"@[0]); },
                    EntryMode::Sofort => { assert("DIRECT_DEBIT"@[0] != "SOFORT"@[0]); },
                    EntryMode::Ideal => { assert("DIRECT_DEBIT"@[0] != "IDEAL"@[0]); },
                    EntryMode::Bancontact => { assert("DIRECT_DEBIT"@[0] != "BANCONTACT"@[0]); },
                    EntryMode::Eps => { assert("DIRECT_DEBIT"@[0] != "EPS"@[0]); },
                    EntryMode::Mybank => { assert("DIRECT_DEBIT"@[0] != "MYBANK"@[0]); },
                    EntryMode::Satispay => { assert("DIRECT_DEBIT"@[0] != "SATISPAY"@[0]); },
                    EntryMode::Blik => { assert("DIRECT_DEBIT"@[0] != "BLIK"@[0]); },
                    EntryMode::P24 => { assert("DIRECT_DEBIT"@[0] != "P24"@[0]); },
                    EntryMode::Giropay => { assert("DIRECT_DEBIT"@[0] != "GIROPAY"@[0]); },
                    EntryMode::Pix => { assert("DIRECT_DEBIT"@[0] != "PIX"@[0]); },
                    EntryMode::QrCodePix => { assert("DIRECT_DEBIT"@[0] != "QR_CODE_PIX"@[0]); },
                    EntryMode::ApplePay => { assert("DIRECT_DEBIT"@[0] != "APPLE_PAY"@[0]); },
                    EntryMode::GooglePay => { assert("DIRECT_DEBIT"@[0] != "GOOGLE_PAY"@[0]); },
                    EntryMode::Paypal => { assert("DIRECT_DEBIT"@[0] != "PAYPAL"@[0]); },
                    EntryMode::Twint => { assert("DIRECT_DEBIT"@[0] != "TWINT"@[0]); },
                    EntryMode::None_ => { assert("DIRECT_DEBIT"@[0] != "NONE"@[0]); },
                    EntryMode::Chip => { assert("DIRECT_DEBIT"@[0] != "CHIP"@[0]); },
                    EntryMode::ManualEntry => { assert("DIRECT_DEBIT"@[0] != "MANUAL_ENTRY"@[0]); },
                    EntryMode::CustomerEntry => { assert("DIRECT_DEBIT"@[0] != "CUSTOMER_ENTRY"@[0]); },
                    EntryMode::MagstripeFallback => { assert("DIRECT_DEBIT"@[0] != "MAGSTRIPE_FALLBACK"@[0]); },
                    EntryMode::Magstripe => { assert("DIRECT_DEBIT"@[0] != "MAGSTRIPE"@[0]); },
                    EntryMode::DirectDebit => {},
                    EntryMode::Contactless => { assert("DIRECT_DEBIT"@[0] != "CONTACTLESS"@[0]); },
                    EntryMode::Moto => { assert("DIRECT_DEBIT"@[0] != "MOTO"@[0]); },
                    EntryMode::ContactlessMagstripe => { assert("DIRECT_DEBIT"@[0] != "CONTACTLESS_MAGSTRIPE"@[0]); },
                    EntryMode::NA => { assert("DIRECT_DEBIT"@[0] != "N/A"@[0]); },
                    EntryMode::Other(_) => {},
                }
            },
            EntryMode::Contactless => {
                match b {
                    EntryMode::Boleto => { assert("CONTACTLESS"@[0] != "BOLETO"@[0]); },
                    EntryMode::Sofort => { assert("CONTACTLESS"@[0] != "SOFORT"@[0]); },
                    EntryMode::Ideal => { assert("CONTACTLESS"@[0] != "IDEAL"@[0]); },
                    EntryMode::Bancontact => { assert("CONTACTLESS"@[0] != "BANCONTACT"@[0]); },
                    EntryMode::Eps => { assert("CONTACTLESS"@[0] != "EPS"@[0]); },
                    EntryMode::Mybank => { assert("CONTACTLESS"@[0] != "MYBANK"@[0]); },
                    EntryMode::Satispay => { assert("CONTACTLESS"@[0] != "SATISPAY"@[0]); },
                    EntryMode::Blik => { assert("CONTACTLESS"@[0] != "BLIK"@[0]); },
                    EntryMode::P24 => { assert("CONTACTLESS"@[0] != "P24"@[0]); },
                    EntryMode::Giropay => { assert("CONTACTLESS"@[0] != "GIROPAY"@[0]); },
                    EntryMode::Pix => { assert("CONTACTLESS"@[0] != "PIX"@[0]); },
                    EntryMode::QrCodePix => { assert("CONTACTLESS"@[0] != "QR_CODE_PIX"@[0]); },
                    EntryMode::ApplePay => { assert("CONTACTLESS"@[0] != "APPLE_PAY"@[0]); },
                    EntryMode::GooglePay => { assert("CONTACTLESS"@[0] != "GOOGLE_PAY"@[0]); },
                    EntryMode::Paypal => { assert("CONTACTLESS"@[0] != "PAYPAL"@[0]); },
                    EntryMode::Twint => { assert("CONTACTLESS"@[0] != "TWINT"@[0]); },
                    EntryMode::None_ => { assert("CONTACTLESS"@[0] != "NONE"@[0]); },
                    EntryMode::Chip => { assert("CONTACTLESS"@[1] != "CHIP"@[1]); },
                    EntryMode::ManualEntry => { assert("CONTACTLESS"@[0] != "MANUAL_ENTRY"@[0]); },
                    EntryMode::CustomerEntry => { assert("CONTACTLESS"@[1] != "CUSTOMER_ENTRY"@[1]); },
                    EntryMode::MagstripeFallback => { assert("CONTACTLESS"@[0] != "MAGSTRIPE_FALLBACK"@[0]); },
                    EntryMode::Magstripe => { assert("CONTACTLESS"@[0] != "MAGSTRIPE"@[0]); },
                    EntryMode::DirectDebit => { assert("CONTACTLESS"@[0] != "DIRECT_DEBIT"@[0]); },
                    EntryMode::Contactless => {},
                    EntryMode::Moto => { assert("CONTACTLESS"@[0] != "MOTO"@[0]); },
                    EntryMode::ContactlessMagstripe => { assert("CONTACTLESS"@.len() != "CONTACTLESS_MAGSTRIPE"@.len()); },
                    EntryMode::NA => { assert("CONTACTLESS"@[0] != "N/A"@[0]); },
                    EntryMode::Other(_) => {},
                }
            },
            EntryMode::Moto => {
                match b {
                    EntryMode::Boleto => { assert("MOTO"@[0] != "BOLETO"@[0]); },
                    EntryMode::Sofort => { assert("MOTO"@[0] != "SOFORT"@[0]); },
                    EntryMode::Ideal => { assert("MOTO"@[0] != "IDEAL"@[0]); },
                    EntryMode::Bancontact => { assert("MOTO"@[0] != "BANCONTACT"@[0]); },
                    EntryMode::Eps => { assert("MOTO"@[0] != "EPS"@[0]); },
                    EntryMode::Mybank => { assert("MOTO"@[1] != "MYBANK"@[1]); },
                    EntryMode::Satispay => { assert("MOTO"@[0] != "SATISPAY"@[0]); },
                    EntryMode::Blik => { assert("MOTO"@[0] != "BLIK"@[0]); },
                    EntryMode::P24 => { assert("MOTO"@[0] != "P24"@[0]); },
                    EntryMode::Giropay => { assert("MOTO"@[0] != "GIROPAY"@[0]); },
                    EntryMode::Pix => { assert("MOTO"@[0] != "PIX"@[0]); },
                    EntryMode::QrCodePix => { assert("MOTO"@[0] != "QR_CODE_PIX"@[0]); },
                    EntryMode::ApplePay => { assert("MOTO"@[0] != "APPLE_PAY"@[0]); },
                    EntryMode::GooglePay => { assert("MOTO"@[0] != "GOOGLE_PAY"@[0]); },
                    EntryMode::Paypal => { assert("MOTO"@[0] != "PAYPAL"@[0]); },
                    EntryMode::Twint => { assert("MOTO"@[0] != "TWINT"@[0]); },
                    EntryMode::None_ => { assert("MOTO"@[0] != "NONE"@[0]); },
                    EntryMode::Chip => { assert("MOTO"@[0] != "CHIP"@[0]); },
                    EntryMode::ManualEntry => { assert("MOTO"@[1] != "MANUAL_ENTRY"@[1]); },
                    EntryMode::CustomerEntry => { assert("MOTO"@[0] != "CUSTOMER_ENTRY"@[0]); },
                    EntryMode::MagstripeFallback => { assert("MOTO"@[1] != "MAGSTRIPE_FALLBACK"@[1]); },
                    EntryMode::Magstripe => { assert("MOTO"@[1] != "MAGSTRIPE"@[1]); },
                    EntryMode::DirectDebit => { assert("MOTO"@[0] != "DIRECT_DEBIT"@[0]); },
                    EntryMode::Contactless => { assert("MOTO"@[0] != "CONTACTLESS"@[0]); },
                    EntryMode::Moto => {},
                    EntryMode::ContactlessMagstripe => { assert("MOTO"@[0] != "CONTACTLESS_MAGSTRIPE"@[0]); },
                    EntryMode::NA => { assert("MOTO"@[0] != "N/A"@[0]); },
                    EntryMode::Other(_) => {},
                }
            },
            EntryMode::ContactlessMagstripe => {
                match b {
                    EntryMode::Boleto => { assert("CONTACTLESS_MAGSTRIPE"@[0] != "BOLETO"@[0]); },
                    EntryMode::Sofort => { assert("CONTACTLESS_MAGSTRIPE"@[0] != "SOFORT"@[0]); },
                    EntryMode::Ideal => { assert("CONTACTLESS_MAGSTRIPE"@[0] != "IDEAL"@[0]); },
                    EntryMode::Bancontact => { assert("CONTACTLESS_MAGSTRIPE"@[0] != "BANCONTACT"@[0]); },
                    EntryMode::Eps => { assert("CONTACTLESS_MAGSTRIPE"@[0] != "EPS"@[0]); },
                    EntryMode::Mybank => { assert("CONTACTLESS_MAGSTRIPE"@[0] != "MYBANK"@[0]); },
                    EntryMode::Satispay => { assert("CONTACTLESS_MAGSTRIPE"@[0] != "SATISPAY"@[0]); },
                    EntryMode::Blik => { assert("CONTACTLESS_MAGSTRIPE"@[0] != "BLIK"@[0]); },
                    EntryMode::P24 => { assert("CONTACTLESS_MAGSTRIPE"@[0] != "P24"@[0]); },
                    EntryMode::Giropay => { assert("CONTACTLESS_MAGSTRIPE"@[0] != "GIROPAY"@[0]); },
                    EntryMode::Pix => { assert("CONTACTLESS_MAGSTRIPE"@[0] != "PIX"@[0]); },
                    EntryMode::QrCodePix => { assert("CONTACTLESS_MAGSTRIPE"@[0] != "QR_CODE_PIX"@[0]); },
                    EntryMode::ApplePay => { assert("CONTACTLESS_MAGSTRIPE"@[0] != "APPLE_PAY"@[0]); },
                    EntryMode::GooglePay => { assert("CONTACTLESS_MAGSTRIPE"@[0] != "GOOGLE_PAY"@[0]); },
                    EntryMode::Paypal => { assert("CONTACTLESS_MAGSTRIPE"@[0] != "PAYPAL"@[0]); },
                    EntryMode::Twint => { assert("CONTACTLESS_MAGSTRIPE"@[0] != "TWINT"@[0]); },
                    EntryMode::None_ => { assert("CONTACTLESS_MAGSTRIPE"@[0] != "NONE"@[0]); },
                    EntryMode::Chip => { assert("CONTACTLESS_MAGSTRIPE"@[1] != "CHIP"@[1]); },
                    EntryMode::ManualEntry => { assert("CONTACTLESS_MAGSTRIPE"@[0] != "MANUAL_ENTRY"@[0]); },
                    EntryMode::CustomerEntry => { assert("CONTACTLESS_MAGSTRIPE"@[1] != "CUSTOMER_ENTRY"@[1]); },
                    EntryMode::MagstripeFallback => { assert("CONTACTLESS_MAGSTRIPE"@[0] != "MAGSTRIPE_FALLBACK"@[0]); },
                    EntryMode::Magstripe => { assert("CONTACTLESS_MAGSTRIPE"@[0] != "MAGSTRIPE"@[0]); },
                    EntryMode::DirectDebit => { assert("CONTACTLESS_MAGSTRIPE"@[0] != "DIRECT_DEBIT"@[0]); },
                    EntryMode::Contactless => { assert("CONTACTLESS_MAGSTRIPE"@.len() != "CONTACTLESS"@.len()); },
                    EntryMode::Moto => { assert("CONTACTLESS_MAGSTRIPE"@[0] != "MOTO"@[0]); },
                    EntryMode::ContactlessMagstripe => {},
                    EntryMode::NA => { assert("CONTACTLESS_MAGSTRIPE"@[0] != "N/A"@[0]); },
                    EntryMode::Other(_) => {},
                }
            },
            EntryMode::NA => {
                match b {
                    EntryMode::Boleto => { assert("N/A"@[0] != "BOLETO"@[0]); },
                    EntryMode::Sofort => { assert("N/A"@[0] != "SOFORT"@[0]); },
                    EntryMode::Ideal => { assert("N/A"@[0] != "IDEAL"@[0]); },
                    EntryMode::Bancontact => { assert("N/A"@[0] != "BANCONTACT"@[0]); },
                    EntryMode::Eps => { assert("N/A"@[0] != "EPS"@[0]); },
                    EntryMode::Mybank => { assert("N/A"@[0] != "MYBANK"@[0]); },
                    EntryMode::Satispay => { assert("N/A"@[0] != "SATISPAY"@[0]); },
                    EntryMode::Blik => { assert("N/A"@[0] != "BLIK"@[0]); },
                    EntryMode::P24 => { assert("N/A"@[0] != "P24"@[0]); },
                    EntryMode::Giropay => { assert("N/A"@[0] != "GIROPAY"@[0]); },
                    EntryMode::Pix => { assert("N/A"@[0] != "PIX"@[0]); },
                    EntryMode::QrCodePix => { assert("N/A"@[0] != "QR_CODE_PIX"@[0]); },
                    EntryMode::ApplePay => { assert("N/A"@[0] != "APPLE_PAY"@[0]); },
                    EntryMode::GooglePay => { assert("N/A"@[0] != "GOOGLE_PAY"@[0]); },
                    EntryMode::Paypal => { assert("N/A"@[0] != "PAYPAL"@[0]); },
                    EntryMode::Twint => { assert("N/A"@[0] != "TWINT"@[0]); },
                    EntryMode::None_ => { assert("N/A"@[1] != "NONE"@[1]); },
                    EntryMode::Chip => { assert("N/A"@[0] != "CHIP"@[0]); },
                    EntryMode::ManualEntry => { assert("N/A"@[0] != "MANUAL_ENTRY"@[0]); },
                    EntryMode::CustomerEntry => { assert("N/A"@[0] != "CUSTOMER_ENTRY"@[0]); },
                    EntryMode::MagstripeFallback => { assert("N/A"@[0] != "MAGSTRIPE_FALLBACK"@[0]); },
                    EntryMode::Magstripe => { assert("N/A"@[0] != "MAGSTRIPE"@[0]); },
                    EntryMode::DirectDebit => { assert("N/A"@[0] != "DIRECT_DEBIT"@[0]); },
                    EntryMode::Contactless => { assert("N/A"@[0] != "CONTACTLESS"@[0]); },
                    EntryMode::Moto => { assert("N/A"@[0] != "MOTO"@[0]); },
                    EntryMode::ContactlessMagstripe => { assert("N/A"@[0] != "CONTACTLESS_MAGSTRIPE"@[0]); },
                    EntryMode::NA => {},
                    EntryMode::Other(_) => {},
                }
            },
            EntryMode::Other(_) => {},
        }
    }
}

/// Error message structure.
#[derive(Debug, Clone, Default)]
pub struct Error {
    /// Short description of the error.
    ///
    /// Example: `Resource not found`
    pub message: Option<String>,
    /// Platform code for the error.
    ///
    /// Example: `NOT_FOUND`
    pub error_code: Option<String>,
}

impl Error {
    /// The text that the error shows when it carries a message: the message
    /// itself. `None` when it carries none; it then shows its debug form.
    pub fn display_message(&self) -> (r: Option<&str>)
        ensures
            match self.message {
                Some(m) => r matches Some(s) && s@ == m@,
                None => r is None,
            },
    {
        match &self.message {
            Some(m) => Some(m.as_str()),
            None => None,
        }
    }
}

/// Error payload with the invalid parameter reference.
#[derive(Debug, Clone, Default)]
pub struct ErrorExtended {
    /// Short description of the error.
    ///
    /// Example: `Resource not found`
    pub message: Option<String>,
    /// Platform code for the error.
    ///
    /// Example: `NOT_FOUND`
    pub error_code: Option<String>,
    /// Parameter name (with relative location) to which the error applies. Parameters from embedded resources are displayed using dot notation. For example, `card.name` refers to the `name` parameter embedded in the `card` object.
    pub param: Option<String>,
}

impl ErrorExtended {
    /// The text that the error shows when it carries a message: the message
    /// itself. `None` when it carries none; it then shows its debug form.
    pub fn display_message(&self) -> (r: Option<&str>)
        ensures
            match self.message {
                Some(m) => r matches Some(s) && s@ == m@,
                None => r is None,
            },
    {
        match &self.message {
            Some(m) => Some(m.as_str()),
            None => None,
        }
    }
}

/// A problem details document (RFC 9457) describing an error. Additional
/// properties specific to the problem type may be present.
#[derive(Debug, Clone)]
pub struct Problem {
    /// A URI reference that identifies the problem type.
    ///
    /// Example: `https://developer.sumup.com/problem/not-found`
    pub type_: String,
    /// A short, human-readable summary of the problem type.
    ///
    /// Example: `Requested resource couldn't be found.`
    pub title: Option<String>,
    /// The HTTP status code generated by the origin server for this occurrence of the problem.
    ///
    /// Example: `404`
    pub status: Option<i64>,
    /// A human-readable explanation specific to this occurrence of the problem.
    ///
    /// Example: `The requested resource doesn't exist or does not belong to you.`
    pub detail: Option<String>,
    /// A URI reference that identifies the specific occurrence of the problem.
    pub instance: Option<String>,
    /// The additional properties: each name, once, with the JSON text of its
    /// value.
    pub additional_properties: std::collections::HashMap<String, String>,
}

/// The text that a problem shows, from its title and detail: `title: detail`
/// when it has both, the one it has when it has one, and `None` when it has
/// neither (it then shows its debug form).
pub open spec fn problem_text(title: Option<Seq<char>>, detail: Option<Seq<char>>) -> Option<Seq<char>> {
    match (title, detail) {
        (Some(t), Some(d)) => Some(t + ": "@ + d),
        (Some(t), None) => Some(t),
        (None, Some(d)) => Some(d),
        (None, None) => None,
    }
}

/// The text of an optional string.
pub open spec fn opt_string_view(s: Option<String>) -> Option<Seq<char>> {
    match s {
        Some(v) => Some(v@),
        None => None,
    }
}

impl Problem {
    /// The text that the problem shows, when it has a title or a detail.
    pub fn display_message(&self) -> (r: Option<String>)
        ensures
            match r {
                Some(s) => problem_text(opt_string_view(self.title), opt_string_view(self.detail)) == Some(s@),
                None => problem_text(opt_string_view(self.title), opt_string_view(self.detail)) is None,
            },
    {
        match (&self.title, &self.detail) {
            (Some(title), Some(detail)) => {
                let mut s = title.clone();
                s.append(": ");
                s.append(detail.as_str());
                Some(s)
            },
            (Some(title), None) => Some(title.clone()),
            (None, Some(detail)) => Some(detail.clone()),
            (None, None) => None,
        }
    }
}

/// Error message for forbidden requests.
#[derive(Debug, Clone, Default)]
pub struct ErrorForbidden {
    /// Short description of the error.
    ///
    /// Example: `request_not_allowed`
    pub error_message: Option<String>,
    /// Platform code for the error.
    ///
    /// Example: `FORBIDDEN`
    pub error_code: Option<String>,
    /// HTTP status code for the error.
    ///
    /// Example: `403`
    pub status_code: Option<String>,
}

impl ErrorForbidden {
    /// The text that the error shows when it carries a message: the message
    /// itself. `None` when it carries none; it then shows its debug form.
    pub fn display_message(&self) -> (r: Option<&str>)
        ensures
            match self.error_message {
                Some(m) => r matches Some(s) && s@ == m@,
                None => r is None,
            },
    {
        match &self.error_message {
            Some(m) => Some(m.as_str()),
            None => None,
        }
    }
}

/// Status of the transaction event.
///
/// Not every value is used for every event type.
///
/// - `PENDING`: The event has been created but is not final yet. Used for events that are still being processed and whose final outcome is not known yet.
/// - `SCHEDULED`: The event is planned for a future payout cycle but has not been executed yet. This applies to payout events before money is actually sent out.
/// - `RECONCILED`: The underlying payment has been matched with settlement data and is ready to continue through payout processing, but the funds have not been paid out yet. This applies to payout events.
/// - `PAID_OUT`: The payout event has been completed and the funds were included in a merchant payout.
/// - `REFUNDED`: A refund event has been accepted and recorded in the refund flow. This is the status returned for refund events once the transaction amount is being or has been returned to the payer.
/// - `SUCCESSFUL`: The event completed successfully. Use this as the generic terminal success status for event types that do not expose a more specific business outcome such as `PAID_OUT` or `REFUNDED`.
/// - `FAILED`: The event could not be completed. Typical examples are a payout that could not be executed or an event that was rejected during processing.
#[derive(Debug, Clone)]
pub enum EventStatus {
    Failed,
    PaidOut,
    Pending,
    Reconciled,
    Refunded,
    Scheduled,
    Successful,
    Other(String),
}

/// Type of the transaction event.
#[derive(Debug, Clone)]
pub enum EventType {
    Payout,
    ChargeBack,
    Refund,
    PayoutDeduction,
    Other(String),
}

/// Pending invitation for membership.
#[derive(Debug, Clone)]
pub struct Invite {
    /// Email address of the invited user.
    ///
    /// Constraints:
    /// - format: `email`
    ///
    /// Example: `boaty.mcboatface@sumup.com`
    pub email: String,
    pub expires_at: DateTime,
}

/// Details of the mandate linked to the saved payment instrument.
#[derive(Debug, Clone, Default)]
pub struct MandateResponse {
    /// Type of mandate stored for the checkout or payment instrument.
    pub type_: Option<String>,
    /// Current lifecycle status of the mandate.
    ///
    /// Example: `active`
    pub status: Option<MandateResponseStatus>,
    /// Merchant account for which the mandate is valid.
    ///
    /// Example: `MH4H92C7`
    pub merchant_code: Option<String>,
}

/// The status of the membership.
#[derive(Debug, Clone)]
pub enum MembershipStatus {
    Accepted,
    Pending,
    Expired,
    Disabled,
    Unknown,
    Other(String),
}

impl WireName for MembershipStatus {
    open spec fn wire_name(&self) -> Seq<char> {
        match self {
            MembershipStatus::Accepted => "accepted"@,
            MembershipStatus::Pending => "pending"@,
            MembershipStatus::Expired => "expired"@,
            MembershipStatus::Disabled => "disabled"@,
            MembershipStatus::Unknown => "unknown"@,
            MembershipStatus::Other(s) => s@,
        }
    }

    fn into_wire(self) -> (r: String) {
        match self {
            MembershipStatus::Accepted => String::from_str("accepted"),
            MembershipStatus::Pending => String::from_str("pending"),
            MembershipStatus::Expired => String::from_str("expired"),
            MembershipStatus::Disabled => String::from_str("disabled"),
            MembershipStatus::Unknown => String::from_str("unknown"),
            MembershipStatus::Other(s) => s,
        }
    }
}

/// The wire names of the named variants of `MembershipStatus` are their serde names,
/// and no two named variants share a wire name.
pub proof fn lemma_membership_status_wire_names()
    ensures
        MembershipStatus::Accepted.wire_name() == "accepted"@,
        MembershipStatus::Pending.wire_name() == "pending"@,
        MembershipStatus::Expired.wire_name() == "expired"@,
        MembershipStatus::Disabled.wire_name() == "disabled"@,
        MembershipStatus::Unknown.wire_name() == "unknown"@,
        forall|a: MembershipStatus, b: MembershipStatus|
            !(a is Other) && !(b is Other) && #[trigger] a.wire_name() == #[trigger] b.wire_name() ==> a == b,
{
    assert forall|a: MembershipStatus, b: MembershipStatus|
        !(a is Other) && !(b is Other) && #[trigger] a.wire_name() == #[trigger] b.wire_name() implies a == b by {
        reveal_strlit("accepted");
        reveal_strlit("disabled");
        reveal_strlit("expired");
        reveal_strlit("pending");
        reveal_strlit("unknown");
        match a {
            MembershipStatus::Accepted => {
                match b {
                    MembershipStatus::Accepted => {},
                    MembershipStatus::Pending => { assert("accepted"@[0] != "pending"@[0]); },
                    MembershipStatus::Expired => { assert("accepted"@[0] != "expired"@[0]); },
                    MembershipStatus::Disabled => { assert("accepted"@[0] != "disabled"@[0]); },
                    MembershipStatus::Unknown => { assert("accepted"@[0] != "unknown"@[0]); },
                    MembershipStatus::Other(_) => {},
                }
            },
            MembershipStatus::Pending => {
                match b {
                    MembershipStatus::Accepted => { assert("pending"@[0] != "accepted"@[0]); },
                    MembershipStatus::Pending => {},
                    MembershipStatus::Expired => { assert("pending"@[0] != "expired"@[0]); },
                    MembershipStatus::Disabled => { assert("pending"@[0] != "disabled"@[0]); },
                    MembershipStatus::Unknown => { assert("pending"@[0] != "unknown"@[0]); },
                    MembershipStatus::Other(_) => {},
                }
            },
            MembershipStatus::Expired => {
                match b {
                    MembershipStatus::Accepted => { assert("expired"@[0] != "accepted"@[0]); },
                    MembershipStatus::Pending => { assert("expired"@[0] != "pending"@[0]); },
                    MembershipStatus::Expired => {},
                    MembershipStatus::Disabled => { assert("expired"@[0] != "disabled"@[0]); },
                    MembershipStatus::Unknown => { assert("expired"@[0] != "unknown"@[0]); },
                    MembershipStatus::Other(_) => {},
                }
            },
            MembershipStatus::Disabled => {
                match b {
                    MembershipStatus::Accepted => { assert("disabled"@[0] != "accepted"@[0]); },
                    MembershipStatus::Pending => { assert("disabled"@[0] != "pending"@[0]); },
                    MembershipStatus::Expired => { assert("disabled"@[0] != "expired"@[0]); },
                    MembershipStatus::Disabled => {},
                    MembershipStatus::Unknown => { assert("disabled"@[0] != "unknown"@[0]); },
                    MembershipStatus::Other(_) => {},
                }
            },
            MembershipStatus::Unknown => {
                match b {
                    MembershipStatus::Accepted => { assert("unknown"@[0] != "accepted"@[0]); },
                    MembershipStatus::Pending => { assert("unknown"@[0] != "pending"@[0]); },
                    MembershipStatus::Expired => { assert("unknown"@[0] != "expired"@[0]); },
                    MembershipStatus::Disabled => { assert("unknown"@[0] != "disabled"@[0]); },
                    MembershipStatus::Unknown => {},
                    MembershipStatus::Other(_) => {},
                }
            },
            MembershipStatus::Other(_) => {},
        }
    }
}

/// Payment type used for the transaction.
#[derive(Debug, Clone)]
pub enum PaymentType {
    Cash,
    Pos,
    Ecom,
    Recurring,
    Bitcoin,
    Balance,
    Moto,
    Boleto,
    DirectDebit,
    Apm,
    Unknown,
    Other(String),
}

impl WireName for PaymentType {
    open spec fn wire_name(&self) -> Seq<char> {
        match self {
            PaymentType::Cash => "CASH"@,
            PaymentType::Pos => "POS"@,
            PaymentType::Ecom => "ECOM"@,
            PaymentType::Recurring => "RECURRING"@,
            PaymentType::Bitcoin => "BITCOIN"@,
            PaymentType::Balance => "BALANCE"@,
            PaymentType::Moto => "MOTO"@,
            PaymentType::Boleto => "BOLETO"@,
            PaymentType::DirectDebit => "DIRECT_DEBIT"@,
            PaymentType::Apm => "APM"@,
            PaymentType::Unknown => "UNKNOWN"@,
            PaymentType::Other(s) => s@,
        }
    }

    fn into_wire(self) -> (r: String) {
        match self {
            PaymentType::Cash => String::from_str("CASH"),
            PaymentType::Pos => String::from_str("POS"),
            PaymentType::Ecom => String::from_str("ECOM"),
            PaymentType::Recurring => String::from_str("RECURRING"),
            PaymentType::Bitcoin => String::from_str("BITCOIN"),
            PaymentType::Balance => String::from_str("BALANCE"),
            PaymentType::Moto => String::from_str("MOTO"),
            PaymentType::Boleto => String::from_str("BOLETO"),
            PaymentType::DirectDebit => String::from_str("DIRECT_DEBIT"),
            PaymentType::Apm => String::from_str("APM"),
            PaymentType::Unknown => String::from_str("UNKNOWN"),
            PaymentType::Other(s) => s,
        }
    }
}

/// The wire names of the named variants of `PaymentType` are their serde names,
/// and no two named variants share a wire name.
pub proof fn lemma_payment_type_wire_names()
    ensures
        PaymentType::Cash.wire_name() == "CASH"@,
        PaymentType::Pos.wire_name() == "POS"@,
        PaymentType::Ecom.wire_name() == "ECOM"@,
        PaymentType::Recurring.wire_name() == "RECURRING"@,
        PaymentType::Bitcoin.wire_name() == "BITCOIN"@,
        PaymentType::Balance.wire_name() == "BALANCE"@,
        PaymentType::Moto.wire_name() == "MOTO"@,
        PaymentType::Boleto.wire_name() == "BOLETO"@,
        PaymentType::DirectDebit.wire_name() == "DIRECT_DEBIT"@,
        PaymentType::Apm.wire_name() == "APM"@,
        PaymentType::Unknown.wire_name() == "UNKNOWN"@,
        forall|a: PaymentType, b: PaymentType|
            !(a is Other) && !(b is Other) && #[trigger] a.wire_name() == #[trigger] b.wire_name() ==> a == b,
{
    assert forall|a: PaymentType, b: PaymentType|
        !(a is Other) && !(b is Other) && #[trigger] a.wire_name() == #[trigger] b.wire_name() implies a == b by {
        reveal_strlit("APM");
        reveal_strlit("BALANCE");
        reveal_strlit("BITCOIN");
        reveal_strlit("BOLETO");
        reveal_strlit("CASH");
        reveal_strlit("DIRECT_DEBIT");
        reveal_strlit("ECOM");
        reveal_strlit("MOTO");
        reveal_strlit("POS");
        reveal_strlit("RECURRING");
        reveal_strlit("UNKNOWN");
        match a {
            PaymentType::Cash => {
                match b {
                    PaymentType::Cash => {},
                    PaymentType::Pos => { assert("CASH"@[0] != "POS"@[0]); },
                    PaymentType::Ecom => { assert("CASH"@[0] != "ECOM"@[0]); },
                    PaymentType::Recurring => { assert("CASH"@[0] != "RECURRING"@[0]); },
                    PaymentType::Bitcoin => { assert("CASH"@[0] != "BITCOIN"@[0]); },
                    PaymentType::Balance => { assert("CASH"@[0] != "BALANCE"@[0]); },
                    PaymentType::Moto => { assert("CASH"@[0] != "MOTO"@[0]); },
                    PaymentType::Boleto => { assert("CASH"@[0] != "BOLETO"@[0]); },
                    PaymentType::DirectDebit => { assert("CASH"@[0] != "DIRECT_DEBIT"@[0]); },
                    PaymentType::Apm => { assert("CASH"@[0] != "APM"@[0]); },
                    PaymentType::Unknown => { assert("CASH"@[0] != "UNKNOWN"@[0]); },
                    PaymentType::Other(_) => {},
                }
            },
            PaymentType::Pos => {
                match b {
                    PaymentType::Cash => { assert("POS"@[0] != "CASH"@[0]); },
                    PaymentType::Pos => {},
                    PaymentType::Ecom => { assert("POS"@[0] != "ECOM"@[0]); },
                    PaymentType::Recurring => { assert("POS"@[0] != "RECURRING"@[0]); },
                    PaymentType::Bitcoin => { assert("POS"@[0] != "BITCOIN"@[0]); },
                    PaymentType::Balance => { assert("POS"@[0] != "BALANCE"@[0]); },
                    PaymentType::Moto => { assert("POS"@[0] != "MOTO"@[0]); },
                    PaymentType::Boleto => { assert("POS"@[0] != "BOLETO"@[0]); },
                    PaymentType::DirectDebit => { assert("POS"@[0] != "DIRECT_DEBIT"@[0]); },
                    PaymentType::Apm => { assert("POS"@[0] != "APM"@[0]); },
                    PaymentType::Unknown => { assert("POS"@[0] != "UNKNOWN"@[0]); },
                    PaymentType::Other(_) => {},
                }
            },
            PaymentType::Ecom => {
                match b {
                    PaymentType::Cash => { assert("ECOM"@[0] != "CASH"@[0]); },
                    PaymentType::Pos => { assert("ECOM"@[0] != "POS"@[0]); },
                    PaymentType::Ecom => {},
                    PaymentType::Recurring => { assert("ECOM"@[0] != "RECURRING"@[0]); },
                    PaymentType::Bitcoin => { assert("ECOM"@[0] != "BITCOIN"@[0]); },
                    PaymentType::Balance => { assert("ECOM"@[0] != "BALANCE"@[0]); },
                    PaymentType::Moto => { assert("ECOM"@[0] != "MOTO"@[0]); },
                    PaymentType::Boleto => { assert("ECOM"@[0] != "BOLETO"@[0]); },
                    PaymentType::DirectDebit => { assert("ECOM"@[0] != "DIRECT_DEBIT"@[0]); },
                    PaymentType::Apm => { assert("ECOM"@[0] != "APM"@[0]); },
                    PaymentType::Unknown => { assert("ECOM"@[0] != "UNKNOWN"@[0]); },
                    PaymentType::Other(_) => {},
                }
            },
            PaymentType::Recurring => {
                match b {
                    PaymentType::Cash => { assert("RECURRING"@[0] != "CASH"@[0]); },
                    PaymentType::Pos => { assert("RECURRING"@[0] != "POS"@[0]); },
                    PaymentType::Ecom => { assert("RECURRING"@[0] != "ECOM"@[0]); },
                    PaymentType::Recurring => {},
                    PaymentType::Bitcoin => { assert("RECURRING"@[0] != "BITCOIN"@[0]); },
                    PaymentType::Balance => { assert("RECURRING"@[0] != "BALANCE"@[0]); },
                    PaymentType::Moto => { assert("RECURRING"@[0] != "MOTO"@[0]); },
                    PaymentType::Boleto => { assert("RECURRING"@[0] != "BOLETO"@[0]); },
                    PaymentType::DirectDebit => { assert("RECURRING"@[0] != "DIRECT_DEBIT"@[0]); },
                    PaymentType::Apm => { assert("RECURRING"@[0] != "APM"@[0]); },
                    PaymentType::Unknown => { assert("RECURRING"@[0] != "UNKNOWN"@[0]); },
                    PaymentType::Other(_) => {},
                }
            },
            PaymentType::Bitcoin => {
                match b {
                    PaymentType::Cash => { assert("BITCOIN"@[0] != "CASH"@[0]); },
                    PaymentType::Pos => { assert("BITCOIN"@[0] != "POS"@[0]); },
                    PaymentType::Ecom => { assert("BITCOIN"@[0] != "ECOM"@[0]); },
                    PaymentType::Recurring => { assert("BITCOIN"@[0] != "RECURRING"@[0]); },
                    PaymentType::Bitcoin => {},
                    PaymentType::Balance => { assert("BITCOIN"@[1] != "BALANCE"@[1]); },
                    PaymentType::Moto => { assert("BITCOIN"@[0] != "MOTO"@[0]); },
                    PaymentType::Boleto => { assert("BITCOIN"@[1] != "BOLETO"@[1]); },
                    PaymentType::DirectDebit => { assert("BITCOIN"@[0] != "DIRECT_DEBIT"@[0]); },
                    PaymentType::Apm => { assert("BITCOIN"@[0] != "APM"@[0]); },
                    PaymentType::Unknown => { assert("BITCOIN"@[0] != "UNKNOWN"@[0]); },
                    PaymentType::Other(_) => {},
                }
            },
            PaymentType::Balance => {
                match b {
                    PaymentType::Cash => { assert("BALANCE"@[0] != "CASH"@[0]); },
                    PaymentType::Pos => { assert("BALANCE"@[0] != "POS"@[0]); },
                    PaymentType::Ecom => { assert("BALANCE"@[0] != "ECOM"@[0]); },
                    PaymentType::Recurring => { assert("BALANCE"@[0] != "RECURRING"@[0]); },
                    PaymentType::Bitcoin => { assert("BALANCE"@[1] != "BITCOIN"@[1]); },
                    PaymentType::Balance => {},
                    PaymentType::Moto => { assert("BALANCE"@[0] != "MOTO"@[0]); },
                    PaymentType::Boleto => { assert("BALANCE"@[1] != "BOLETO"@[1]); },
                    PaymentType::DirectDebit => { assert("BALANCE"@[0] != "DIRECT_DEBIT"@[0]); },
                    PaymentType::Apm => { assert("BALANCE"@[0] != "APM"@[0]); },
                    PaymentType::Unknown => { assert("BALANCE"@[0] != "UNKNOWN"@[0]); },
                    PaymentType::Other(_) => {},
                }
            },
            PaymentType::Moto => {
                match b {
                    PaymentType::Cash => { assert("MOTO"@[0] != "CASH"@[0]); },
                    PaymentType::Pos => { assert("MOTO"@[0] != "POS"@[0]); },
                    PaymentType::Ecom => { assert("MOTO"@[0] != "ECOM"@[0]); },
                    PaymentType::Recurring => { assert("MOTO"@[0] != "RECURRING"@[0]); },
                    PaymentType::Bitcoin => { assert("MOTO"@[0] != "BITCOIN"@[0]); },
                    PaymentType::Balance => { assert("MOTO"@[0] != "BALANCE"@[0]); },
                    PaymentType::Moto => {},
                    PaymentType::Boleto => { assert("MOTO"@[0] != "BOLETO"@[0]); },
                    PaymentType::DirectDebit => { assert("MOTO"@[0] != "DIRECT_DEBIT"@[0]); },
                    PaymentType::Apm => { assert("MOTO"@[0] != "APM"@[0]); },
                    PaymentType::Unknown => { assert("MOTO"@[0] != "UNKNOWN"@[0]); },
                    PaymentType::Other(_) => {},
                }
            },
            PaymentType::Boleto => {
                match b {
                    PaymentType::Cash => { assert("BOLETO"@[0] != "CASH"@[0]); },
                    PaymentType::Pos => { assert("BOLETO"@[0] != "POS"@[0]); },
                    PaymentType::Ecom => { assert("BOLETO"@[0] != "ECOM"@[0]); },
                    PaymentType::Recurring => { assert("BOLETO"@[0] != "RECURRING"@[0]); },
                    PaymentType::Bitcoin => { assert("BOLETO"@[1] != "BITCOIN"@[1]); },
                    PaymentType::Balance => { assert("BOLETO"@[1] != "BALANCE"@[1]); },
                    PaymentType::Moto => { assert("BOLETO"@[0] != "MOTO"@[0]); },
                    PaymentType::Boleto => {},
                    PaymentType::DirectDebit => { assert("BOLETO"@[0] != "DIRECT_DEBIT"@[0]); },
                    PaymentType::Apm => { assert("BOLETO"@[0] != "APM"@[0]); },
                    PaymentType::Unknown => { assert("BOLETO"@[0] != "UNKNOWN"@[0]); },
                    PaymentType::Other(_) => {},
                }
            },
            PaymentType::DirectDebit => {
                match b {
                    PaymentType::Cash => { assert("DIRECT_DEBIT"@[0] != "CASH"@[0]); },
                    PaymentType::Pos => { assert("DIRECT_DEBIT"@[0] != "POS"@[0]); },
                    PaymentType::Ecom => { assert("DIRECT_DEBIT"@[0] != "ECOM"@[0]); },
                    PaymentType::Recurring => { assert("DIRECT_DEBIT"@[0] != "RECURRING"@[0]); },
                    PaymentType::Bitcoin => { assert("DIRECT_DEBIT"@[0] != "BITCOIN"@[0]); },
                    PaymentType::Balance => { assert("DIRECT_DEBIT"@[0] != "BALANCE"@[0]); },
                    PaymentType::Moto => { assert("DIRECT_DEBIT"@[0] != "MOTO"@[0]); },
                    PaymentType::Boleto => { assert("DIRECT_DEBIT"@[0] != "BOLETO"@[0]); },
                    PaymentType::DirectDebit => {},
                    PaymentType::Apm => { assert("DIRECT_DEBIT"@[0] != "APM"@[0]); },
                    PaymentType::Unknown => { assert("DIRECT_DEBIT"@[0] != "UNKNOWN"@[0]); },
                    PaymentType::Other(_) => {},
                }
            },
            PaymentType::Apm => {
                match b {
                    PaymentType::Cash => { assert("APM"@[0] != "CASH"@[0]); },
                    PaymentType::Pos => { assert("APM"@[0] != "POS"@[0]); },
                    PaymentType::Ecom => { assert("APM"@[0] != "ECOM"@[0]); },
                    PaymentType::Recurring => { assert("APM"@[0] != "RECURRING"@[0]); },
                    PaymentType::Bitcoin => { assert("APM"@[0] != "BITCOIN"@[0]); },
                    PaymentType::Balance => { assert("APM"@[0] != "BALANCE"@[0]); },
                    PaymentType::Moto => { assert("APM"@[0] != "MOTO"@[0]); },
                    PaymentType::Boleto => { assert("APM"@[0] != "BOLETO"@[0]); },
                    PaymentType::DirectDebit => { assert("APM"@[0] != "DIRECT_DEBIT"@[0]); },
                    PaymentType::Apm => {},
                    PaymentType::Unknown => { assert("APM"@[0] != "UNKNOWN"@[0]); },
                    PaymentType::Other(_) => {},
                }
            },
            PaymentType::Unknown => {
                match b {
                    PaymentType::Cash => { assert("UNKNOWN"@[0] != "CASH"@[0]); },
                    PaymentType::Pos => { assert("UNKNOWN"@[0] != "POS"@[0]); },
                    PaymentType::Ecom => { assert("UNKNOWN"@[0] != "ECOM"@[0]); },
                    PaymentType::Recurring => { assert("UNKNOWN"@[0] != "RECURRING"@[0]); },
                    PaymentType::Bitcoin => { assert("UNKNOWN"@[0] != "BITCOIN"@[0]); },
                    PaymentType::Balance => { assert("UNKNOWN"@[0] != "BALANCE"@[0]); },
                    PaymentType::Moto => { assert("UNKNOWN"@[0] != "MOTO"@[0]); },
                    PaymentType::Boleto => { assert("UNKNOWN"@[0] != "BOLETO"@[0]); },
                    PaymentType::DirectDebit => { assert("UNKNOWN"@[0] != "DIRECT_DEBIT"@[0]); },
                    PaymentType::Apm => { assert("UNKNOWN"@[0] != "APM"@[0]); },
                    PaymentType::Unknown => {},
                    PaymentType::Other(_) => {},
                }
            },
            PaymentType::Other(_) => {},
        }
    }
}

/// Personal details for the customer.
#[derive(Debug, Clone, Default)]
pub struct PersonalDetails {
    /// First name of the customer.
    ///
    /// Example: `John`
    pub first_name: Option<String>,
    /// Last name of the customer.
    ///
    /// Example: `Doe`
    pub last_name: Option<String>,
    /// Email address of the customer.
    ///
    /// Example: `user@example.com`
    pub email: Option<String>,
    /// Phone number of the customer.
    ///
    /// Example: `+491635559723`
    pub phone: Option<String>,
    /// Date of birth of the customer.
    ///
    /// Example: `1993-12-31`
    pub birth_date: Option<Date>,
    /// An identification number user for tax purposes (e.g. CPF)
    ///
    /// Constraints:
    /// - max length: 255
    ///
    /// Example: `423.378.593-47`
    pub tax_id: Option<String>,
    pub address: Option<AddressLegacy>,
}

/// Current lifecycle status of the mandate.
///
/// Example: `active`
#[derive(Debug, Clone)]
pub enum MandateResponseStatus {
    Active,
    Inactive,
    Other(String),
}

/// Current status of the transaction.
#[derive(Debug, Clone)]
pub enum TransactionBaseStatus {
    Successful,
    Cancelled,
    Failed,
    Pending,
    Other(String),
}

} // verus!
