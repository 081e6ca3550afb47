//! Transactions represent completed or attempted payment operations processed for a merchant account. A transaction contains the core payment result, such as the amount, currency, payment method, creation time, and current high-level status.
//!
//! In addition to the main payment outcome, a transaction can contain related events that describe what happened after the original payment attempt. These events provide visibility into the financial lifecycle of the transaction, for example:
//! - `PAYOUT`: the payment being prepared for payout or included in a payout to the merchant
//! - `REFUND`: money returned to the payer
//! - `CHARGE_BACK`: money reversed after the original payment
//! - `PAYOUT_DEDUCTION`: an amount deducted from a payout to cover a refund or chargeback
//!
//! From an integrator's perspective, transactions are the authoritative record of payment outcomes. Use this tag to:
//! - list transactions for reporting, reconciliation, and customer support workflows
//! - retrieve a single transaction when you need the latest payment details
//! - inspect `simple_status` for the current merchant-facing outcome of the payment
//! - inspect `events` or `transaction_events` when you need refund, payout, or chargeback history
//!
//! Typical workflow:
//! - create and process payments through the Checkouts endpoints
//! - use the Transactions endpoints to read the resulting payment records
//! - use the returned statuses and events to update your own order, accounting, or support systems
use super::common::{CardType, EntryMode, Error, PaymentType, Problem};
use crate::client::Client;
use crate::datetime::{DateTime};
use crate::http::{ApiRequest, BodyRead, HttpMethod, Outcome, QueryParam, RequestBody, StatusOutcome, WireName, integer_entry, into_wire_list_opt, into_wire_opt, opt_text, opt_texts, opt_wire_name, opt_wire_names, push_integer, push_text, push_texts, query_view, text_entry, texts_entry};
use vstd::prelude::*;

verus! {

/// Details of the payment card.
#[derive(Debug, Clone, Default)]
pub struct CardResponse {
    /// Last 4 digits of the payment card number.
    ///
    /// Constraints:
    /// - read-only
    /// - min length: 4
    /// - max length: 4
    ///
    /// Example: `3456`
    pub last_4_digits: Option<String>,
    pub type_: Option<CardType>,
}

/// Details of the device used to create the transaction.
#[derive(Debug, Clone, Default)]
pub struct Device {
    /// Device name.
    ///
    /// Example: `m0xx`
    pub name: Option<String>,
    /// Device OS.
    ///
    /// Example: `Android`
    pub system_name: Option<String>,
    /// Device model.
    ///
    /// Example: `GT-I9300`
    pub model: Option<String>,
    /// Device OS version.
    ///
    /// Example: `4.3`
    pub system_version: Option<String>,
    /// Device UUID.
    ///
    /// Example: `3ae2a6b7-fb0d-3b50-adbf-cb7e2db30cd2`
    pub uuid: Option<String>,
}

/// Details of the ELV card account associated with the transaction.
#[derive(Debug, Clone, Default)]
pub struct ElvCardAccount {
    /// ELV card sort code.
    ///
    /// Example: `87096214`
    pub sort_code: Option<String>,
    /// ELV card account number last 4 digits.
    ///
    /// Example: `5674`
    pub last_4_digits: Option<String>,
    /// ELV card sequence number.
    ///
    /// Example: `1`
    pub sequence_no: Option<i64>,
    /// ELV IBAN.
    ///
    /// Example: `DE60870962140012345674`
    pub iban: Option<String>,
}

/// Hypermedia link used for transaction history pagination.
#[derive(Debug, Clone)]
pub struct TransactionsHistoryLink {
    /// Relation.
    ///
    /// Example: `next`
    pub rel: String,
    /// Location.
    ///
    /// Example: `limit=10&oldest_ref=090df9bf-93b7-40f1-8181-fbdb236568a1&order=ascending`
    pub href: String,
}

/// Current status of the transaction.
#[derive(Debug, Clone)]
pub enum TransactionFullStatus {
    Successful,
    Cancelled,
    Failed,
    Pending,
    Other(String),
}

/// Payout plan of the registered user at the time when the transaction was made.
#[derive(Debug, Clone)]
pub enum TransactionFullPayoutPlan {
    SinglePayment,
    TrueInstallment,
    AcceleratedInstallment,
    Other(String),
}

/// Simple name of the payment type.
#[derive(Debug, Clone)]
pub enum TransactionFullSimplePaymentType {
    Cash,
    CcSignature,
    Elv,
    ElvWithoutSignature,
    CcCustomerEntered,
    ManualEntry,
    Emv,
    Recurring,
    Balance,
    Moto,
    Boleto,
    Apm,
    Bitcoin,
    Card,
    Other(String),
}

/// Verification method used for the transaction.
#[derive(Debug, Clone)]
pub enum TransactionFullVerificationMethod {
    #[allow(non_camel_case_types)]
    None_,
    Signature,
    OfflinePin,
    OnlinePin,
    OfflinePinSignature,
    Na,
    Other(String),
}

/// Payout type for the transaction.
#[derive(Debug, Clone)]
pub enum TransactionFullPayoutType {
    BankAccount,
    PrepaidCard,
    Other(String),
}

/// Debit/Credit.
///
/// Example: `CREDIT`
#[derive(Debug, Clone)]
pub enum TransactionFullProcessAs {
    Credit,
    Debit,
    Other(String),
}

/// High-level status of the transaction from the merchant's perspective.
///
/// - `PENDING`: The payment has been initiated and is still being processed. A final outcome is not available yet.
/// - `SUCCESSFUL`: The payment was completed successfully.
/// - `PAID_OUT`: The payment was completed successfully and the funds have already been included in a payout to the merchant.
/// - `FAILED`: The payment did not complete successfully.
/// - `CANCELLED`: The payment was cancelled or reversed and is no longer payable or payable to the merchant.
/// - `CANCEL_FAILED`: An attempt to cancel or reverse the payment was not completed successfully.
/// - `REFUNDED`: The payment was refunded in full or in part.
/// - `REFUND_FAILED`: An attempt to refund the payment was not completed successfully.
/// - `CHARGEBACK`: The payment was subject to a chargeback.
/// - `NON_COLLECTION`: The amount could not be collected from the merchant after a chargeback or related adjustment.
#[derive(Debug, Clone)]
pub enum TransactionFullSimpleStatus {
    Successful,
    PaidOut,
    CancelFailed,
    Cancelled,
    Chargeback,
    Failed,
    RefundFailed,
    Refunded,
    NonCollection,
    Pending,
    Other(String),
}

/// Current status of the transaction.
#[derive(Debug, Clone)]
pub enum TransactionHistoryStatus {
    Successful,
    Cancelled,
    Failed,
    Pending,
    Other(String),
}

/// Payout plan of the registered user at the time when the transaction was made.
#[derive(Debug, Clone)]
pub enum TransactionHistoryPayoutPlan {
    SinglePayment,
    TrueInstallment,
    AcceleratedInstallment,
    Other(String),
}

/// Type of the transaction for the registered user specified in the `user` property.
#[derive(Debug, Clone)]
pub enum TransactionHistoryType {
    Payment,
    Refund,
    ChargeBack,
    Other(String),
}

/// Payout type.
///
/// Example: `BANK_ACCOUNT`
#[derive(Debug, Clone)]
pub enum TransactionHistoryPayoutType {
    BankAccount,
    PrepaidCard,
    Other(String),
}

#[derive(Debug, Clone)]
pub enum ListDeprecatedParamsOrder {
    Ascending,
    Descending,
    Other(String),
}

impl WireName for ListDeprecatedParamsOrder {
    open spec fn wire_name(&self) -> Seq<char> {
        match self {
            ListDeprecatedParamsOrder::Ascending => "ascending"@,
            ListDeprecatedParamsOrder::Descending => "descending"@,
            ListDeprecatedParamsOrder::Other(s) => s@,
        }
    }

    fn into_wire(self) -> (r: String) {
        match self {
            ListDeprecatedParamsOrder::Ascending => String::from_str("ascending"),
            ListDeprecatedParamsOrder::Descending => String::from_str("descending"),
            ListDeprecatedParamsOrder::Other(s) => s,
        }
    }
}

/// The wire names of the named variants of `ListDeprecatedParamsOrder` are their serde names,
/// and no two named variants share a wire name.
pub proof fn lemma_list_deprecated_params_order_wire_names()
    ensures
        ListDeprecatedParamsOrder::Ascending.wire_name() == "ascending"@,
        ListDeprecatedParamsOrder::Descending.wire_name() == "descending"@,
        forall|a: ListDeprecatedParamsOrder, b: ListDeprecatedParamsOrder|
            !(a is Other) && !(b is Other) && #[trigger] a.wire_name() == #[trigger] b.wire_name() ==> a == b,
{
    assert forall|a: ListDeprecatedParamsOrder, b: ListDeprecatedParamsOrder|
        !(a is Other) && !(b is Other) && #[trigger] a.wire_name() == #[trigger] b.wire_name() implies a == b by {
        reveal_strlit("ascending");
        reveal_strlit("descending");
        match a {
            ListDeprecatedParamsOrder::Ascending => {
                match b {
                    ListDeprecatedParamsOrder::Ascending => {},
                    ListDeprecatedParamsOrder::Descending => { assert("ascending"@[0] != "descending"@[0]); },
                    ListDeprecatedParamsOrder::Other(_) => {},
                }
            },
            ListDeprecatedParamsOrder::Descending => {
                match b {
                    ListDeprecatedParamsOrder::Ascending => { assert("descending"@[0] != "ascending"@[0]); },
                    ListDeprecatedParamsOrder::Descending => {},
                    ListDeprecatedParamsOrder::Other(_) => {},
                }
            },
            ListDeprecatedParamsOrder::Other(_) => {},
        }
    }
}

#[derive(Debug, Clone)]
pub enum ListDeprecatedParamsStatusesItem {
    Successful,
    Cancelled,
    Failed,
    Refunded,
    ChargeBack,
    Other(String),
}

impl WireName for ListDeprecatedParamsStatusesItem {
    open spec fn wire_name(&self) -> Seq<char> {
        match self {
            ListDeprecatedParamsStatusesItem::Successful => "SUCCESSFUL"@,
            ListDeprecatedParamsStatusesItem::Cancelled => "CANCELLED"@,
            ListDeprecatedParamsStatusesItem::Failed => "FAILED"@,
            ListDeprecatedParamsStatusesItem::Refunded => "REFUNDED"@,
            ListDeprecatedParamsStatusesItem::ChargeBack => "CHARGE_BACK"@,
            ListDeprecatedParamsStatusesItem::Other(s) => s@,
        }
    }

    fn into_wire(self) -> (r: String) {
        match self {
            ListDeprecatedParamsStatusesItem::Successful => String::from_str("SUCCESSFUL"),
            ListDeprecatedParamsStatusesItem::Cancelled => String::from_str("CANCELLED"),
            ListDeprecatedParamsStatusesItem::Failed => String::from_str("FAILED"),
            ListDeprecatedParamsStatusesItem::Refunded => String::from_str("REFUNDED"),
            ListDeprecatedParamsStatusesItem::ChargeBack => String::from_str("CHARGE_BACK"),
            ListDeprecatedParamsStatusesItem::Other(s) => s,
        }
    }
}

/// The wire names of the named variants of `ListDeprecatedParamsStatusesItem` are their serde names,
/// and no two named variants share a wire name.
pub proof fn lemma_list_deprecated_params_statuses_item_wire_names()
    ensures
        ListDeprecatedParamsStatusesItem::Successful.wire_name() == "SUCCESSFUL"@,
        ListDeprecatedParamsStatusesItem::Cancelled.wire_name() == "CANCELLED"@,
        ListDeprecatedParamsStatusesItem::Failed.wire_name() == "FAILED"@,
        ListDeprecatedParamsStatusesItem::Refunded.wire_name() == "REFUNDED"@,
        ListDeprecatedParamsStatusesItem::ChargeBack.wire_name() == "CHARGE_BACK"@,
        forall|a: ListDeprecatedParamsStatusesItem, b: ListDeprecatedParamsStatusesItem|
            !(a is Other) && !(b is Other) && #[trigger] a.wire_name() == #[trigger] b.wire_name() ==> a == b,
{
    assert forall|a: ListDeprecatedParamsStatusesItem, b: ListDeprecatedParamsStatusesItem|
        !(a is Other) && !(b is Other) && #[trigger] a.wire_name() == #[trigger] b.wire_name() implies a == b by {
        reveal_strlit("CANCELLED");
        reveal_strlit("CHARGE_BACK");
        reveal_strlit("FAILED");
        reveal_strlit("REFUNDED");
        reveal_strlit("SUCCESSFUL");
        match a {
            ListDeprecatedParamsStatusesItem::Successful => {
                match b {
                    ListDeprecatedParamsStatusesItem::Successful => {},
                    ListDeprecatedParamsStatusesItem::Cancelled => { assert("SUCCESSFUL"@[0] != "CANCELLED"@[0]); },
                    ListDeprecatedParamsStatusesItem::Failed => { assert("SUCCESSFUL"@[0] != "FAILED"@[0]); },
                    ListDeprecatedParamsStatusesItem::Refunded => { assert("SUCCESSFUL"@[0] != "REFUNDED"@[0]); },
                    ListDeprecatedParamsStatusesItem::ChargeBack => { assert("SUCCESSFUL"@[0] != "CHARGE_BACK"@[0]); },
                    ListDeprecatedParamsStatusesItem::Other(_) => {},
                }
            },
            ListDeprecatedParamsStatusesItem::Cancelled => {
                match b {
                    ListDeprecatedParamsStatusesItem::Successful => { assert("CANCELLED"@[0] != "SUCCESSFUL"@[0]); },
                    ListDeprecatedParamsStatusesItem::Cancelled => {},
                    ListDeprecatedParamsStatusesItem::Failed => { assert("CANCELLED"@[0] != "FAILED"@[0]); },
                    ListDeprecatedParamsStatusesItem::Refunded => { assert("CANCELLED"@[0] != "REFUNDED"@[0]); },
                    ListDeprecatedParamsStatusesItem::ChargeBack => { assert("CANCELLED"@[1] != "CHARGE_BACK"@[1]); },
                    ListDeprecatedParamsStatusesItem::Other(_) => {},
                }
            },
            ListDeprecatedParamsStatusesItem::Failed => {
                match b {
                    ListDeprecatedParamsStatusesItem::Successful => { assert("FAILED"@[0] != "SUCCESSFUL"@[0]); },
                    ListDeprecatedParamsStatusesItem::Cancelled => { assert("FAILED"@[0] != "CANCELLED"@[0]); },
                    ListDeprecatedParamsStatusesItem::Failed => {},
                    ListDeprecatedParamsStatusesItem::Refunded => { assert("FAILED"@[0] != "REFUNDED"@[0]); },
                    ListDeprecatedParamsStatusesItem::ChargeBack => { assert("FAILED"@[0] != "CHARGE_BACK"@[0]); },
                    ListDeprecatedParamsStatusesItem::Other(_) => {},
                }
            },
            ListDeprecatedParamsStatusesItem::Refunded => {
                match b {
                    ListDeprecatedParamsStatusesItem::Successful => { assert("REFUNDED"@[0] != "SUCCESSFUL"@[0]); },
                    ListDeprecatedParamsStatusesItem::Cancelled => { assert("REFUNDED"@[0] != "CANCELLED"@[0]); },
                    ListDeprecatedParamsStatusesItem::Failed => { assert("REFUNDED"@[0] != "FAILED"@[0]); },
                    ListDeprecatedParamsStatusesItem::Refunded => {},
                    ListDeprecatedParamsStatusesItem::ChargeBack => { assert("REFUNDED"@[0] != "CHARGE_BACK"@[0]); },
                    ListDeprecatedParamsStatusesItem::Other(_) => {},
                }
            },
            ListDeprecatedParamsStatusesItem::ChargeBack => {
                match b {
                    ListDeprecatedParamsStatusesItem::Successful => { assert("CHARGE_BACK"@[0] != "SUCCESSFUL"@[0]); },
                    ListDeprecatedParamsStatusesItem::Cancelled => { assert("CHARGE_BACK"@[1] != "CANCELLED"@[1]); },
                    ListDeprecatedParamsStatusesItem::Failed => { assert("CHARGE_BACK"@[0] != "FAILED"@[0]); },
                    ListDeprecatedParamsStatusesItem::Refunded => { assert("CHARGE_BACK"@[0] != "REFUNDED"@[0]); },
                    ListDeprecatedParamsStatusesItem::ChargeBack => {},
                    ListDeprecatedParamsStatusesItem::Other(_) => {},
                }
            },
            ListDeprecatedParamsStatusesItem::Other(_) => {},
        }
    }
}

#[derive(Debug, Clone)]
pub enum ListDeprecatedParamsTypesItem {
    Payment,
    Refund,
    ChargeBack,
    Other(String),
}

impl WireName for ListDeprecatedParamsTypesItem {
    open spec fn wire_name(&self) -> Seq<char> {
        match self {
            ListDeprecatedParamsTypesItem::Payment => "PAYMENT"@,
            ListDeprecatedParamsTypesItem::Refund => "REFUND"@,
            ListDeprecatedParamsTypesItem::ChargeBack => "CHARGE_BACK"@,
            ListDeprecatedParamsTypesItem::Other(s) => s@,
        }
    }

    fn into_wire(self) -> (r: String) {
        match self {
            ListDeprecatedParamsTypesItem::Payment => String::from_str("PAYMENT"),
            ListDeprecatedParamsTypesItem::Refund => String::from_str("REFUND"),
            ListDeprecatedParamsTypesItem::ChargeBack => String::from_str("CHARGE_BACK"),
            ListDeprecatedParamsTypesItem::Other(s) => s,
        }
    }
}

/// The wire names of the named variants of `ListDeprecatedParamsTypesItem` are their serde names,
/// and no two named variants share a wire name.
pub proof fn lemma_list_deprecated_params_types_item_wire_names()
    ensures
        ListDeprecatedParamsTypesItem::Payment.wire_name() == "PAYMENT"@,
        ListDeprecatedParamsTypesItem::Refund.wire_name() == "REFUND"@,
        ListDeprecatedParamsTypesItem::ChargeBack.wire_name() == "CHARGE_BACK"@,
        forall|a: ListDeprecatedParamsTypesItem, b: ListDeprecatedParamsTypesItem|
            !(a is Other) && !(b is Other) && #[trigger] a.wire_name() == #[trigger] b.wire_name() ==> a == b,
{
    assert forall|a: ListDeprecatedParamsTypesItem, b: ListDeprecatedParamsTypesItem|
        !(a is Other) && !(b is Other) && #[trigger] a.wire_name() == #[trigger] b.wire_name() implies a == b by {
        reveal_strlit("CHARGE_BACK");
        reveal_strlit("PAYMENT");
        reveal_strlit("REFUND");
        match a {
            ListDeprecatedParamsTypesItem::Payment => {
                match b {
                    ListDeprecatedParamsTypesItem::Payment => {},
                    ListDeprecatedParamsTypesItem::Refund => { assert("PAYMENT"@[0] != "REFUND"@[0]); },
                    ListDeprecatedParamsTypesItem::ChargeBack => { assert("PAYMENT"@[0] != "CHARGE_BACK"@[0]); },
                    ListDeprecatedParamsTypesItem::Other(_) => {},
                }
            },
            ListDeprecatedParamsTypesItem::Refund => {
                match b {
                    ListDeprecatedParamsTypesItem::Payment => { assert("REFUND"@[0] != "PAYMENT"@[0]); },
                    ListDeprecatedParamsTypesItem::Refund => {},
                    ListDeprecatedParamsTypesItem::ChargeBack => { assert("REFUND"@[0] != "CHARGE_BACK"@[0]); },
                    ListDeprecatedParamsTypesItem::Other(_) => {},
                }
            },
            ListDeprecatedParamsTypesItem::ChargeBack => {
                match b {
                    ListDeprecatedParamsTypesItem::Payment => { assert("CHARGE_BACK"@[0] != "PAYMENT"@[0]); },
                    ListDeprecatedParamsTypesItem::Refund => { assert("CHARGE_BACK"@[0] != "REFUND"@[0]); },
                    ListDeprecatedParamsTypesItem::ChargeBack => {},
                    ListDeprecatedParamsTypesItem::Other(_) => {},
                }
            },
            ListDeprecatedParamsTypesItem::Other(_) => {},
        }
    }
}

#[derive(Debug, Clone)]
pub enum ListParamsOrder {
    Ascending,
    Descending,
    Other(String),
}

impl WireName for ListParamsOrder {
    open spec fn wire_name(&self) -> Seq<char> {
        match self {
            ListParamsOrder::Ascending => "ascending"@,
            ListParamsOrder::Descending => "descending"@,
            ListParamsOrder::Other(s) => s@,
        }
    }

    fn into_wire(self) -> (r: String) {
        match self {
            ListParamsOrder::Ascending => String::from_str("ascending"),
            ListParamsOrder::Descending => String::from_str("descending"),
            ListParamsOrder::Other(s) => s,
        }
    }
}

/// The wire names of the named variants of `ListParamsOrder` are their serde names,
/// and no two named variants share a wire name.
pub proof fn lemma_list_params_order_wire_names()
    ensures
        ListParamsOrder::Ascending.wire_name() == "ascending"@,
        ListParamsOrder::Descending.wire_name() == "descending"@,
        forall|a: ListParamsOrder, b: ListParamsOrder|
            !(a is Other) && !(b is Other) && #[trigger] a.wire_name() == #[trigger] b.wire_name() ==> a == b,
{
    assert forall|a: ListParamsOrder, b: ListParamsOrder|
        !(a is Other) && !(b is Other) && #[trigger] a.wire_name() == #[trigger] b.wire_name() implies a == b by {
        reveal_strlit("ascending");
        reveal_strlit("descending");
        match a {
            ListParamsOrder::Ascending => {
                match b {
                    ListParamsOrder::Ascending => {},
                    ListParamsOrder::Descending => { assert("ascending"@[0] != "descending"@[0]); },
                    ListParamsOrder::Other(_) => {},
                }
            },
            ListParamsOrder::Descending => {
                match b {
                    ListParamsOrder::Ascending => { assert("descending"@[0] != "ascending"@[0]); },
                    ListParamsOrder::Descending => {},
                    ListParamsOrder::Other(_) => {},
                }
            },
            ListParamsOrder::Other(_) => {},
        }
    }
}

#[derive(Debug, Clone)]
pub enum ListParamsStatusesItem {
    Successful,
    Cancelled,
    Failed,
    Refunded,
    ChargeBack,
    Other(String),
}

impl WireName for ListParamsStatusesItem {
    open spec fn wire_name(&self) -> Seq<char> {
        match self {
            ListParamsStatusesItem::Successful => "SUCCESSFUL"@,
            ListParamsStatusesItem::Cancelled => "CANCELLED"@,
            ListParamsStatusesItem::Failed => "FAILED"@,
            ListParamsStatusesItem::Refunded => "REFUNDED"@,
            ListParamsStatusesItem::ChargeBack => "CHARGE_BACK"@,
            ListParamsStatusesItem::Other(s) => s@,
        }
    }

    fn into_wire(self) -> (r: String) {
        match self {
            ListParamsStatusesItem::Successful => String::from_str("SUCCESSFUL"),
            ListParamsStatusesItem::Cancelled => String::from_str("CANCELLED"),
            ListParamsStatusesItem::Failed => String::from_str("FAILED"),
            ListParamsStatusesItem::Refunded => String::from_str("REFUNDED"),
            ListParamsStatusesItem::ChargeBack => String::from_str("CHARGE_BACK"),
            ListParamsStatusesItem::Other(s) => s,
        }
    }
}

/// The wire names of the named variants of `ListParamsStatusesItem` are their serde names,
/// and no two named variants share a wire name.
pub proof fn lemma_list_params_statuses_item_wire_names()
    ensures
        ListParamsStatusesItem::Successful.wire_name() == "SUCCESSFUL"@,
        ListParamsStatusesItem::Cancelled.wire_name() == "CANCELLED"@,
        ListParamsStatusesItem::Failed.wire_name() == "FAILED"@,
        ListParamsStatusesItem::Refunded.wire_name() == "REFUNDED"@,
        ListParamsStatusesItem::ChargeBack.wire_name() == "CHARGE_BACK"@,
        forall|a: ListParamsStatusesItem, b: ListParamsStatusesItem|
            !(a is Other) && !(b is Other) && #[trigger] a.wire_name() == #[trigger] b.wire_name() ==> a == b,
{
    assert forall|a: ListParamsStatusesItem, b: ListParamsStatusesItem|
        !(a is Other) && !(b is Other) && #[trigger] a.wire_name() == #[trigger] b.wire_name() implies a == b by {
        reveal_strlit("CANCELLED");
        reveal_strlit("CHARGE_BACK");
        reveal_strlit("FAILED");
        reveal_strlit("REFUNDED");
        reveal_strlit("SUCCESSFUL");
        match a {
            ListParamsStatusesItem::Successful => {
                match b {
                    ListParamsStatusesItem::Successful => {},
                    ListParamsStatusesItem::Cancelled => { assert("SUCCESSFUL"@[0] != "CANCELLED"@[0]); },
                    ListParamsStatusesItem::Failed => { assert("SUCCESSFUL"@[0] != "FAILED"@[0]); },
                    ListParamsStatusesItem::Refunded => { assert("SUCCESSFUL"@[0] != "REFUNDED"@[0]); },
                    ListParamsStatusesItem::ChargeBack => { assert("SUCCESSFUL"@[0] != "CHARGE_BACK"@[0]); },
                    ListParamsStatusesItem::Other(_) => {},
                }
            },
            ListParamsStatusesItem::Cancelled => {
                match b {
                    ListParamsStatusesItem::Successful => { assert("CANCELLED"@[0] != "SUCCESSFUL"@[0]); },
                    ListParamsStatusesItem::Cancelled => {},
                    ListParamsStatusesItem::Failed => { assert("CANCELLED"@[0] != "FAILED"@[0]); },
                    ListParamsStatusesItem::Refunded => { assert("CANCELLED"@[0] != "REFUNDED"@[0]); },
                    ListParamsStatusesItem::ChargeBack => { assert("CANCELLED"@[1] != "CHARGE_BACK"@[1]); },
                    ListParamsStatusesItem::Other(_) => {},
                }
            },
            ListParamsStatusesItem::Failed => {
                match b {
                    ListParamsStatusesItem::Successful => { assert("FAILED"@[0] != "SUCCESSFUL"@[0]); },
                    ListParamsStatusesItem::Cancelled => { assert("FAILED"@[0] != "CANCELLED"@[0]); },
                    ListParamsStatusesItem::Failed => {},
                    ListParamsStatusesItem::Refunded => { assert("FAILED"@[0] != "REFUNDED"@[0]); },
                    ListParamsStatusesItem::ChargeBack => { assert("FAILED"@[0] != "CHARGE_BACK"@[0]); },
                    ListParamsStatusesItem::Other(_) => {},
                }
            },
            ListParamsStatusesItem::Refunded => {
                match b {
                    ListParamsStatusesItem::Successful => { assert("REFUNDED"@[0] != "SUCCESSFUL"@[0]); },
                    ListParamsStatusesItem::Cancelled => { assert("REFUNDED"@[0] != "CANCELLED"@[0]); },
                    ListParamsStatusesItem::Failed => { assert("REFUNDED"@[0] != "FAILED"@[0]); },
                    ListParamsStatusesItem::Refunded => {},
                    ListParamsStatusesItem::ChargeBack => { assert("REFUNDED"@[0] != "CHARGE_BACK"@[0]); },
                    ListParamsStatusesItem::Other(_) => {},
                }
            },
            ListParamsStatusesItem::ChargeBack => {
                match b {
                    ListParamsStatusesItem::Successful => { assert("CHARGE_BACK"@[0] != "SUCCESSFUL"@[0]); },
                    ListParamsStatusesItem::Cancelled => { assert("CHARGE_BACK"@[1] != "CANCELLED"@[1]); },
                    ListParamsStatusesItem::Failed => { assert("CHARGE_BACK"@[0] != "FAILED"@[0]); },
                    ListParamsStatusesItem::Refunded => { assert("CHARGE_BACK"@[0] != "REFUNDED"@[0]); },
                    ListParamsStatusesItem::ChargeBack => {},
                    ListParamsStatusesItem::Other(_) => {},
                }
            },
            ListParamsStatusesItem::Other(_) => {},
        }
    }
}

#[derive(Debug, Clone)]
pub enum ListParamsTypesItem {
    Payment,
    Refund,
    ChargeBack,
    Other(String),
}

impl WireName for ListParamsTypesItem {
    open spec fn wire_name(&self) -> Seq<char> {
        match self {
            ListParamsTypesItem::Payment => "PAYMENT"@,
            ListParamsTypesItem::Refund => "REFUND"@,
            ListParamsTypesItem::ChargeBack => "CHARGE_BACK"@,
            ListParamsTypesItem::Other(s) => s@,
        }
    }

    fn into_wire(self) -> (r: String) {
        match self {
            ListParamsTypesItem::Payment => String::from_str("PAYMENT"),
            ListParamsTypesItem::Refund => String::from_str("REFUND"),
            ListParamsTypesItem::ChargeBack => String::from_str("CHARGE_BACK"),
            ListParamsTypesItem::Other(s) => s,
        }
    }
}

/// The wire names of the named variants of `ListParamsTypesItem` are their serde names,
/// and no two named variants share a wire name.
pub proof fn lemma_list_params_types_item_wire_names()
    ensures
        ListParamsTypesItem::Payment.wire_name() == "PAYMENT"@,
        ListParamsTypesItem::Refund.wire_name() == "REFUND"@,
        ListParamsTypesItem::ChargeBack.wire_name() == "CHARGE_BACK"@,
        forall|a: ListParamsTypesItem, b: ListParamsTypesItem|
            !(a is Other) && !(b is Other) && #[trigger] a.wire_name() == #[trigger] b.wire_name() ==> a == b,
{
    assert forall|a: ListParamsTypesItem, b: ListParamsTypesItem|
        !(a is Other) && !(b is Other) && #[trigger] a.wire_name() == #[trigger] b.wire_name() implies a == b by {
        reveal_strlit("CHARGE_BACK");
        reveal_strlit("PAYMENT");
        reveal_strlit("REFUND");
        match a {
            ListParamsTypesItem::Payment => {
                match b {
                    ListParamsTypesItem::Payment => {},
                    ListParamsTypesItem::Refund => { assert("PAYMENT"@[0] != "REFUND"@[0]); },
                    ListParamsTypesItem::ChargeBack => { assert("PAYMENT"@[0] != "CHARGE_BACK"@[0]); },
                    ListParamsTypesItem::Other(_) => {},
                }
            },
            ListParamsTypesItem::Refund => {
                match b {
                    ListParamsTypesItem::Payment => { assert("REFUND"@[0] != "PAYMENT"@[0]); },
                    ListParamsTypesItem::Refund => {},
                    ListParamsTypesItem::ChargeBack => { assert("REFUND"@[0] != "CHARGE_BACK"@[0]); },
                    ListParamsTypesItem::Other(_) => {},
                }
            },
            ListParamsTypesItem::ChargeBack => {
                match b {
                    ListParamsTypesItem::Payment => { assert("CHARGE_BACK"@[0] != "PAYMENT"@[0]); },
                    ListParamsTypesItem::Refund => { assert("CHARGE_BACK"@[0] != "REFUND"@[0]); },
                    ListParamsTypesItem::ChargeBack => {},
                    ListParamsTypesItem::Other(_) => {},
                }
            },
            ListParamsTypesItem::Other(_) => {},
        }
    }
}

#[derive(Debug, Clone, Default)]
pub struct GetDeprecatedParams {
    /// Retrieves the transaction resource with the specified transaction ID (the `id` parameter in the transaction resource).
    pub id: Option<String>,
    /// Retrieves the transaction resource with the specified transaction code.
    pub transaction_code: Option<String>,
}

#[derive(Debug, Clone, Default)]
pub struct ListDeprecatedParams {
    /// Retrieves the transaction resource with the specified transaction code.
    pub transaction_code: Option<String>,
    /// Specifies the order in which the returned results are displayed.
    pub order: Option<ListDeprecatedParamsOrder>,
    /// Specifies the maximum number of results per page. Value must be a positive integer and if not specified, will return 10 results.
    pub limit: Option<i64>,
    /// Filters the returned results by user email.
    pub users: Option<Vec<String>>,
    /// Filters the returned results by the specified list of final statuses of the transactions.
    pub statuses: Option<Vec<ListDeprecatedParamsStatusesItem>>,
    /// Filters the returned results by the specified list of payment types used for the transactions.
    pub payment_types: Option<Vec<PaymentType>>,
    /// Filters the returned results by the specified list of transaction types.
    pub types: Option<Vec<ListDeprecatedParamsTypesItem>>,
    /// Filters the results by the latest modification time of resources and returns only transactions that are modified *at or after* the specified timestamp (in [ISO8601](https://en.wikipedia.org/wiki/ISO_8601) format).
    pub changes_since: Option<DateTime>,
    /// Filters the results by the creation time of resources and returns only transactions that are created *before* the specified timestamp (in [ISO8601](https://en.wikipedia.org/wiki/ISO_8601) format).
    pub newest_time: Option<DateTime>,
    /// Filters the results by the reference ID of transaction events and returns only transactions with events whose IDs are *smaller* than the specified value. This parameters supersedes the `newest_time` parameter (if both are provided in the request).
    pub newest_ref: Option<String>,
    /// Filters the results by the creation time of resources and returns only transactions that are created *at or after* the specified timestamp (in [ISO8601](https://en.wikipedia.org/wiki/ISO_8601) format).
    pub oldest_time: Option<DateTime>,
    /// Filters the results by the reference ID of transaction events and returns only transactions with events whose IDs are *greater* than the specified value. This parameters supersedes the `oldest_time` parameter (if both are provided in the request).
    pub oldest_ref: Option<String>,
}

#[derive(Debug, Clone, Default)]
pub struct GetParams {
    /// Retrieves the transaction resource with the specified transaction ID (the `id` parameter in the transaction resource).
    pub id: Option<String>,
    /// Retrieves the transaction resource with the specified transaction code.
    pub transaction_code: Option<String>,
    /// External/foreign transaction id (passed by clients).
    pub foreign_transaction_id: Option<String>,
    /// Client transaction id.
    pub client_transaction_id: Option<String>,
}

#[derive(Debug, Clone, Default)]
pub struct ListParams {
    /// Retrieves the transaction resource with the specified transaction code.
    pub transaction_code: Option<String>,
    /// Specifies the order in which the returned results are displayed.
    pub order: Option<ListParamsOrder>,
    /// Specifies the maximum number of results per page. Value must be a positive integer and if not specified, will return 10 results.
    pub limit: Option<i64>,
    /// Filters the returned results by user email.
    pub users: Option<Vec<String>>,
    /// Filters the returned results by the specified list of final statuses of the transactions.
    pub statuses: Option<Vec<ListParamsStatusesItem>>,
    /// Filters the returned results by the specified list of payment types used for the transactions.
    pub payment_types: Option<Vec<PaymentType>>,
    /// Filters the returned results by the specified list of entry modes.
    pub entry_modes: Option<Vec<EntryMode>>,
    /// Filters the returned results by the specified list of transaction types.
    pub types: Option<Vec<ListParamsTypesItem>>,
    /// Filters the results by the latest modification time of resources and returns only transactions that are modified *at or after* the specified timestamp (in [ISO8601](https://en.wikipedia.org/wiki/ISO_8601) format).
    pub changes_since: Option<DateTime>,
    /// Filters the results by the creation time of resources and returns only transactions that are created *before* the specified timestamp (in [ISO8601](https://en.wikipedia.org/wiki/ISO_8601) format).
    pub newest_time: Option<DateTime>,
    /// Filters the results by the reference ID of transaction events and returns only transactions with events whose IDs are *smaller* than the specified value. This parameters supersedes the `newest_time` parameter (if both are provided in the request).
    pub newest_ref: Option<String>,
    /// Filters the results by the creation time of resources and returns only transactions that are created *at or after* the specified timestamp (in [ISO8601](https://en.wikipedia.org/wiki/ISO_8601) format).
    pub oldest_time: Option<DateTime>,
    /// Filters the results by the reference ID of transaction events and returns only transactions with events whose IDs are *greater* than the specified value. This parameters supersedes the `oldest_time` parameter (if both are provided in the request).
    pub oldest_ref: Option<String>,
}

#[derive(Debug)]
pub enum RefundErrorBody {
    NotFound(Error),
    Conflict(Error),
}

/// The error bodies that the endpoint documents, by status.
#[derive(Debug)]
pub enum GetDeprecatedErrorBody {
    Unauthorized(Problem),
    NotFound(Error),
}

/// The error bodies that the endpoint documents, by status.
#[derive(Debug)]
pub enum ListDeprecatedErrorBody {
    BadRequest(Error),
    Unauthorized(Problem),
}

/// The error bodies that the endpoint documents, by status.
#[derive(Debug)]
pub enum GetErrorBody {
    Unauthorized(Problem),
    NotFound(Error),
}

/// The error bodies that the endpoint documents, by status.
#[derive(Debug)]
pub enum ListErrorBody {
    BadRequest(Error),
    Unauthorized(Problem),
}

/// Client for the Transactions API endpoints.
#[derive(Debug)]
pub struct TransactionsClient<'a> {
    client: &'a Client,
}

impl<'a> TransactionsClient<'a> {
    /// The client these endpoints are called through.
    pub closed spec fn bound_client(&self) -> &'a Client {
        self.client
    }

    pub(crate) fn new(client: &'a Client) -> (r: Self)
        ensures
            r.bound_client() == client,
    {
        Self { client }
    }

    /// Returns a reference to the underlying client.
    pub fn client(&self) -> (r: &Client)
        ensures
            r == self.bound_client(),
    {
        self.client
    }

    /// Refund a transaction: the request that this endpoint sends.
    pub fn refund_request(&self, txn_id: &str) -> (r: ApiRequest)
        ensures
            r.method == HttpMethod::Post,
            r.path@ == "/v0.1/me/refund/"@ + txn_id@,
            r.url@ == self.bound_client().base_url_view() + r.path@,
            r.query@.len() == 0,
            r.responses@ == seq![
                (StatusOutcome { status: 204u16, outcome: Outcome::Success { variant: None, body: BodyRead::Ignored } }),
                (StatusOutcome { status: 404u16, outcome: Outcome::Api { variant: "RefundErrorBody::NotFound", body: BodyRead::Json("Error") } }),
                (StatusOutcome { status: 409u16, outcome: Outcome::Api { variant: "RefundErrorBody::Conflict", body: BodyRead::Json("Error") } }),
            ],
            r.otherwise == (Outcome::Unexpected { body: BodyRead::Bytes }),
            r.runtime_headers == true,
            r.body == (RequestBody::OptionalJson("RefundBody")),
    {
        let mut path = String::from_str("/v0.1/me/refund/");
        path.append(txn_id);
        let mut url = self.client.base_url().to_owned();
        url.append(path.as_str());
        let mut query: Vec<QueryParam> = Vec::new();
        assert(query_view(query@) =~= seq![]);
        ApiRequest {
            method: HttpMethod::Post,
            path,
            url,
            query,
            responses: vec![
                StatusOutcome { status: 204, outcome: Outcome::Success { variant: None, body: BodyRead::Ignored } },
                StatusOutcome { status: 404, outcome: Outcome::Api { variant: "RefundErrorBody::NotFound", body: BodyRead::Json("Error") } },
                StatusOutcome { status: 409, outcome: Outcome::Api { variant: "RefundErrorBody::Conflict", body: BodyRead::Json("Error") } },
            ],
            otherwise: Outcome::Unexpected { body: BodyRead::Bytes },
            runtime_headers: true,
            body: RequestBody::OptionalJson("RefundBody"),
        }
    }

    /// Retrieve a transaction: the request that this endpoint sends.
    pub fn get_deprecated_request(&self, params: GetDeprecatedParams) -> (r: ApiRequest)
        ensures
            r.method == HttpMethod::Get,
            r.path@ == "/v0.1/me/transactions"@,
            r.url@ == self.bound_client().base_url_view() + r.path@,
            query_view(r.query@) == text_entry("id"@, opt_text(params.id)) + text_entry("transaction_code"@, opt_text(params.transaction_code)),
            r.responses@ == seq![
                (StatusOutcome { status: 200u16, outcome: Outcome::Success { variant: None, body: BodyRead::Json("TransactionFull") } }),
                (StatusOutcome { status: 401u16, outcome: Outcome::Api { variant: "GetDeprecatedErrorBody::Unauthorized", body: BodyRead::Json("Problem") } }),
                (StatusOutcome { status: 404u16, outcome: Outcome::Api { variant: "GetDeprecatedErrorBody::NotFound", body: BodyRead::Json("Error") } }),
            ],
            r.otherwise == (Outcome::Unexpected { body: BodyRead::Bytes }),
            r.runtime_headers == true,
            r.body == RequestBody::Empty,
    {
        let mut path = String::from_str("/v0.1/me/transactions");
        let mut url = self.client.base_url().to_owned();
        url.append(path.as_str());
        let mut query: Vec<QueryParam> = Vec::new();
        assert(query_view(query@) =~= seq![]);
        push_text(&mut query, "id", params.id);
        push_text(&mut query, "transaction_code", params.transaction_code);
        ApiRequest {
            method: HttpMethod::Get,
            path,
            url,
            query,
            responses: vec![
                StatusOutcome { status: 200, outcome: Outcome::Success { variant: None, body: BodyRead::Json("TransactionFull") } },
                StatusOutcome { status: 401, outcome: Outcome::Api { variant: "GetDeprecatedErrorBody::Unauthorized", body: BodyRead::Json("Problem") } },
                StatusOutcome { status: 404, outcome: Outcome::Api { variant: "GetDeprecatedErrorBody::NotFound", body: BodyRead::Json("Error") } },
            ],
            otherwise: Outcome::Unexpected { body: BodyRead::Bytes },
            runtime_headers: true,
            body: RequestBody::Empty,
        }
    }

    /// List transactions: the request that this endpoint sends.
    pub fn list_deprecated_request(&self, params: ListDeprecatedParams) -> (r: ApiRequest)
        ensures
            r.method == HttpMethod::Get,
            r.path@ == "/v0.1/me/transactions/history"@,
            r.url@ == self.bound_client().base_url_view() + r.path@,
            query_view(r.query@) == text_entry("transaction_code"@, opt_text(params.transaction_code)) + text_entry("order"@, opt_wire_name(params.order)) + integer_entry("limit"@, params.limit) + texts_entry("users"@, opt_texts(params.users)) + texts_entry("statuses[]"@, opt_wire_names(params.statuses)) + texts_entry("payment_types"@, opt_wire_names(params.payment_types)) + texts_entry("types"@, opt_wire_names(params.types)) + text_entry("changes_since"@, opt_text(params.changes_since)) + text_entry("newest_time"@, opt_text(params.newest_time)) + text_entry("newest_ref"@, opt_text(params.newest_ref)) + text_entry("oldest_time"@, opt_text(params.oldest_time)) + text_entry("oldest_ref"@, opt_text(params.oldest_ref)),
            r.responses@ == seq![
                (StatusOutcome { status: 200u16, outcome: Outcome::Success { variant: None, body: BodyRead::Json("ListDeprecatedResponse") } }),
                (StatusOutcome { status: 400u16, outcome: Outcome::Api { variant: "ListDeprecatedErrorBody::BadRequest", body: BodyRead::Json("Error") } }),
                (StatusOutcome { status: 401u16, outcome: Outcome::Api { variant: "ListDeprecatedErrorBody::Unauthorized", body: BodyRead::Json("Problem") } }),
            ],
            r.otherwise == (Outcome::Unexpected { body: BodyRead::Bytes }),
            r.runtime_headers == true,
            r.body == RequestBody::Empty,
    {
        let mut path = String::from_str("/v0.1/me/transactions/history");
        let mut url = self.client.base_url().to_owned();
        url.append(path.as_str());
        let mut query: Vec<QueryParam> = Vec::new();
        assert(query_view(query@) =~= seq![]);
        push_text(&mut query, "transaction_code", params.transaction_code);
        push_text(&mut query, "order", into_wire_opt(params.order));
        push_integer(&mut query, "limit", params.limit);
        push_texts(&mut query, "users", params.users);
        push_texts(&mut query, "statuses[]", into_wire_list_opt(params.statuses));
        push_texts(&mut query, "payment_types", into_wire_list_opt(params.payment_types));
        push_texts(&mut query, "types", into_wire_list_opt(params.types));
        push_text(&mut query, "changes_since", params.changes_since);
        push_text(&mut query, "newest_time", params.newest_time);
        push_text(&mut query, "newest_ref", params.newest_ref);
        push_text(&mut query, "oldest_time", params.oldest_time);
        push_text(&mut query, "oldest_ref", params.oldest_ref);
        ApiRequest {
            method: HttpMethod::Get,
            path,
            url,
            query,
            responses: vec![
                StatusOutcome { status: 200, outcome: Outcome::Success { variant: None, body: BodyRead::Json("ListDeprecatedResponse") } },
                StatusOutcome { status: 400, outcome: Outcome::Api { variant: "ListDeprecatedErrorBody::BadRequest", body: BodyRead::Json("Error") } },
                StatusOutcome { status: 401, outcome: Outcome::Api { variant: "ListDeprecatedErrorBody::Unauthorized", body: BodyRead::Json("Problem") } },
            ],
            otherwise: Outcome::Unexpected { body: BodyRead::Bytes },
            runtime_headers: true,
            body: RequestBody::Empty,
        }
    }

    /// Retrieve a transaction: the request that this endpoint sends.
    pub fn get_request(&self, merchant_code: &str, params: GetParams) -> (r: ApiRequest)
        ensures
            r.method == HttpMethod::Get,
            r.path@ == "/v2.1/merchants/"@ + merchant_code@ + "/transactions"@,
            r.url@ == self.bound_client().base_url_view() + r.path@,
            query_view(r.query@) == text_entry("id"@, opt_text(params.id)) + text_entry("transaction_code"@, opt_text(params.transaction_code)) + text_entry("foreign_transaction_id"@, opt_text(params.foreign_transaction_id)) + text_entry("client_transaction_id"@, opt_text(params.client_transaction_id)),
            r.responses@ == seq![
                (StatusOutcome { status: 200u16, outcome: Outcome::Success { variant: None, body: BodyRead::Json("TransactionFull") } }),
                (StatusOutcome { status: 401u16, outcome: Outcome::Api { variant: "GetErrorBody::Unauthorized", body: BodyRead::Json("Problem") } }),
                (StatusOutcome { status: 404u16, outcome: Outcome::Api { variant: "GetErrorBody::NotFound", body: BodyRead::Json("Error") } }),
            ],
            r.otherwise == (Outcome::Unexpected { body: BodyRead::Bytes }),
            r.runtime_headers == true,
            r.body == RequestBody::Empty,
    {
        let mut path = String::from_str("/v2.1/merchants/");
        path.append(merchant_code);
        path.append("/transactions");
        let mut url = self.client.base_url().to_owned();
        url.append(path.as_str());
        let mut query: Vec<QueryParam> = Vec::new();
        assert(query_view(query@) =~= seq![]);
        push_text(&mut query, "id", params.id);
        push_text(&mut query, "transaction_code", params.transaction_code);
        push_text(&mut query, "foreign_transaction_id", params.foreign_transaction_id);
        push_text(&mut query, "client_transaction_id", params.client_transaction_id);
        ApiRequest {
            method: HttpMethod::Get,
            path,
            url,
            query,
            responses: vec![
                StatusOutcome { status: 200, outcome: Outcome::Success { variant: None, body: BodyRead::Json("TransactionFull") } },
                StatusOutcome { status: 401, outcome: Outcome::Api { variant: "GetErrorBody::Unauthorized", body: BodyRead::Json("Problem") } },
                StatusOutcome { status: 404, outcome: Outcome::Api { variant: "GetErrorBody::NotFound", body: BodyRead::Json("Error") } },
            ],
            otherwise: Outcome::Unexpected { body: BodyRead::Bytes },
            runtime_headers: true,
            body: RequestBody::Empty,
        }
    }

    /// List transactions: the request that this endpoint sends.
    pub fn list_request(&self, merchant_code: &str, params: ListParams) -> (r: ApiRequest)
        ensures
            r.method == HttpMethod::Get,
            r.path@ == "/v2.1/merchants/"@ + merchant_code@ + "/transactions/history"@,
            r.url@ == self.bound_client().base_url_view() + r.path@,
            query_view(r.query@) == text_entry("transaction_code"@, opt_text(params.transaction_code)) + text_entry("order"@, opt_wire_name(params.order)) + integer_entry("limit"@, params.limit) + texts_entry("users"@, opt_texts(params.users)) + texts_entry("statuses[]"@, opt_wire_names(params.statuses)) + texts_entry("payment_types"@, opt_wire_names(params.payment_types)) + texts_entry("entry_modes[]"@, opt_wire_names(params.entry_modes)) + texts_entry("types"@, opt_wire_names(params.types)) + text_entry("changes_since"@, opt_text(params.changes_since)) + text_entry("newest_time"@, opt_text(params.newest_time)) + text_entry("newest_ref"@, opt_text(params.newest_ref)) + text_entry("oldest_time"@, opt_text(params.oldest_time)) + text_entry("oldest_ref"@, opt_text(params.oldest_ref)),
            r.responses@ == seq![
                (StatusOutcome { status: 200u16, outcome: Outcome::Success { variant: None, body: BodyRead::Json("ListResponse") } }),
                (StatusOutcome { status: 400u16, outcome: Outcome::Api { variant: "ListErrorBody::BadRequest", body: BodyRead::Json("Error") } }),
                (StatusOutcome { status: 401u16, outcome: Outcome::Api { variant: "ListErrorBody::Unauthorized", body: BodyRead::Json("Problem") } }),
            ],
            r.otherwise == (Outcome::Unexpected { body: BodyRead::Bytes }),
            r.runtime_headers == true,
            r.body == RequestBody::Empty,
    {
        let mut path = String::from_str("/v2.1/merchants/");
        path.append(merchant_code);
        path.append("/transactions/history");
        let mut url = self.client.base_url().to_owned();
        url.append(path.as_str());
        let mut query: Vec<QueryParam> = Vec::new();
        assert(query_view(query@) =~= seq![]);
        push_text(&mut query, "transaction_code", params.transaction_code);
        push_text(&mut query, "order", into_wire_opt(params.order));
        push_integer(&mut query, "limit", params.limit);
        push_texts(&mut query, "users", params.users);
        push_texts(&mut query, "statuses[]", into_wire_list_opt(params.statuses));
        push_texts(&mut query, "payment_types", into_wire_list_opt(params.payment_types));
        push_texts(&mut query, "entry_modes[]", into_wire_list_opt(params.entry_modes));
        push_texts(&mut query, "types", into_wire_list_opt(params.types));
        push_text(&mut query, "changes_since", params.changes_since);
        push_text(&mut query, "newest_time", params.newest_time);
        push_text(&mut query, "newest_ref", params.newest_ref);
        push_text(&mut query, "oldest_time", params.oldest_time);
        push_text(&mut query, "oldest_ref", params.oldest_ref);
        ApiRequest {
            method: HttpMethod::Get,
            path,
            url,
            query,
            responses: vec![
                StatusOutcome { status: 200, outcome: Outcome::Success { variant: None, body: BodyRead::Json("ListResponse") } },
                StatusOutcome { status: 400, outcome: Outcome::Api { variant: "ListErrorBody::BadRequest", body: BodyRead::Json("Error") } },
                StatusOutcome { status: 401, outcome: Outcome::Api { variant: "ListErrorBody::Unauthorized", body: BodyRead::Json("Problem") } },
            ],
            otherwise: Outcome::Unexpected { body: BodyRead::Bytes },
            runtime_headers: true,
            body: RequestBody::Empty,
        }
    }
}

} // verus!
