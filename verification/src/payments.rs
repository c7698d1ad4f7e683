//! Canonical payment domain models the connector mappings read: the
//! authentication configuration, payment method data, and the request
//! and response projections.

use vstd::prelude::*;
use vstd::string::StringSliceAdditionalSpecFns;
use vstd::string::StringExecFns;

use crate::enums::{AttemptStatus, CaptureMethod, Currency, RefundStatus};

verus! {

/// How a merchant's connector account authenticates.
pub enum ConnectorAuthType {
    HeaderKey { api_key: String },
    BodyKey { api_key: String, key1: String },
    SignatureKey { api_key: String, key1: String, api_secret: String },
    NoKey,
}

/// Card details of a payment attempt.
pub struct Card {
    pub card_number: String,
    pub card_exp_month: String,
    pub card_exp_year: String,
    pub card_cvc: String,
}

/// The expiry year widened to four digits: a two-byte year gains the
/// century prefix, anything else is kept as given.
pub open spec fn expiry_year_4(year: Seq<char>) -> Seq<char> {
    if vstd::utf8::encode_utf8(year).len() == 2 {
        "20"@ + year
    } else {
        year
    }
}

impl Card {
    /// The expiry year, widened to four digits.
    pub fn get_expiry_year_4_digit(&self) -> (r: String)
        ensures
            r@ == expiry_year_4(self.card_exp_year@),
    {
        if self.card_exp_year.as_str().as_bytes().len() == 2 {
            let s = "20".to_owned();
            s.concat(self.card_exp_year.as_str())
        } else {
            self.card_exp_year.clone()
        }
    }
}

/// How the customer pays. Only cards are mapped by this connector.
pub enum PaymentMethodData {
    Card(Card),
    Wallet,
    PayLater,
    BankRedirect,
    BankDebit,
    CardRedirect,
    BankTransfer,
    Crypto,
    MandatePayment,
    Reward,
    RealTimePayment,
    Upi,
    Voucher,
    GiftCard,
    OpenBanking,
    CardToken,
    NetworkToken,
}

/// What an authorize call carries to the connector mapping.
pub struct PaymentsAuthorizeData {
    pub payment_method_data: PaymentMethodData,
    pub currency: Currency,
    pub capture_method: Option<CaptureMethod>,
    pub minor_amount: u64,
    pub connector_request_reference_id: String,
    pub connector_auth_type: ConnectorAuthType,
}

/// What a refund call carries to the connector mapping.
pub struct RefundsData {
    pub currency: Currency,
    pub minor_refund_amount: u64,
}

/// The canonical projection of a connector's payment response.
pub struct PaymentsResponseOutcome {
    pub status: AttemptStatus,
    pub resource_id: String,
}

/// The canonical projection of a connector's refund response.
pub struct RefundsResponseOutcome {
    pub connector_refund_id: String,
    pub refund_status: RefundStatus,
}

/// The canonical error a connector's failure response maps to.
pub struct ErrorResponse {
    pub status_code: u16,
    pub code: String,
    pub message: String,
    pub reason: Option<String>,
    pub attempt_status: Option<AttemptStatus>,
    pub connector_transaction_id: Option<String>,
}

/// Connector endpoint configuration.
pub struct Connectors {
    pub base_url: String,
}

} // verus!
