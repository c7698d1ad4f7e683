//! Request and response shapes of the Chase Orbital API, and the
//! mappings between them and the canonical payment models.

use vstd::prelude::*;

use crate::enums::{AttemptStatus, CaptureMethod, Currency, RefundStatus as CanonicalRefundStatus};
use crate::errors::ConnectorError;
use crate::payments::{
    expiry_year_4, Card, ConnectorAuthType, PaymentMethodData, PaymentsAuthorizeData,
    PaymentsResponseOutcome, RefundsData, RefundsResponseOutcome,
};

verus! {

/// A canonical payload paired with the amount already written in the
/// connector's unit.
#[derive(Clone, Debug)]
pub struct ChaseorbitalRouterData<T> {
    pub amount: String,
    pub router_data: T,
}

impl<T> ChaseorbitalRouterData<T> {
    /// Pairs a converted amount with its payload.
    pub fn from(amount: String, router_data: T) -> (r: ChaseorbitalRouterData<T>)
        ensures
            r.amount == amount,
            r.router_data == router_data,
    {
        ChaseorbitalRouterData { amount, router_data }
    }
}

/// The authorize request body.
#[derive(Clone, Debug)]
pub struct ChaseorbitalPaymentsRequest {
    pub amount: Amount,
    pub source: Source,
    pub transaction_details: TransactionDetails,
    pub merchant_details: MerchantDetails,
    pub transaction_interaction: TransactionInteraction,
}

/// The funding source of a payment.
#[derive(Clone, Debug)]
pub enum Source {
    PaymentCard { card: CardData },
}

/// Card fields as the connector spells them.
#[derive(Clone, Debug)]
pub struct CardData {
    pub card_data: String,
    pub expiration_month: String,
    pub expiration_year: String,
    pub security_code: String,
}

/// A tokenized wallet payload.
#[derive(Clone, Debug)]
pub struct GooglePayToken {
    pub signature: String,
    pub signed_message: String,
    pub protocol_version: String,
}

/// An amount with its currency code.
#[derive(Clone, Debug)]
pub struct Amount {
    pub total: String,
    pub currency: String,
}

/// Transaction-level fields of a request.
#[derive(Clone, Debug)]
pub struct TransactionDetails {
    pub capture_flag: Option<bool>,
    pub reversal_reason_code: Option<String>,
    pub merchant_transaction_id: String,
}

/// Merchant-level fields of a request.
#[derive(Clone, Debug)]
pub struct MerchantDetails {
    pub merchant_id: String,
    pub terminal_id: Option<String>,
}

/// How the transaction was entered.
#[derive(Clone, Debug)]
pub struct TransactionInteraction {
    pub origin: TransactionInteractionOrigin,
    pub eci_indicator: TransactionInteractionEciIndicator,
    pub pos_condition_code: TransactionInteractionPosConditionCode,
}

/// Where the transaction originates.
#[derive(Clone, Copy, Debug, PartialEq, Eq, Structural)]
pub enum TransactionInteractionOrigin {
    Ecom,
}

/// How the channel was secured.
#[derive(Clone, Copy, Debug, PartialEq, Eq, Structural)]
pub enum TransactionInteractionEciIndicator {
    ChannelEncrypted,
}

/// The point-of-sale condition.
#[derive(Clone, Copy, Debug, PartialEq, Eq, Structural)]
pub enum TransactionInteractionPosConditionCode {
    CardNotPresentEcom,
}

/// A card as some card-on-file flows spell it.
#[derive(Clone, Debug)]
pub struct ChaseorbitalCard {
    pub number: String,
    pub expiry_month: String,
    pub expiry_year: String,
    pub cvc: String,
    pub complete: bool,
}

/// Connector-account metadata stored per merchant.
#[derive(Clone, Debug)]
pub struct ChaseOrbitalSessionObject {
    pub terminal_id: String,
}

/// The connector's authentication triple.
#[derive(Clone, Debug)]
pub struct ChaseorbitalAuthType {
    pub orb_user_name: String,
    pub orb_password: String,
    pub merchant_id: String,
}

impl ChaseorbitalAuthType {
    /// Reads the connector auth triple out of a `SignatureKey`
    /// configuration; any other shape is refused.
    pub fn try_from(auth_type: &ConnectorAuthType) -> (r: Result<
        ChaseorbitalAuthType,
        ConnectorError,
    >)
        ensures
            r is Ok <==> auth_type is SignatureKey,
            r matches Ok(auth) ==> (auth_type matches ConnectorAuthType::SignatureKey {
                api_key,
                key1,
                api_secret,
            } && auth.orb_user_name@ == api_key@ && auth.orb_password@ == api_secret@
                && auth.merchant_id@ == key1@),
            r matches Err(e) ==> e == ConnectorError::FailedToObtainAuthType,
    {
        match auth_type {
            ConnectorAuthType::SignatureKey { api_key, api_secret, key1 } => {
                Ok(ChaseorbitalAuthType {
                    orb_user_name: api_key.clone(),
                    orb_password: api_secret.clone(),
                    merchant_id: key1.clone(),
                })
            },
            _ => Err(ConnectorError::FailedToObtainAuthType),
        }
    }
}

/// Whether the capture method asks for capture at authorization.
pub open spec fn captures_automatically(capture_method: Option<CaptureMethod>) -> bool {
    capture_method == Some(CaptureMethod::Automatic) || capture_method is None
}

/// What the authorize request body must hold for a payload: the
/// amount and currency, the capture flag, the merchant details from
/// the auth triple, the fixed interaction fields, and the card.
pub open spec fn is_payments_request_for(
    body: ChaseorbitalPaymentsRequest,
    amount: Seq<char>,
    data: PaymentsAuthorizeData,
) -> bool {
    &&& body.amount.total@ == amount
    &&& body.amount.currency@ == crate::enums::currency_code_spec(data.currency)
    &&& body.transaction_details.capture_flag == Some(captures_automatically(data.capture_method))
    &&& body.transaction_details.reversal_reason_code is None
    &&& body.transaction_details.merchant_transaction_id@
        == data.connector_request_reference_id@
    &&& data.connector_auth_type matches ConnectorAuthType::SignatureKey { key1, .. }
        && body.merchant_details.merchant_id@ == key1@
    &&& body.merchant_details.terminal_id matches Some(t) && t@ == "session.terminal_id"@
    &&& body.transaction_interaction.origin == TransactionInteractionOrigin::Ecom
    &&& body.transaction_interaction.eci_indicator
        == TransactionInteractionEciIndicator::ChannelEncrypted
    &&& body.transaction_interaction.pos_condition_code
        == TransactionInteractionPosConditionCode::CardNotPresentEcom
    &&& data.payment_method_data matches PaymentMethodData::Card(card) && (
    body.source matches Source::PaymentCard { card: cd } && cd.card_data@ == card.card_number@
        && cd.expiration_month@ == card.card_exp_month@ && cd.expiration_year@ == expiry_year_4(
        card.card_exp_year@,
    ) && cd.security_code@ == card.card_cvc@)
}

impl ChaseorbitalPaymentsRequest {
    /// Builds the authorize request body. The auth configuration must
    /// be a `SignatureKey` and the payment method a card; anything
    /// else is refused, the auth shape first.
    pub fn try_from(item: &ChaseorbitalRouterData<&PaymentsAuthorizeData>) -> (r: Result<
        ChaseorbitalPaymentsRequest,
        ConnectorError,
    >)
        ensures
            r is Ok <==> (item.router_data.connector_auth_type is SignatureKey
                && item.router_data.payment_method_data is Card),
            r matches Ok(req) ==> is_payments_request_for(req, item.amount@, *item.router_data),
            !(item.router_data.connector_auth_type is SignatureKey) ==> (r matches Err(e) && e
                == ConnectorError::FailedToObtainAuthType),
            item.router_data.connector_auth_type is SignatureKey && !(
            item.router_data.payment_method_data is Card) ==> (r matches Err(e) && e matches
                ConnectorError::NotImplemented(msg) && msg@
                == "Selected payment method through chaseorbital"@),
    {
        let auth = match ChaseorbitalAuthType::try_from(&item.router_data.connector_auth_type) {
            Ok(a) => a,
            Err(e) => {
                return Err(e);
            },
        };
        let amount = Amount {
            total: item.amount.clone(),
            currency: item.router_data.currency.code(),
        };
        let capture_flag = match item.router_data.capture_method {
            Some(CaptureMethod::Automatic) | None => true,
            _ => false,
        };
        let transaction_details = TransactionDetails {
            capture_flag: Some(capture_flag),
            reversal_reason_code: None,
            merchant_transaction_id: item.router_data.connector_request_reference_id.clone(),
        };
        let merchant_details = MerchantDetails {
            merchant_id: auth.merchant_id,
            terminal_id: Some("session.terminal_id".to_owned()),
        };
        let transaction_interaction = TransactionInteraction {
            // Payment is made in online mode, card not present.
            origin: TransactionInteractionOrigin::Ecom,
            // The channel is encrypted, but no authentication was
            // performed.
            eci_indicator: TransactionInteractionEciIndicator::ChannelEncrypted,
            pos_condition_code: TransactionInteractionPosConditionCode::CardNotPresentEcom,
        };
        let source = match &item.router_data.payment_method_data {
            PaymentMethodData::Card(ccard) => {
                let card = CardData {
                    card_data: ccard.card_number.clone(),
                    expiration_month: ccard.card_exp_month.clone(),
                    expiration_year: ccard.get_expiry_year_4_digit(),
                    security_code: ccard.card_cvc.clone(),
                };
                Source::PaymentCard { card }
            },
            _ => {
                return Err(
                    ConnectorError::NotImplemented(
                        "Selected payment method through chaseorbital".to_owned(),
                    ),
                );
            },
        };
        Ok(
            ChaseorbitalPaymentsRequest {
                amount,
                source,
                transaction_details,
                merchant_details,
                transaction_interaction,
            },
        )
    }
}

/// Payment status as the connector reports it.
#[derive(Clone, Copy, Debug, PartialEq, Eq, Structural)]
pub enum ChaseorbitalPaymentStatus {
    Succeeded,
    Failed,
    Processing,
}

/// The canonical attempt status a connector payment status maps to.
pub open spec fn attempt_status_of(status: ChaseorbitalPaymentStatus) -> AttemptStatus {
    match status {
        ChaseorbitalPaymentStatus::Succeeded => AttemptStatus::Charged,
        ChaseorbitalPaymentStatus::Failed => AttemptStatus::Failure,
        ChaseorbitalPaymentStatus::Processing => AttemptStatus::Authorizing,
    }
}

impl vstd::std_specs::convert::FromSpecImpl<ChaseorbitalPaymentStatus> for AttemptStatus {
    open spec fn obeys_from_spec() -> bool {
        true
    }

    open spec fn from_spec(status: ChaseorbitalPaymentStatus) -> AttemptStatus {
        attempt_status_of(status)
    }
}

impl From<ChaseorbitalPaymentStatus> for AttemptStatus {
    fn from(status: ChaseorbitalPaymentStatus) -> (r: AttemptStatus) {
        match status {
            ChaseorbitalPaymentStatus::Succeeded => AttemptStatus::Charged,
            ChaseorbitalPaymentStatus::Failed => AttemptStatus::Failure,
            ChaseorbitalPaymentStatus::Processing => AttemptStatus::Authorizing,
        }
    }
}

/// The connector's payment response body.
#[derive(Clone, Debug)]
pub struct ChaseorbitalPaymentsResponse {
    pub status: ChaseorbitalPaymentStatus,
    pub id: String,
}

/// Projects a payment response to its canonical outcome: the mapped
/// status and the connector's transaction identifier.
pub fn payments_response_outcome(response: &ChaseorbitalPaymentsResponse) -> (r:
    PaymentsResponseOutcome)
    ensures
        r.status == attempt_status_of(response.status),
        r.resource_id@ == response.id@,
{
    PaymentsResponseOutcome {
        status: AttemptStatus::from(response.status),
        resource_id: response.id.clone(),
    }
}

/// The refund request body.
#[derive(Clone, Debug)]
pub struct ChaseorbitalRefundRequest {
    pub amount: String,
}

impl ChaseorbitalRefundRequest {
    /// Builds the refund request body: the converted amount alone.
    pub fn try_from(item: &ChaseorbitalRouterData<&RefundsData>) -> (r: Result<
        ChaseorbitalRefundRequest,
        ConnectorError,
    >)
        ensures
            r matches Ok(req) && req.amount@ == item.amount@,
    {
        Ok(ChaseorbitalRefundRequest { amount: item.amount.clone() })
    }
}

/// Refund status as the connector reports it.
#[derive(Clone, Copy, Debug, PartialEq, Eq, Structural)]
pub enum RefundStatus {
    Succeeded,
    Failed,
    Processing,
}

/// The canonical refund status a connector refund status maps to.
pub open spec fn refund_status_of(status: RefundStatus) -> CanonicalRefundStatus {
    match status {
        RefundStatus::Succeeded => CanonicalRefundStatus::Success,
        RefundStatus::Failed => CanonicalRefundStatus::Failure,
        RefundStatus::Processing => CanonicalRefundStatus::Pending,
    }
}

impl vstd::std_specs::convert::FromSpecImpl<RefundStatus> for CanonicalRefundStatus {
    open spec fn obeys_from_spec() -> bool {
        true
    }

    open spec fn from_spec(status: RefundStatus) -> CanonicalRefundStatus {
        refund_status_of(status)
    }
}

impl From<RefundStatus> for CanonicalRefundStatus {
    fn from(status: RefundStatus) -> (r: CanonicalRefundStatus) {
        match status {
            RefundStatus::Succeeded => CanonicalRefundStatus::Success,
            RefundStatus::Failed => CanonicalRefundStatus::Failure,
            RefundStatus::Processing => CanonicalRefundStatus::Pending,
        }
    }
}

/// The connector's refund response body.
#[derive(Clone, Debug)]
pub struct RefundResponse {
    pub id: String,
    pub status: RefundStatus,
}

/// Projects a refund response to its canonical outcome: the mapped
/// status and the connector's refund identifier.
pub fn refunds_response_outcome(response: &RefundResponse) -> (r: RefundsResponseOutcome)
    ensures
        r.refund_status == refund_status_of(response.status),
        r.connector_refund_id@ == response.id@,
{
    RefundsResponseOutcome {
        connector_refund_id: response.id.clone(),
        refund_status: CanonicalRefundStatus::from(response.status),
    }
}

/// The connector's failure response body.
#[derive(Clone, Debug)]
pub struct ChaseorbitalErrorResponse {
    pub status_code: u16,
    pub code: String,
    pub message: String,
    pub reason: Option<String>,
}

} // verus!
