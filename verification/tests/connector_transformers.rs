use role_authz::chaseorbital::transformers::{
    payments_response_outcome, refunds_response_outcome, ChaseorbitalAuthType,
    ChaseorbitalPaymentsRequest, ChaseorbitalPaymentsResponse, ChaseorbitalPaymentStatus,
    ChaseorbitalRefundRequest, ChaseorbitalRouterData, RefundResponse, RefundStatus, Source,
};
use role_authz::enums::{AttemptStatus, CaptureMethod, Currency, RefundStatus as CanonicalRefundStatus};
use role_authz::errors::ConnectorError;
use role_authz::payments::{
    Card, ConnectorAuthType, PaymentMethodData, PaymentsAuthorizeData, RefundsData,
};

fn signature_auth() -> ConnectorAuthType {
    ConnectorAuthType::SignatureKey {
        api_key: "user".to_string(),
        key1: "merchant_77".to_string(),
        api_secret: "pass".to_string(),
    }
}

fn card() -> Card {
    Card {
        card_number: "4111111111111111".to_string(),
        card_exp_month: "09".to_string(),
        card_exp_year: "25".to_string(),
        card_cvc: "123".to_string(),
    }
}

fn authorize_data(
    payment_method_data: PaymentMethodData,
    capture_method: Option<CaptureMethod>,
) -> PaymentsAuthorizeData {
    PaymentsAuthorizeData {
        payment_method_data,
        currency: Currency::USD,
        capture_method,
        minor_amount: 1000,
        connector_request_reference_id: "ref_42".to_string(),
        connector_auth_type: signature_auth(),
    }
}

#[test]
fn auth_type_reads_signature_key() {
    let auth = ChaseorbitalAuthType::try_from(&signature_auth()).unwrap();
    assert_eq!(auth.orb_user_name.as_str(), "user");
    assert_eq!(auth.orb_password.as_str(), "pass");
    assert_eq!(auth.merchant_id.as_str(), "merchant_77");
}

#[test]
fn auth_type_refuses_other_shapes() {
    let header_key = ConnectorAuthType::HeaderKey {
        api_key: "k".to_string(),
    };
    let r = ChaseorbitalAuthType::try_from(&header_key);
    assert!(matches!(r, Err(ConnectorError::FailedToObtainAuthType)));
}

#[test]
fn payments_request_maps_card_fields() {
    let data = authorize_data(PaymentMethodData::Card(card()), Some(CaptureMethod::Automatic));
    let item = ChaseorbitalRouterData::from("1000".to_string(), &data);
    let req = ChaseorbitalPaymentsRequest::try_from(&item).unwrap();
    assert_eq!(req.amount.total.as_str(), "1000");
    assert_eq!(req.amount.currency.as_str(), "USD");
    assert_eq!(req.transaction_details.capture_flag, Some(true));
    assert_eq!(req.transaction_details.reversal_reason_code, None);
    assert_eq!(
        req.transaction_details.merchant_transaction_id.as_str(),
        "ref_42"
    );
    assert_eq!(req.merchant_details.merchant_id.as_str(), "merchant_77");
    let Source::PaymentCard { card } = req.source;
    assert_eq!(card.card_data.as_str(), "4111111111111111");
    assert_eq!(card.expiration_month.as_str(), "09");
    assert_eq!(card.expiration_year.as_str(), "2025");
    assert_eq!(card.security_code.as_str(), "123");
}

#[test]
fn payments_request_capture_flag_reflects_capture_method() {
    let manual = authorize_data(PaymentMethodData::Card(card()), Some(CaptureMethod::Manual));
    let item = ChaseorbitalRouterData::from("1000".to_string(), &manual);
    let req = ChaseorbitalPaymentsRequest::try_from(&item).unwrap();
    assert_eq!(req.transaction_details.capture_flag, Some(false));

    let absent = authorize_data(PaymentMethodData::Card(card()), None);
    let item = ChaseorbitalRouterData::from("1000".to_string(), &absent);
    let req = ChaseorbitalPaymentsRequest::try_from(&item).unwrap();
    assert_eq!(req.transaction_details.capture_flag, Some(true));
}

#[test]
fn payments_request_keeps_four_digit_expiry_year() {
    let mut c = card();
    c.card_exp_year = "2031".to_string();
    let data = authorize_data(PaymentMethodData::Card(c), None);
    let item = ChaseorbitalRouterData::from("5".to_string(), &data);
    let req = ChaseorbitalPaymentsRequest::try_from(&item).unwrap();
    let Source::PaymentCard { card } = req.source;
    assert_eq!(card.expiration_year.as_str(), "2031");
}

#[test]
fn payments_request_refuses_non_card_methods() {
    let data = authorize_data(PaymentMethodData::Wallet, None);
    let item = ChaseorbitalRouterData::from("1000".to_string(), &data);
    let r = ChaseorbitalPaymentsRequest::try_from(&item);
    match r {
        Err(ConnectorError::NotImplemented(msg)) => {
            assert_eq!(msg.as_str(), "Selected payment method through chaseorbital");
        }
        other => panic!("expected NotImplemented, got {:?}", other),
    }
}

#[test]
fn payments_request_refuses_wrong_auth_before_payment_method() {
    let mut data = authorize_data(PaymentMethodData::Wallet, None);
    data.connector_auth_type = ConnectorAuthType::NoKey;
    let item = ChaseorbitalRouterData::from("1000".to_string(), &data);
    let r = ChaseorbitalPaymentsRequest::try_from(&item);
    assert!(matches!(r, Err(ConnectorError::FailedToObtainAuthType)));
}

#[test]
fn payment_status_maps_to_attempt_status() {
    assert_eq!(
        AttemptStatus::from(ChaseorbitalPaymentStatus::Succeeded),
        AttemptStatus::Charged
    );
    assert_eq!(
        AttemptStatus::from(ChaseorbitalPaymentStatus::Failed),
        AttemptStatus::Failure
    );
    assert_eq!(
        AttemptStatus::from(ChaseorbitalPaymentStatus::Processing),
        AttemptStatus::Authorizing
    );
}

#[test]
fn payments_response_projects_status_and_id() {
    let response = ChaseorbitalPaymentsResponse {
        status: ChaseorbitalPaymentStatus::Succeeded,
        id: "txn_9".to_string(),
    };
    let outcome = payments_response_outcome(&response);
    assert_eq!(outcome.status, AttemptStatus::Charged);
    assert_eq!(outcome.resource_id.as_str(), "txn_9");
}

#[test]
fn refund_request_carries_the_amount() {
    let data = RefundsData {
        currency: Currency::EUR,
        minor_refund_amount: 250,
    };
    let item = ChaseorbitalRouterData::from("250".to_string(), &data);
    let req = ChaseorbitalRefundRequest::try_from(&item).unwrap();
    assert_eq!(req.amount.as_str(), "250");
}

#[test]
fn refund_status_maps_to_canonical_status() {
    assert_eq!(
        CanonicalRefundStatus::from(RefundStatus::Succeeded),
        CanonicalRefundStatus::Success
    );
    assert_eq!(
        CanonicalRefundStatus::from(RefundStatus::Failed),
        CanonicalRefundStatus::Failure
    );
    assert_eq!(
        CanonicalRefundStatus::from(RefundStatus::Processing),
        CanonicalRefundStatus::Pending
    );
}

#[test]
fn refund_response_projects_status_and_id() {
    let response = RefundResponse {
        id: "ref_7".to_string(),
        status: RefundStatus::Processing,
    };
    let outcome = refunds_response_outcome(&response);
    assert_eq!(outcome.refund_status, CanonicalRefundStatus::Pending);
    assert_eq!(outcome.connector_refund_id.as_str(), "ref_7");
}
