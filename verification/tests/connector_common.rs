use role_authz::amount::minor_unit_to_string;
use role_authz::chaseorbital::Chaseorbital;
use role_authz::chaseorbital::transformers::{ChaseorbitalErrorResponse, Source};
use role_authz::enums::{CaptureMethod, Currency, CurrencyUnit};
use role_authz::errors::ConnectorError;
use role_authz::payments::{
    Card, Connectors, ConnectorAuthType, PaymentMethodData, PaymentsAuthorizeData, RefundsData,
};

fn signature_auth() -> ConnectorAuthType {
    ConnectorAuthType::SignatureKey {
        api_key: "user".to_string(),
        key1: "merchant_77".to_string(),
        api_secret: "pass".to_string(),
    }
}

#[test]
fn connector_identity() {
    let connector = Chaseorbital::new();
    assert_eq!(connector.id(), "chaseorbital");
    assert_eq!(connector.get_currency_unit(), CurrencyUnit::Minor);
    assert_eq!(connector.common_get_content_type(), "application/json");
}

#[test]
fn auth_header_is_basic_base64_of_credentials() {
    let connector = Chaseorbital::new();
    let headers = connector.get_auth_header(&signature_auth()).unwrap();
    assert_eq!(headers.len(), 1);
    assert_eq!(headers[0].0.as_str(), "Authorization");
    assert_eq!(headers[0].1.as_str(), "Basic dXNlcjpwYXNz");
}

#[test]
fn auth_header_refuses_other_auth_shapes() {
    let connector = Chaseorbital::new();
    let r = connector.get_auth_header(&ConnectorAuthType::NoKey);
    assert!(matches!(r, Err(ConnectorError::FailedToObtainAuthType)));
}

#[test]
fn build_headers_holds_content_type_then_authorization() {
    let connector = Chaseorbital::new();
    let headers = connector.build_headers(&signature_auth()).unwrap();
    assert_eq!(headers.len(), 2);
    assert_eq!(headers[0].0.as_str(), "Content-Type");
    assert_eq!(headers[0].1.as_str(), "application/json");
    assert_eq!(headers[1].0.as_str(), "Authorization");
    assert_eq!(headers[1].1.as_str(), "Basic dXNlcjpwYXNz");
}

#[test]
fn error_response_is_mapped_field_for_field() {
    let connector = Chaseorbital::new();
    let body = ChaseorbitalErrorResponse {
        status_code: 0,
        code: "card_declined".to_string(),
        message: "The card was declined".to_string(),
        reason: Some("insufficient funds".to_string()),
    };
    let mapped = connector.build_error_response(&body, 402);
    assert_eq!(mapped.status_code, 402);
    assert_eq!(mapped.code.as_str(), "card_declined");
    assert_eq!(mapped.message.as_str(), "The card was declined");
    assert_eq!(mapped.reason, Some("insufficient funds".to_string()));
    assert_eq!(mapped.attempt_status, None);
    assert_eq!(mapped.connector_transaction_id, None);
}

#[test]
fn capture_method_validation() {
    let connector = Chaseorbital::new();
    assert!(connector.validate_capture_method(None).is_ok());
    assert!(connector
        .validate_capture_method(Some(CaptureMethod::Automatic))
        .is_ok());
    assert!(connector
        .validate_capture_method(Some(CaptureMethod::Manual))
        .is_ok());
    assert!(matches!(
        connector.validate_capture_method(Some(CaptureMethod::ManualMultiple)),
        Err(ConnectorError::NotImplemented(_))
    ));
    assert!(matches!(
        connector.validate_capture_method(Some(CaptureMethod::Scheduled)),
        Err(ConnectorError::NotImplemented(_))
    ));
}

#[test]
fn authorize_url_appends_to_base() {
    let connector = Chaseorbital::new();
    let connectors = Connectors {
        base_url: "https://example.test/api/".to_string(),
    };
    assert_eq!(
        connector.get_url(&connectors).as_str(),
        "https://example.test/api/authorize"
    );
}

#[test]
fn minor_amounts_are_written_in_decimal() {
    assert_eq!(minor_unit_to_string(0).as_str(), "0");
    assert_eq!(minor_unit_to_string(7).as_str(), "7");
    assert_eq!(minor_unit_to_string(1230).as_str(), "1230");
    assert_eq!(
        minor_unit_to_string(18446744073709551615).as_str(),
        "18446744073709551615"
    );
}

#[test]
fn request_body_converts_the_minor_amount() {
    let connector = Chaseorbital::new();
    let data = PaymentsAuthorizeData {
        payment_method_data: PaymentMethodData::Card(Card {
            card_number: "4111111111111111".to_string(),
            card_exp_month: "09".to_string(),
            card_exp_year: "25".to_string(),
            card_cvc: "123".to_string(),
        }),
        currency: Currency::GBP,
        capture_method: None,
        minor_amount: 12345,
        connector_request_reference_id: "ref_1".to_string(),
        connector_auth_type: signature_auth(),
    };
    let body = connector.get_request_body(&data).unwrap();
    assert_eq!(body.amount.total.as_str(), "12345");
    assert_eq!(body.amount.currency.as_str(), "GBP");
    let Source::PaymentCard { card } = body.source;
    assert_eq!(card.expiration_year.as_str(), "2025");
}

#[test]
fn refund_body_converts_the_minor_amount() {
    let connector = Chaseorbital::new();
    let data = RefundsData {
        currency: Currency::GBP,
        minor_refund_amount: 999,
    };
    let body = connector.get_refund_request_body(&data).unwrap();
    assert_eq!(body.amount.as_str(), "999");
}
